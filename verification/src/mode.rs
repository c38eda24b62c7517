//! The deployment stage that is recorded with the token.

use vstd::prelude::*;

verus! {

/// Deployment stage recorded with the token. It is kept in storage as a
/// number: 0, 1 or 2.
#[derive(Copy, Clone, Debug, PartialEq, Eq, PartialOrd, Ord, Structural)]
pub enum TestMode {
    Development,
    Testing,
    Production,
}

impl TestMode {
    /// The number that stands for a stage.
    pub open spec fn spec_code(self) -> u32 {
        match self {
            TestMode::Development => 0,
            TestMode::Testing => 1,
            TestMode::Production => 2,
        }
    }

    /// The stage that a number stands for.
    pub open spec fn spec_from_code(code: u32) -> Option<TestMode> {
        if code == 0 {
            Some(TestMode::Development)
        } else if code == 1 {
            Some(TestMode::Testing)
        } else if code == 2 {
            Some(TestMode::Production)
        } else {
            None
        }
    }

    /// The number that stands for this stage.
    pub fn code(self) -> (code: u32)
        ensures
            code == self.spec_code(),
    {
        match self {
            TestMode::Development => 0,
            TestMode::Testing => 1,
            TestMode::Production => 2,
        }
    }

    /// The stage that `code` stands for, if it stands for one.
    pub fn from_code(code: u32) -> (mode: Option<TestMode>)
        ensures
            mode == Self::spec_from_code(code),
    {
        if code == 0 {
            Some(TestMode::Development)
        } else if code == 1 {
            Some(TestMode::Testing)
        } else if code == 2 {
            Some(TestMode::Production)
        } else {
            None
        }
    }
}

} // verus!
