//! The activity state that is recorded with the token.

use vstd::prelude::*;
use crate::host::is_symbol;

verus! {

/// Activity state recorded with the token. It is kept in storage under its
/// name.
#[derive(Copy, Clone, Debug, PartialEq, Eq, Structural)]
pub enum Status {
    Active,
    Inactive,
    Pending,
}

impl Status {
    /// The name that stands for a state.
    pub open spec fn spec_label(self) -> Seq<char> {
        match self {
            Status::Active => "Active"@,
            Status::Inactive => "Inactive"@,
            Status::Pending => "Pending"@,
        }
    }

    /// The name that stands for this state.
    pub fn label(self) -> (label: &'static str)
        ensures
            label@ == self.spec_label(),
    {
        match self {
            Status::Active => "Active",
            Status::Inactive => "Inactive",
            Status::Pending => "Pending",
        }
    }

    /// The name of a state is a symbol, and two states have the same name
    /// only if they are the same state.
    pub proof fn lemma_labels(self, other: Status)
        ensures
            is_symbol(self.spec_label()),
            self.spec_label() == other.spec_label() ==> self == other,
    {
        reveal_strlit("Active");
        reveal_strlit("Inactive");
        reveal_strlit("Pending");
        assert("Active"@[0] != "Pending"@[0]);
    }
}

} // verus!
