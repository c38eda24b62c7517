//! An owner-gated fungible token for the Soroban host, built on the
//! `stellar-tokens` library.

pub mod contract;
pub mod host;
pub mod laws;
pub mod mode;
pub mod status;

pub use contract::MyToken;
pub use contract::TokenError;
pub use mode::TestMode;
pub use status::Status;
