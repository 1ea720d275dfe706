//! Verified core of the TON bridge contracts: the bridge's stored state
//! types, its error type, and the decisions of the validator contract
//! (message planning, 32-byte hash decoding and paginated listing).
use vstd::prelude::*;

pub mod error;
pub mod execute;
pub mod hash;
pub mod lookup;
pub mod msg;
pub mod query;
pub mod state;

verus! {
} // verus!
