//! The name that the name service gives for an identity.

use vstd::prelude::*;

verus! {

/// The answer of the name service to a profile request.
#[derive(Debug, Clone, PartialEq, Eq)]
pub struct UuidToUsername {
    pub name: String,
}

} // verus!
