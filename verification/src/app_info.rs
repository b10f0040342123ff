//! The backend's own version, which clients must match at startup.

use vstd::prelude::*;

verus! {

/// The version string that `initialize` compares the client against.
pub open spec fn spec_delila_version() -> Seq<char> {
    "0.1.0"@
}

/// The backend's version string.
pub fn delila_version() -> (v: &'static str)
    ensures
        v@ == spec_delila_version(),
{
    "0.1.0"
}

} // verus!
