use vstd::prelude::*;

verus! {

/// Identity bridge between the caller's domain and the billing domain:
/// `id` is assigned by this system, `external_id` by the caller.
/// Both are 128-bit UUID values.
#[derive(Clone, Copy, Debug, PartialEq, Eq, Structural)]
pub struct User {
    pub id: u128,
    pub external_id: u128,
}

} // verus!
