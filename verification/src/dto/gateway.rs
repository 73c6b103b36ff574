use vstd::prelude::*;

verus! {

/// One entry of the read-only, priority-ordered gateway list. The entry with
/// the lowest priority value is the active gateway.
#[derive(Debug, PartialEq)]
pub struct Gateway {
    pub id: u128,
    pub name: String,
    pub priority: u32,
}

impl Clone for Gateway {
    fn clone(&self) -> (r: Self)
        ensures
            r == *self,
    {
        Gateway { id: self.id, name: self.name.clone(), priority: self.priority }
    }
}

} // verus!
