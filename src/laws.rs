use vstd::prelude::*;

use crate::handles::Vacant;

verus! {

/// Inserting a value into a vacant slot and taking it straight back returns
/// that value and leaves the slot empty.
pub fn insert_then_take<'a, T>(vacant: Vacant<'a, T>, v: T) -> (r: T)
    ensures
        r == v,
        *final(vacant.slot()) is None,
{
    vacant.insert(v).take()
}

} // verus!
