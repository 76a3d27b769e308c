use vstd::prelude::*;

use crate::entry::{examine, Entry};
use crate::handles::{Occupied, Vacant};

verus! {

/// Handle-producing methods on an `Option` slot.
pub trait OptionExt<T>: Sized {
    /// What the slot holds.
    spec fn held(&self) -> Option<T>;

    /// An occupied handle if the slot holds a value, else `None`.
    fn peek_some(&mut self) -> (r: Option<Occupied<'_, T>>)
        ensures
            r is Some <==> old(self).held() is Some,
            r matches Some(o) ==> *o.slot() == old(self).held() && *final(o.slot())
                == final(self).held(),
            r is None ==> final(self).held() == old(self).held(),
    ;

    /// A vacant handle if the slot is empty, else `None`.
    fn peek_empty(&mut self) -> (r: Option<Vacant<'_, T>>)
        ensures
            r is Some <==> old(self).held() is None,
            r matches Some(v) ==> *v.slot() == old(self).held() && *final(v.slot())
                == final(self).held(),
            r is None ==> final(self).held() == old(self).held(),
    ;

    /// The entry that classifies the slot.
    fn entry(&mut self) -> (e: Entry<'_, T>)
        ensures
            e is Occupied <==> old(self).held() is Some,
            *e.slot() == old(self).held(),
            *final(e.slot()) == final(self).held(),
    ;

    /// Overwrites the slot with `item` and returns an occupied handle over it.
    fn emplace(&mut self, item: T) -> (r: Occupied<'_, T>)
        ensures
            *r.slot() == Some(item),
            *final(r.slot()) == final(self).held(),
    ;

    /// Fills the slot with `item` if it is empty; either way returns an
    /// occupied handle over it.
    fn get_or_emplace(&mut self, item: T) -> (r: Occupied<'_, T>)
        ensures
            *r.slot() == Some(
                match old(self).held() {
                    Some(x) => x,
                    None => item,
                },
            ),
            *final(r.slot()) == final(self).held(),
    {
        let ghost d = item;
        self.get_or_emplace_with(move || -> (x: T)
            ensures
                x == d,
            { item })
    }

    /// Fills the slot with `item()` if it is empty, calling `item` only then;
    /// either way returns an occupied handle over it.
    fn get_or_emplace_with<F: FnOnce() -> T>(&mut self, item: F) -> (r: Occupied<'_, T>)
        requires
            old(self).held() is None ==> item.requires(()),
        ensures
            old(self).held() is Some ==> *r.slot() == old(self).held(),
            old(self).held() is None ==> item.ensures((), r.value()),
            *r.slot() is Some,
            *final(r.slot()) == final(self).held(),
    ;
}

impl<T> OptionExt<T> for Option<T> {
    open spec fn held(&self) -> Option<T> {
        *self
    }

    fn peek_some(&mut self) -> (r: Option<Occupied<'_, T>>) {
        Occupied::new(self)
    }

    fn peek_empty(&mut self) -> (r: Option<Vacant<'_, T>>) {
        Vacant::new(self)
    }

    fn entry(&mut self) -> (e: Entry<'_, T>) {
        examine(self)
    }

    fn emplace(&mut self, item: T) -> (r: Occupied<'_, T>) {
        *self = Some(item);
        Occupied::new_unchecked(self)
    }

    fn get_or_emplace_with<F: FnOnce() -> T>(&mut self, item: F) -> (r: Occupied<'_, T>) {
        if self.is_none() {
            *self = Some(item());
        }
        Occupied::new_unchecked(self)
    }
}

} // verus!
