use vstd::prelude::*;

use crate::entry::{examine, Entry};

verus! {

/// A borrow of an `Option` that is known to be `Some` for as long as the
/// handle lives.
#[derive(Debug)]
pub struct Occupied<'a, T> {
    option: &'a mut Option<T>,
}

/// A borrow of an `Option` that is known to be `None` for as long as the
/// handle lives.
#[derive(Debug)]
pub struct Vacant<'a, T> {
    option: &'a mut Option<T>,
}

/// Once an occupied handle is done with, the slot keeps what the handle
/// last held.
pub broadcast proof fn lemma_occupied_resolved<'a, T>(o: Occupied<'a, T>)
    ensures
        #[trigger] has_resolved(o) ==> *final(o.slot()) == *o.slot(),
{
}

/// Once a vacant handle is done with, the slot stays empty.
pub broadcast proof fn lemma_vacant_resolved<'a, T>(v: Vacant<'a, T>)
    ensures
        #[trigger] has_resolved(v) ==> *final(v.slot()) == *v.slot(),
{
}

/// The facts that let a caller read a slot again after its handle is gone.
pub broadcast group group_handles {
    lemma_occupied_resolved,
    lemma_vacant_resolved,
}

/// Reborrows the value inside an occupied slot.
fn some_mut<T>(option: &mut Option<T>) -> (r: &mut T)
    requires
        *old(option) is Some,
    ensures
        *r == old(option)->0,
        *final(option) == Some(*final(r)),
    no_unwind
{
    match option {
        Some(v) => v,
        None => unreached(),
    }
}

impl<'a, T> Occupied<'a, T> {
    #[verifier::type_invariant]
    pub(crate) open spec fn inv(self) -> bool {
        *self.slot() is Some
    }

    /// The borrowed slot.
    pub closed spec fn slot(self) -> &'a mut Option<T> {
        self.option
    }

    /// The value that the slot holds.
    pub open spec fn value(self) -> T {
        (*self.slot())->0
    }

    /// Wraps a slot that the caller has shown to be occupied.
    pub(crate) fn new_unchecked(option: &'a mut Option<T>) -> (r: Self)
        requires
            *old(option) is Some,
        ensures
            *r.slot() == *old(option),
            *final(r.slot()) == *final(option),
    {
        Occupied { option }
    }

    /// A handle over `option` if it holds a value, else `None`.
    pub fn new(option: &'a mut Option<T>) -> (r: Option<Self>)
        ensures
            r is Some <==> *old(option) is Some,
            r matches Some(o) ==> *o.slot() == *old(option) && *final(o.slot()) == *final(option),
            r is None ==> *final(option) == *old(option),
    {
        match examine(option) {
            Entry::Occupied(o) => Some(o),
            Entry::Vacant(_) => None,
        }
    }

    /// Shared view of the value.
    pub fn get(&self) -> (r: &T)
        ensures
            *r == self.value(),
    {
        proof {
            use_type_invariant(self);
        }
        self.option.as_ref().unwrap()
    }

    /// Exclusive view of the value; what is written through it stays in the slot.
    pub fn get_mut(&mut self) -> (r: &mut T)
        ensures
            *r == old(self).value(),
            *final(self).slot() == Some(*final(r)),
            *final(final(self).slot()) == *final(old(self).slot()),
        no_unwind
    {
        proof {
            use_type_invariant(&*self);
        }
        some_mut(self.option)
    }

    /// Gives up the proof of occupancy and returns the borrowed slot.
    pub fn into_inner(self) -> (r: &'a mut Option<T>)
        ensures
            *r == *self.slot(),
            *r is Some,
            *final(r) == *final(self.slot()),
    {
        proof {
            use_type_invariant(&self);
        }
        let Occupied { option } = self;
        option
    }

    /// Gives up the handle for a borrow of the value that lasts as long as
    /// the slot's borrow.
    pub fn into_mut(self) -> (r: &'a mut T)
        ensures
            *r == self.value(),
            *final(self.slot()) == Some(*final(r)),
    {
        let option = self.into_inner();
        some_mut(option)
    }

    /// Moves the value out, leaving the slot empty.
    pub fn take(self) -> (r: T)
        ensures
            r == self.value(),
            *final(self.slot()) is None,
    {
        let option = self.into_inner();
        option.take().unwrap()
    }

    /// Moves the value out and returns a vacant handle over the now empty slot.
    pub fn extract(self) -> (r: (Vacant<'a, T>, T))
        ensures
            r.1 == self.value(),
            *r.0.slot() is None,
            *final(r.0.slot()) == *final(self.slot()),
    {
        let option = self.into_inner();
        let item = option.take().unwrap();
        (Vacant::new_unchecked(option), item)
    }
}

impl<'a, T> Vacant<'a, T> {
    #[verifier::type_invariant]
    pub(crate) open spec fn inv(self) -> bool {
        *self.slot() is None
    }

    /// The borrowed slot.
    pub closed spec fn slot(self) -> &'a mut Option<T> {
        self.option
    }

    /// Wraps a slot that the caller has shown to be empty.
    pub(crate) fn new_unchecked(option: &'a mut Option<T>) -> (r: Self)
        requires
            *old(option) is None,
        ensures
            *r.slot() == *old(option),
            *final(r.slot()) == *final(option),
    {
        Vacant { option }
    }

    /// A handle over `option` if it is empty, else `None`.
    pub fn new(option: &'a mut Option<T>) -> (r: Option<Self>)
        ensures
            r is Some <==> *old(option) is None,
            r matches Some(v) ==> *v.slot() == *old(option) && *final(v.slot()) == *final(option),
            r is None ==> *final(option) == *old(option),
    {
        match examine(option) {
            Entry::Vacant(v) => Some(v),
            Entry::Occupied(_) => None,
        }
    }

    /// Gives up the proof of emptiness and returns the borrowed slot.
    pub fn into_inner(self) -> (r: &'a mut Option<T>)
        ensures
            *r == *self.slot(),
            *r is None,
            *final(r) == *final(self.slot()),
    {
        proof {
            use_type_invariant(&self);
        }
        let Vacant { option } = self;
        option
    }

    /// Writes `item` into the empty slot and returns an occupied handle over it.
    pub fn insert(self, item: T) -> (r: Occupied<'a, T>)
        ensures
            *r.slot() == Some(item),
            *final(r.slot()) == *final(self.slot()),
    {
        let option = self.into_inner();
        *option = Some(item);
        Occupied::new_unchecked(option)
    }
}

} // verus!

verus! {

impl<T> AsRef<T> for Occupied<'_, T> {
    fn as_ref(&self) -> &T {
        self.get()
    }
}

impl<T> AsMut<T> for Occupied<'_, T> {
    fn as_mut(&mut self) -> &mut T {
        self.get_mut()
    }
}

} // verus!
