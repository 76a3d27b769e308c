use vstd::prelude::*;

use crate::handles::{Occupied, Vacant};

verus! {

/// A slot together with the handle that matches what it holds.
#[derive(Debug)]
pub enum Entry<'a, T> {
    /// The slot holds a value.
    Occupied(Occupied<'a, T>),
    /// The slot holds nothing.
    Vacant(Vacant<'a, T>),
}

impl<'a, T> Entry<'a, T> {
    /// The borrowed slot, whichever the variant.
    pub open spec fn slot(self) -> &'a mut Option<T> {
        match self {
            Entry::Occupied(o) => o.slot(),
            Entry::Vacant(v) => v.slot(),
        }
    }

    /// Calls `f` on the value if the slot holds one; a vacant entry is
    /// returned as it is.
    pub fn and_modify<F: FnOnce(&mut T)>(self, f: F) -> (r: Self)
        requires
            self is Occupied ==> forall|m: &mut T| *m == (*self.slot())->0 ==> #[trigger] f.requires((m,)),
        ensures
            r is Occupied <==> self is Occupied,
            *final(r.slot()) == *final(self.slot()),
            self is Vacant ==> *r.slot() is None,
            self is Occupied ==> exists|m: &mut T|
                *m == (*self.slot())->0 && #[trigger] f.ensures((m,), ()) && *r.slot() == Some(*final(m)),
    {
        match self {
            Entry::Occupied(mut o) => {
                f(o.get_mut());
                Entry::Occupied(o)
            },
            Entry::Vacant(v) => {
                proof {
                    use_type_invariant(&v);
                }
                Entry::Vacant(v)
            },
        }
    }

    /// Fills the slot with `default` if it is empty, and returns an occupied
    /// handle over it.
    pub fn or_insert(self, default: T) -> (r: Occupied<'a, T>)
        ensures
            *r.slot() == Some(
                match *self.slot() {
                    Some(x) => x,
                    None => default,
                },
            ),
            *final(r.slot()) == *final(self.slot()),
    {
        proof {
            if let Entry::Vacant(v) = &self {
                use_type_invariant(v);
            }
        }
        let ghost d = default;
        let r = self.or_insert_with(move || -> (x: T)
            ensures
                x == d,
            { default });
        r
    }

    /// Fills the slot with `default()` if it is empty, calling `default` only
    /// then, and returns an occupied handle over it.
    pub fn or_insert_with<F: FnOnce() -> T>(self, default: F) -> (r: Occupied<'a, T>)
        requires
            self is Vacant ==> default.requires(()),
        ensures
            self is Occupied ==> *r.slot() == *self.slot(),
            self is Vacant ==> default.ensures((), r.value()),
            *r.slot() is Some,
            *final(r.slot()) == *final(self.slot()),
    {
        match self {
            Entry::Occupied(o) => {
                proof {
                    use_type_invariant(&o);
                }
                o
            },
            Entry::Vacant(v) => v.insert(default()),
        }
    }
}

impl<'a, T> Entry<'a, T> {
    /// Takes the value out, if there is one, and returns it with a vacant
    /// handle over the now empty slot.
    pub fn remove(self) -> (r: (Option<T>, Vacant<'a, T>))
        ensures
            r.0 == *self.slot(),
            *r.1.slot() is None,
            *final(r.1.slot()) == *final(self.slot()),
    {
        match self {
            Entry::Occupied(o) => {
                proof {
                    use_type_invariant(&o);
                }
                let (v, item) = o.extract();
                (Some(item), v)
            },
            Entry::Vacant(v) => {
                proof {
                    use_type_invariant(&v);
                }
                (None, v)
            },
        }
    }

    /// Gives up what is known of the slot and returns the borrowed slot.
    pub fn into_inner(self) -> (r: &'a mut Option<T>)
        ensures
            *r == *self.slot(),
            *final(r) == *final(self.slot()),
    {
        match self {
            Entry::Occupied(o) => o.into_inner(),
            Entry::Vacant(v) => v.into_inner(),
        }
    }
}

/// Classifies a slot: an occupied entry if it holds a value, else a vacant one.
pub fn examine<'a, T>(option: &'a mut Option<T>) -> (e: Entry<'a, T>)
    ensures
        e is Occupied <==> *old(option) is Some,
        *e.slot() == *old(option),
        *final(e.slot()) == *final(option),
{
    if option.is_some() {
        Entry::Occupied(Occupied::new_unchecked(option))
    } else {
        Entry::Vacant(Vacant::new_unchecked(option))
    }
}

} // verus!
