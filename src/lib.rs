//! Occupancy-tagged handles over an `Option` slot.
//!
//! Classifying a slot with [`examine`] yields an [`Entry`]: either an [`Occupied`]
//! handle, which proves the slot holds a value, or a [`Vacant`] handle, which
//! proves it holds none. Operations on a handle need no further check, and the
//! handles that change the slot's state consume themselves and yield the
//! handle of the opposite state.
//!
//! Each handle's contracts speak of `slot()`, the borrowed reference: `*h.slot()`
//! is what the slot holds while the handle lives, and `*final(h.slot())` is what
//! it holds once the borrow ends. With `broadcast use group_handles;` a caller
//! learns that a handle it has dropped left the slot as the handle last saw it.
use vstd::prelude::*;

mod entry;
mod handles;
mod laws;
mod option_ext;

pub use entry::{examine, Entry};
pub use handles::{
    group_handles, lemma_occupied_resolved, lemma_vacant_resolved, Occupied, Vacant,
};
pub use laws::insert_then_take;
pub use option_ext::OptionExt;
