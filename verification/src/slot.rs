//! The ownership protocol of a storage slot. A slot has exactly one content
//! state at any time: empty, or holding one value. The generated lifecycle
//! operations are the only sanctioned way to move a value into, out of, or
//! through the slot; this module states what each of them does to the
//! content state and proves the laws of the protocol.

use vstd::prelude::*;
use crate::layout::{assert_storage_layout, layout_suffices, TypeLayout};

verus! {

/// The content state a slot enters when `initialize` writes `value` into
/// previously empty space.
pub open spec fn initialized<T>(value: T) -> Option<T> {
    Some(value)
}

/// The value that `take` hands to the caller out of content state `s`.
pub open spec fn taken_value<T>(s: Option<T>) -> Option<T> {
    s
}

/// The content state that `take` leaves behind, whatever stood in `s`.
pub open spec fn after_take<T>(s: Option<T>) -> Option<T> {
    None
}

/// The content state after `set` overwrites previous state `s` with `value`,
/// dropping whatever `s` held.
pub open spec fn after_set<T>(s: Option<T>, value: T) -> Option<T> {
    Some(value)
}

/// A storage slot for one optional value of type `T`. It models the
/// fixed-size byte region behind an opaque handle: the region itself is
/// declared elsewhere, and once the layout proof has passed, the lifecycle
/// operations below are the region's only sanctioned interpretation.
pub struct StorageSlot<T> {
    value: Option<T>,
}

impl<T> StorageSlot<T> {
    /// The current content state: `None` for empty, `Some` for holding one
    /// value. No other cardinality is representable.
    pub closed spec fn contents(&self) -> Option<T> {
        self.value
    }

    /// A fresh, empty slot: the state in which the first `initialize` is
    /// permitted.
    pub fn new_empty() -> (r: Self)
        ensures
            r.contents() is None,
    {
        StorageSlot { value: None }
    }

    /// First-time construction: writes `value` into the slot. It is meant
    /// for memory no value lives in, so the slot must be empty; writing over
    /// a held value through this operation would leak it rather than drop
    /// it, which is why an occupied slot is ruled out here rather than
    /// checked at runtime.
    pub fn initialize(&mut self, value: T)
        requires
            old(self).contents() is None,
        ensures
            final(self).contents() == initialized(value),
    {
        self.value = Some(value);
    }

    /// Moves the slot's content out to the caller, leaving the slot empty.
    /// The caller owns whatever comes back; the slot owns nothing afterward.
    pub fn take(&mut self) -> (r: Option<T>)
        ensures
            r == taken_value(old(self).contents()),
            final(self).contents() == after_take(old(self).contents()),
    {
        self.value.take()
    }

    /// Reinitialization with drop: unconditionally overwrites the slot with
    /// `value`, dropping any previous content through ordinary assignment.
    pub fn set(&mut self, value: T)
        ensures
            final(self).contents() == after_set(old(self).contents(), value),
    {
        self.value = Some(value);
    }

    /// Borrows the held value without moving it. Models the generated read
    /// accessor that underlies the lifecycle operations; it assumes a value
    /// is held, which only the protocol guarantees.
    pub fn borrow_value(&self) -> (r: &T)
        requires
            self.contents() is Some,
        ensures
            *r == self.contents()->0,
    {
        self.value.as_ref().unwrap()
    }
}

/// The layout proof stands before any ownership operation is reachable: a
/// slot comes into being only for a storage region whose layout suffices for
/// the optional form of the wrapped type. `storage` is the layout of the
/// region, `optional_value` the layout of the optional wrapped type.
pub fn new_checked_slot<T>(storage: TypeLayout, optional_value: TypeLayout) -> (r: Option<
    StorageSlot<T>,
>)
    ensures
        r is Some <==> layout_suffices(storage, optional_value),
        r matches Some(slot) ==> slot.contents() is None,
{
    if assert_storage_layout(storage, optional_value) {
        Some(StorageSlot::new_empty())
    } else {
        None
    }
}

/// Round trip: initializing an empty slot with `value` and then taking hands
/// exactly `value` back, and the slot is empty immediately after.
pub proof fn lemma_initialize_take_round_trip<T>(value: T)
    ensures
        taken_value(initialized(value)) == Some(value),
        after_take(initialized(value)) is None,
{
}

/// Emptiness after take: two takes in a row yield the held value and then
/// nothing, since the first take leaves the slot empty.
pub proof fn lemma_take_twice<T>(value: T)
    ensures
        taken_value(initialized(value)) == Some(value),
        taken_value(after_take(initialized(value))) is None,
        after_take(after_take(initialized(value))) is None,
{
}

/// No residue: setting twice over any starting state leaves exactly the
/// second value, and nothing of the first remains observable.
pub proof fn lemma_set_leaves_no_residue<T>(s: Option<T>, first: T, second: T)
    ensures
        after_set(after_set(s, first), second) == Some(second),
        taken_value(after_set(after_set(s, first), second)) == Some(second),
        after_take(after_set(after_set(s, first), second)) is None,
{
}

} // verus!
