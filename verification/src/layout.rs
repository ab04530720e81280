//! The compile-time layout proof: a storage slot declared in a public header
//! must be large enough and aligned enough to hold an optional instance of
//! the wrapped value type. If it is not, the build fails; there is no runtime
//! fallback.

use vstd::prelude::*;

verus! {

/// The layout facts of one type: its size and its alignment in bytes.
#[derive(Clone, Copy, PartialEq, Eq, Structural, Debug)]
pub struct TypeLayout {
    pub size: usize,
    pub align: usize,
}

/// Whether a byte region of layout `storage` can serve as type-punned space
/// for a value of layout `value`: it must be at least as large and at least
/// as strictly aligned.
pub open spec fn layout_suffices(storage: TypeLayout, value: TypeLayout) -> bool {
    storage.size >= value.size && storage.align >= value.align
}

/// The layout proof attached to a storage type. `storage` is the layout of
/// the storage slot, `optional_value` the layout of the optional form of the
/// wrapped type. Generation succeeds exactly when the result is `true`; a
/// `false` result stands for the build failure that the emitted constant
/// evaluation forces.
pub fn assert_storage_layout(storage: TypeLayout, optional_value: TypeLayout) -> (r: bool)
    ensures
        r == layout_suffices(storage, optional_value),
{
    storage.size >= optional_value.size && storage.align >= optional_value.align
}

} // verus!
