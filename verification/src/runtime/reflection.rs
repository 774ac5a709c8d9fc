//! Reading the scalar fields of a reflection blob.

use vstd::prelude::*;

verus! {

/// A table index read from a reflection blob: `None` when it is the
/// `invalid` sentinel (`SM_INVALID_INDEX` of the C ABI), which marks an
/// absent record such as a missing global params layout.
pub fn optional_index(v: u32, invalid: u32) -> (r: Option<u32>)
    ensures
        v == invalid ==> r is None,
        v != invalid ==> r == Some(v),
{
    if v == invalid {
        None
    } else {
        Some(v)
    }
}

} // verus!
