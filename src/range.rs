//! Sizing of the byte range that a buffer of elements covers.
use vstd::prelude::*;
use vstd::layout::size_of;

verus! {

/// The number of bytes taken by `count` elements of `T`.
pub open spec fn range_bytes<T>(count: nat) -> nat {
    count * size_of::<T>()
}

/// The byte length of a range of `count` elements of `T`, or `None` where it
/// would not fit in `usize`.
pub fn byte_len<T>(count: usize) -> (r: Option<usize>)
    ensures
        range_bytes::<T>(count as nat) <= usize::MAX ==> r == Some(
            range_bytes::<T>(count as nat) as usize,
        ),
        range_bytes::<T>(count as nat) > usize::MAX ==> r is None,
{
    let size: usize = core::mem::size_of::<T>();
    count.checked_mul(size)
}

} // verus!
