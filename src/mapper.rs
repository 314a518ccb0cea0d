//! The layout, error kinds and fill step of a file-backed mapped region.
//!
//! A region holds a non-empty run of elements of `T` in a shared mapping. The
//! numbers that describe it live in [`RegionLayout`], whose invariant is that
//! the byte length is a non-zero multiple of the element size; the data are
//! copied in by [`fill`] once the mapping's start is known to be aligned.
use vstd::prelude::*;
use vstd::layout::{align_of, size_of};

verus! {

/// The kinds of failure reported by `mmap`.
#[derive(Debug, Clone, Copy, PartialEq, Eq, Structural)]
pub enum MapFault {
    EPERM,
    EBADF,
    EAGAIN,
    ENOMEM,
    EACCES,
    ENODEV,
    EINVAL,
    ENFILE,
    EOVERFLOW,
    /// A code outside the known set, kept as it came.
    EUNIM(i32),
}

/// The kind that a raw `mmap` error code stands for.
pub open spec fn map_fault_of(code: i32) -> MapFault {
    if code == 1 {
        MapFault::EPERM
    } else if code == 9 {
        MapFault::EBADF
    } else if code == 11 {
        MapFault::EAGAIN
    } else if code == 12 {
        MapFault::ENOMEM
    } else if code == 13 {
        MapFault::EACCES
    } else if code == 19 {
        MapFault::ENODEV
    } else if code == 22 {
        MapFault::EINVAL
    } else if code == 23 {
        MapFault::ENFILE
    } else if code == 75 {
        MapFault::EOVERFLOW
    } else {
        MapFault::EUNIM(code)
    }
}

impl From<i32> for MapFault {
    fn from(err: i32) -> (r: MapFault)
        ensures
            r == map_fault_of(err),
    {
        match err {
            1 => MapFault::EPERM,
            9 => MapFault::EBADF,
            11 => MapFault::EAGAIN,
            12 => MapFault::ENOMEM,
            13 => MapFault::EACCES,
            19 => MapFault::ENODEV,
            22 => MapFault::EINVAL,
            23 => MapFault::ENFILE,
            75 => MapFault::EOVERFLOW,
            _ => MapFault::EUNIM(err),
        }
    }
}

impl vstd::std_specs::convert::FromSpecImpl<i32> for MapFault {
    open spec fn obeys_from_spec() -> bool {
        true
    }

    open spec fn from_spec(v: i32) -> MapFault {
        map_fault_of(v)
    }
}

/// Why a region could not be made.
#[derive(Debug, Clone, Copy, PartialEq, Eq, Structural)]
pub enum MapError {
    /// The data to map take no bytes: a region is never empty.
    EmptyBuffer,
    /// The data's byte length does not fit in `usize`.
    TooLarge,
    /// The backing store could not be created or sized; the OS code, if any.
    BackingStore(Option<i32>),
    /// The OS refused the mapping.
    Mapping(MapFault),
    /// The mapping's start is not aligned for the element type, so no typed
    /// copy is made.
    Misaligned,
}

/// The byte length of a region that holds `count` elements of `size` bytes.
pub open spec fn region_bytes(count: nat, size: nat) -> nat {
    count * size
}

/// The number of elements of `size` bytes in a region of `bytes` bytes.
pub open spec fn region_elements(bytes: nat, size: nat) -> nat
    recommends
        size > 0,
{
    bytes / size
}

/// The layout of a region holding elements of `size` bytes.
pub open spec fn layout_wf(bytes: nat, size: nat) -> bool {
    &&& size > 0
    &&& bytes > 0
    &&& bytes % size == 0
}

/// The numbers that describe a mapped region: its length in bytes and the
/// size of one element.
#[derive(Debug, Clone, Copy, PartialEq, Eq, Structural)]
pub struct RegionLayout {
    byte_length: usize,
    elem_size: usize,
}

impl RegionLayout {
    /// The region's length in bytes.
    pub closed spec fn bytes(&self) -> nat {
        self.byte_length as nat
    }

    /// The size of one element in bytes.
    pub closed spec fn elem_bytes(&self) -> nat {
        self.elem_size as nat
    }

    /// The byte length is a non-zero multiple of the element size.
    pub closed spec fn wf(&self) -> bool {
        layout_wf(self.byte_length as nat, self.elem_size as nat)
    }

    /// The layout of a region that holds `count` elements of `T`.
    ///
    /// Fails with `EmptyBuffer` where they take no bytes (no elements, or
    /// elements of size zero) and with `TooLarge` where their byte length
    /// does not fit in `usize`.
    pub fn for_elements<T>(count: usize) -> (r: Result<RegionLayout, MapError>)
        ensures
            region_bytes(count as nat, size_of::<T>()) == 0 ==> r == Err::<RegionLayout, MapError>(
                MapError::EmptyBuffer,
            ),
            region_bytes(count as nat, size_of::<T>()) > usize::MAX ==> r == Err::<
                RegionLayout,
                MapError,
            >(MapError::TooLarge),
            (0 < region_bytes(count as nat, size_of::<T>()) <= usize::MAX) == (r is Ok),
            r matches Ok(l) ==> {
                &&& l.wf()
                &&& l.bytes() == region_bytes(count as nat, size_of::<T>())
                &&& l.elem_bytes() == size_of::<T>()
                &&& region_elements(l.bytes(), l.elem_bytes()) == count
            },
    {
        let size: usize = core::mem::size_of::<T>();
        if count == 0 || size == 0 {
            proof {
                lemma_zero_product(count as nat, size as nat);
            }
            return Err(MapError::EmptyBuffer);
        }
        match count.checked_mul(size) {
            None => Err(MapError::TooLarge),
            Some(bytes) => {
                proof {
                    lemma_layout_round_trip(count as nat, size as nat);
                }
                Ok(RegionLayout { byte_length: bytes, elem_size: size })
            },
        }
    }

    /// The region's length in bytes.
    pub fn byte_length(&self) -> (r: usize)
        ensures
            r == self.bytes(),
    {
        self.byte_length
    }

    /// The number of elements that a view of the region holds.
    pub fn element_count(&self) -> (r: usize)
        requires
            self.wf(),
        ensures
            r == region_elements(self.bytes(), self.elem_bytes()),
            r > 0,
    {
        proof {
            lemma_elements_positive(self.byte_length as nat, self.elem_size as nat);
        }
        self.byte_length / self.elem_size
    }
}

proof fn lemma_zero_product(count: nat, size: nat)
    requires
        count == 0 || size == 0,
    ensures
        region_bytes(count, size) == 0,
{
    assert(count * size == 0) by (nonlinear_arith)
        requires
            count == 0 || size == 0,
    ;
}

proof fn lemma_elements_positive(bytes: nat, size: nat)
    requires
        layout_wf(bytes, size),
    ensures
        region_elements(bytes, size) > 0,
{
    assert(bytes / size > 0) by (nonlinear_arith)
        requires
            size > 0,
            bytes > 0,
            bytes % size == 0,
    ;
}

/// A region made for `count > 0` elements of `size > 0` bytes is well formed
/// and its view holds exactly `count` elements again.
pub proof fn lemma_layout_round_trip(count: nat, size: nat)
    requires
        count > 0,
        size > 0,
    ensures
        layout_wf(region_bytes(count, size), size),
        region_elements(region_bytes(count, size), size) == count,
{
    vstd::arithmetic::div_mod::lemma_mod_multiples_basic(count as int, size as int);
    vstd::arithmetic::div_mod::lemma_div_multiples_vanish(count as int, size as int);
    assert(count * size > 0) by (nonlinear_arith)
        requires
            count > 0,
            size > 0,
    ;
    assert(count * size == size * count) by (nonlinear_arith);
}

/// Whether a mapping that starts at address `addr` may hold elements whose
/// alignment is `align`.
pub open spec fn aligned_for(addr: usize, align: nat) -> bool {
    align > 0 && addr as nat % align == 0
}

/// Checks that a mapping starting at `addr` is aligned for `T`, the condition
/// under which the data are copied in as elements of `T`.
pub fn check_alignment<T>(addr: usize) -> (r: Result<(), MapError>)
    ensures
        aligned_for(addr, align_of::<T>()) ==> r is Ok,
        !aligned_for(addr, align_of::<T>()) ==> r == Err::<(), MapError>(MapError::Misaligned),
{
    let align: usize = core::mem::align_of::<T>();
    if align != 0 && addr % align == 0 {
        Ok(())
    } else {
        Err(MapError::Misaligned)
    }
}

/// Copies `data` into the mapped elements `dst`, one for one.
pub fn fill<T: Copy>(dst: &mut [T], data: &[T])
    requires
        old(dst)@.len() == data@.len(),
    ensures
        final(dst)@ == data@,
{
    let n: usize = data.len();
    let mut i: usize = 0;
    while i < n
        invariant
            n == data@.len(),
            dst@.len() == n,
            i <= n,
            forall|j: int| 0 <= j < i ==> dst@[j] == data@[j],
        decreases n - i,
    {
        dst[i] = data[i];
        i = i + 1;
    }
    assert(dst@ =~= data@);
}

} // verus!
