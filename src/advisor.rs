//! A guard that tells the OS how a buffer's pages will be used.
use vstd::prelude::*;
use core::marker::PhantomData;

verus! {

/// Gives `posix_madvise` hints on the pages behind `buf`.
///
/// Whatever hint came last, the pages are advised [`Adviser::reset_hint`]
/// when the guard's scope ends, so that they go back to the OS.
pub struct Adviser<C, T> {
    pub buf: C,
    pub item_type: PhantomData<T>,
}

impl<C: AsMut<[T]>, T> Adviser<C, T> {
    /// A guard over `buf`; no hint is given yet.
    pub fn new(buf: C) -> (r: Self)
        ensures
            r.buf == buf,
    {
        Adviser { buf, item_type: PhantomData }
    }

    /// The hint given on the guard's range when its scope ends.
    pub fn reset_hint() -> (r: Advise)
        ensures
            r == Advise::DontNeed,
    {
        Advise::DontNeed
    }
}

/// The access patterns that can be announced for a range.
#[derive(Debug, Clone, Copy, PartialEq, Eq, Structural)]
pub enum Advise {
    /// The range will be read soon.
    WillNeed,
    /// The range will not be needed soon.
    DontNeed,
}

/// The value of `posix_madvise`'s advice argument for a hint.
pub open spec fn advise_code(a: Advise) -> i32 {
    match a {
        Advise::WillNeed => 3,
        Advise::DontNeed => 4,
    }
}

impl Advise {
    /// The value handed to `posix_madvise` for this hint.
    pub fn code(&self) -> (r: i32)
        ensures
            r == advise_code(*self),
    {
        match self {
            Advise::WillNeed => 3,
            Advise::DontNeed => 4,
        }
    }
}

/// The kinds of failure reported by `posix_madvise`.
#[derive(Debug, Clone, Copy, PartialEq, Eq, Structural)]
pub enum AdviseError {
    EFAULT,
    EINVAL,
    ENOMEM,
    ENOSYS,
    /// A code outside the known set, kept as it came.
    EUNIM(i32),
}

/// The kind that a raw `posix_madvise` error code stands for.
pub open spec fn advise_error_of(code: i32) -> AdviseError {
    if code == 12 {
        AdviseError::ENOMEM
    } else if code == 14 {
        AdviseError::EFAULT
    } else if code == 22 {
        AdviseError::EINVAL
    } else if code == 38 {
        AdviseError::ENOSYS
    } else {
        AdviseError::EUNIM(code)
    }
}

/// What a `posix_madvise` call means for the caller, given the code it
/// returned: zero is success, anything else is the matching error kind.
pub open spec fn advise_result_of(code: i32) -> Result<(), AdviseError> {
    if code == 0 {
        Ok(())
    } else {
        Err(advise_error_of(code))
    }
}

impl From<i32> for AdviseError {
    fn from(err: i32) -> (r: AdviseError)
        ensures
            r == advise_error_of(err),
    {
        match err {
            12 => AdviseError::ENOMEM,
            14 => AdviseError::EFAULT,
            22 => AdviseError::EINVAL,
            38 => AdviseError::ENOSYS,
            _ => AdviseError::EUNIM(err),
        }
    }
}

impl vstd::std_specs::convert::FromSpecImpl<i32> for AdviseError {
    open spec fn obeys_from_spec() -> bool {
        true
    }

    open spec fn from_spec(v: i32) -> AdviseError {
        advise_error_of(v)
    }
}

/// Turns the code returned by `posix_madvise` into a result.
pub fn advise_result(code: i32) -> (r: Result<(), AdviseError>)
    ensures
        r == advise_result_of(code),
{
    if code == 0 {
        Ok(())
    } else {
        Err(AdviseError::from(code))
    }
}

} // verus!
