//! A guard that pins a buffer's pages into physical memory.
use vstd::prelude::*;
use core::marker::PhantomData;

verus! {

/// Pins the pages behind `buf` so that they are not swapped out.
///
/// The guard holds the buffer (owned or borrowed) whose range is locked; the
/// lock itself is an attribute that the OS keeps on those pages.
pub struct Locker<C, T> {
    pub buf: C,
    pub item_type: PhantomData<T>,
}

impl<C: AsMut<[T]>, T> Locker<C, T> {
    /// A guard over `buf`; nothing is locked yet.
    pub fn new(buf: C) -> (r: Self)
        ensures
            r.buf == buf,
    {
        Locker { buf, item_type: PhantomData }
    }
}

/// The kinds of failure reported by `mlock` and `munlock`.
#[derive(Debug, Clone, Copy, PartialEq, Eq, Structural)]
pub enum LockError {
    EPERM,
    EINTR,
    EIO,
    EAGAIN,
    ENOMEM,
    EFAULT,
    EBUSY,
    EINVAL,
    ENOSYS,
    /// A code outside the known set, kept as it came.
    EUNIM(i32),
}

/// The kind that a raw `mlock` / `munlock` error code stands for.
pub open spec fn lock_error_of(code: i32) -> LockError {
    if code == 1 {
        LockError::EPERM
    } else if code == 4 {
        LockError::EINTR
    } else if code == 5 {
        LockError::EIO
    } else if code == 11 {
        LockError::EAGAIN
    } else if code == 12 {
        LockError::ENOMEM
    } else if code == 14 {
        LockError::EFAULT
    } else if code == 16 {
        LockError::EBUSY
    } else if code == 22 {
        LockError::EINVAL
    } else if code == 38 {
        LockError::ENOSYS
    } else {
        LockError::EUNIM(code)
    }
}

/// What a lock or unlock call means for the caller, given the value it
/// returned and the `errno` left after it: zero is success, anything else
/// fails with the kind that `errno` stands for.
pub open spec fn lock_result_of(ret: i32, errno: i32) -> Result<(), LockError> {
    if ret == 0 {
        Ok(())
    } else {
        Err(lock_error_of(errno))
    }
}

impl From<i32> for LockError {
    fn from(err: i32) -> (r: LockError)
        ensures
            r == lock_error_of(err),
    {
        match err {
            1 => LockError::EPERM,
            4 => LockError::EINTR,
            5 => LockError::EIO,
            11 => LockError::EAGAIN,
            12 => LockError::ENOMEM,
            14 => LockError::EFAULT,
            16 => LockError::EBUSY,
            22 => LockError::EINVAL,
            38 => LockError::ENOSYS,
            _ => LockError::EUNIM(err),
        }
    }
}

impl vstd::std_specs::convert::FromSpecImpl<i32> for LockError {
    open spec fn obeys_from_spec() -> bool {
        true
    }

    open spec fn from_spec(v: i32) -> LockError {
        lock_error_of(v)
    }
}

/// Turns the value returned by `mlock` or `munlock`, and the `errno` read
/// right after the call, into a result.
pub fn lock_result(ret: i32, errno: i32) -> (r: Result<(), LockError>)
    ensures
        r == lock_result_of(ret, errno),
{
    if ret == 0 {
        Ok(())
    } else {
        Err(LockError::from(errno))
    }
}

} // verus!
