use memguar::advisor::{advise_result, AdviseError};
use memguar::locker::{lock_result, LockError};
use memguar::mapper::{MapError, MapFault};

#[test]
fn out_of_memory_code_in_every_taxonomy() {
    assert_eq!(LockError::from(12), LockError::ENOMEM);
    assert_eq!(AdviseError::from(12), AdviseError::ENOMEM);
    assert_eq!(MapFault::from(12), MapFault::ENOMEM);
}

#[test]
fn unknown_code_is_kept() {
    assert_eq!(LockError::from(999), LockError::EUNIM(999));
    assert_eq!(AdviseError::from(999), AdviseError::EUNIM(999));
    assert_eq!(MapFault::from(999), MapFault::EUNIM(999));
    assert_eq!(LockError::from(0), LockError::EUNIM(0));
    assert_eq!(LockError::from(-1), LockError::EUNIM(-1));
}

#[test]
fn lock_codes() {
    assert_eq!(LockError::from(1), LockError::EPERM);
    assert_eq!(LockError::from(4), LockError::EINTR);
    assert_eq!(LockError::from(5), LockError::EIO);
    assert_eq!(LockError::from(11), LockError::EAGAIN);
    assert_eq!(LockError::from(14), LockError::EFAULT);
    assert_eq!(LockError::from(16), LockError::EBUSY);
    assert_eq!(LockError::from(22), LockError::EINVAL);
    assert_eq!(LockError::from(38), LockError::ENOSYS);
}

#[test]
fn advise_codes() {
    assert_eq!(AdviseError::from(14), AdviseError::EFAULT);
    assert_eq!(AdviseError::from(22), AdviseError::EINVAL);
    assert_eq!(AdviseError::from(38), AdviseError::ENOSYS);
    assert_eq!(AdviseError::from(1), AdviseError::EUNIM(1));
}

#[test]
fn map_codes() {
    assert_eq!(MapFault::from(1), MapFault::EPERM);
    assert_eq!(MapFault::from(9), MapFault::EBADF);
    assert_eq!(MapFault::from(11), MapFault::EAGAIN);
    assert_eq!(MapFault::from(13), MapFault::EACCES);
    assert_eq!(MapFault::from(19), MapFault::ENODEV);
    assert_eq!(MapFault::from(22), MapFault::EINVAL);
    assert_eq!(MapFault::from(23), MapFault::ENFILE);
    assert_eq!(MapFault::from(75), MapFault::EOVERFLOW);
    assert_eq!(MapError::Mapping(MapFault::from(12)), MapError::Mapping(MapFault::ENOMEM));
}

#[test]
fn call_results() {
    assert_eq!(lock_result(0, 0), Ok(()));
    assert_eq!(lock_result(0, 12), Ok(()));
    assert_eq!(lock_result(-1, 12), Err(LockError::ENOMEM));
    assert_eq!(lock_result(-1, 999), Err(LockError::EUNIM(999)));
    assert_eq!(lock_result(-1, 1), Err(LockError::EPERM));
    assert_eq!(advise_result(0), Ok(()));
    assert_eq!(advise_result(22), Err(AdviseError::EINVAL));
    assert_eq!(advise_result(999), Err(AdviseError::EUNIM(999)));
}
