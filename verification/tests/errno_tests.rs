use pros_simulator::errno::{AsErrno, Errno};
use pros_simulator::BoolExt;

#[test]
fn errno_codes() {
    assert_eq!(Errno::Success.code(), 0);
    assert_eq!(Errno::ENXIO.code(), 6);
    assert_eq!(Errno::EINVAL.code(), 23);
}

#[test]
fn errno_success_and_error() {
    assert!(Errno::Success.is_success());
    assert!(!Errno::Success.is_error());
    assert!(!Errno::ENXIO.is_success());
    assert!(Errno::ENXIO.is_error());
    assert!(Errno::EINVAL.is_error());
}

#[test]
fn result_as_errno() {
    let ok: Result<u32, Errno> = Ok(7);
    assert_eq!(ok.as_errno(), Errno::Success);
    assert_eq!(ok.as_errno_u8(), 0);
    assert_eq!(ok.as_errno_i32(), 0);

    let err: Result<u32, Errno> = Err(Errno::EINVAL);
    assert_eq!(err.as_errno(), Errno::EINVAL);
    assert_eq!(err.as_errno_u8(), 23);
    assert_eq!(err.as_errno_i32(), 23);

    assert_eq!(Errno::ENXIO.as_errno(), Errno::ENXIO);
    assert_eq!(Errno::ENXIO.as_errno_i32(), 6);
}

#[test]
fn bool_as_i32() {
    assert_eq!(true.as_i32(), 1);
    assert_eq!(false.as_i32(), 0);
}
