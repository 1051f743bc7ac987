use udev::error;
use udev::util;
use udev::ErrorKind;

#[test]
fn from_errno_maps_no_mem() {
    let e = error::from_errno(-12);
    assert_eq!(e.kind(), ErrorKind::NoMem);
}

#[test]
fn from_errno_maps_invalid_input() {
    let e = error::from_errno(-22);
    assert_eq!(e.kind(), ErrorKind::InvalidInput);
}

#[test]
fn from_errno_carries_other_codes() {
    let e = error::from_errno(-5);
    assert_eq!(e.kind(), ErrorKind::Io(5));
    let e = error::from_errno(-13);
    assert_eq!(e.kind(), ErrorKind::Io(13));
}

#[test]
fn new_keeps_the_kind() {
    let e = error::new(ErrorKind::NoMem);
    assert_eq!(e.kind(), ErrorKind::NoMem);
    let e = error::new(ErrorKind::Io(7));
    assert_eq!(e.kind(), ErrorKind::Io(7));
}

#[test]
fn descriptions_name_the_kind() {
    assert_eq!(error::new(ErrorKind::NoMem).description(), "out of memory");
    assert_eq!(error::new(ErrorKind::InvalidInput).description(), "invalid input");
    assert_eq!(error::new(ErrorKind::Io(13)).description(), "native call failed");
}

#[test]
fn errno_to_result_splits_on_sign() {
    assert!(util::errno_to_result(0).is_ok());
    assert!(util::errno_to_result(3).is_ok());
    let e = util::errno_to_result(-22).unwrap_err();
    assert_eq!(e.kind(), ErrorKind::InvalidInput);
    let e = util::errno_to_result(-1).unwrap_err();
    assert_eq!(e.kind(), ErrorKind::Io(1));
}
