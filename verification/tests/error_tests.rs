use rust_uart::error::{einval, enodev, enomem, from_result, to_result, Error, EINVAL, ENODEV, ENOMEM};

#[test]
fn to_result_accepts_non_negative_statuses() {
    assert_eq!(to_result(0), Ok(()));
    assert_eq!(to_result(7), Ok(()));
}

#[test]
fn to_result_keeps_valid_errnos() {
    assert_eq!(to_result(-19).unwrap_err().to_errno(), -19);
    assert_eq!(to_result(-4095).unwrap_err().to_errno(), -4095);
    assert_eq!(to_result(-1).unwrap_err().to_errno(), -1);
}

#[test]
fn to_result_turns_out_of_range_errnos_into_einval() {
    assert_eq!(to_result(-4096).unwrap_err().to_errno(), EINVAL);
    assert_eq!(to_result(i32::MIN).unwrap_err().to_errno(), EINVAL);
}

#[test]
fn from_errno_range() {
    assert_eq!(Error::from_errno(-12).to_errno(), -12);
    assert_eq!(Error::from_errno(0).to_errno(), EINVAL);
    assert_eq!(Error::from_errno(5).to_errno(), EINVAL);
}

#[test]
fn named_errors() {
    assert_eq!(einval().to_errno(), -22);
    assert_eq!(enodev().to_errno(), ENODEV);
    assert_eq!(enodev().to_errno(), -19);
    assert_eq!(enomem().to_errno(), ENOMEM);
    assert_eq!(enomem().to_errno(), -12);
}

#[test]
fn from_result_gives_value_or_errno() {
    assert_eq!(from_result(Ok(42)), 42);
    assert_eq!(from_result(Err(enodev())), -19);
}

#[test]
fn status_round_trip() {
    for ret in [-4095, -100, -19, -1, 0] {
        let code = from_result(to_result(ret).map(|_| 0));
        assert_eq!(code, ret);
    }
}

#[test]
fn from_result_errors_fit_i16() {
    let code = from_result(Err(Error::from_errno(-4095)));
    assert_eq!(code, -4095);
    assert!(code >= i16::MIN as i32 && code < 0);
}
