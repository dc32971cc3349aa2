use dwf::driver::Driver;
use dwf::enumeration::DeviceConfigInfo;
use dwf::errors::ErrorKind;
use dwf::native::{
    to_c_bool, ERC_ALREADY_OPENED, ERC_API_LOCK_TIMEOUT, ERC_INVALID_PARAMETER_0,
    ERC_INVALID_PARAMETER_1, ERC_INVALID_PARAMETER_2, ERC_INVALID_PARAMETER_3,
    ERC_INVALID_PARAMETER_4, ERC_NOT_SUPPORTED, ERC_NO_ERROR, ERC_UNKNOWN,
};

fn blank_config() -> DeviceConfigInfo {
    DeviceConfigInfo {
        device_ix: 0,
        config_ix: 0,
        analog_inputs: 0,
        analog_outputs: 0,
        analog_ios: 0,
        digital_inputs: 0,
        digital_outputs: 0,
        digital_ios: 0,
        analog_in_buf_size: 0,
        analog_out_buf_size: 0,
        digital_in_buf_size: 0,
        digital_out_buf_size: 0,
    }
}

#[test]
fn classifies_every_documented_code() {
    assert_eq!(ErrorKind::from_code(ERC_NO_ERROR), ErrorKind::NoError);
    assert_eq!(ErrorKind::from_code(ERC_UNKNOWN), ErrorKind::Unknown);
    assert_eq!(ErrorKind::from_code(ERC_API_LOCK_TIMEOUT), ErrorKind::ApiLockTimeout);
    assert_eq!(ErrorKind::from_code(ERC_ALREADY_OPENED), ErrorKind::AlreadyOpened);
    assert_eq!(ErrorKind::from_code(ERC_NOT_SUPPORTED), ErrorKind::NotSupported);
    assert_eq!(ErrorKind::from_code(ERC_INVALID_PARAMETER_0), ErrorKind::InvalidParameter0);
    assert_eq!(ErrorKind::from_code(ERC_INVALID_PARAMETER_1), ErrorKind::InvalidParameter1);
    assert_eq!(ErrorKind::from_code(ERC_INVALID_PARAMETER_2), ErrorKind::InvalidParameter2);
    assert_eq!(ErrorKind::from_code(ERC_INVALID_PARAMETER_3), ErrorKind::InvalidParameter3);
    assert_eq!(ErrorKind::from_code(ERC_INVALID_PARAMETER_4), ErrorKind::InvalidParameter4);
}

#[test]
fn unrecognized_codes_classify_as_unknown() {
    assert_eq!(ErrorKind::from_code(5), ErrorKind::Unknown);
    assert_eq!(ErrorKind::from_code(42), ErrorKind::Unknown);
    assert_eq!(ErrorKind::from_code(-1), ErrorKind::Unknown);
}

#[test]
fn every_kind_round_trips_through_its_code() {
    let kinds = vec![
        ErrorKind::NoError,
        ErrorKind::Unknown,
        ErrorKind::ApiLockTimeout,
        ErrorKind::AlreadyOpened,
        ErrorKind::NotSupported,
        ErrorKind::InvalidParameter0,
        ErrorKind::InvalidParameter1,
        ErrorKind::InvalidParameter2,
        ErrorKind::InvalidParameter3,
        ErrorKind::InvalidParameter4,
    ];
    for k in kinds {
        assert_eq!(ErrorKind::from_code(k.code()), k);
    }
}

#[test]
fn kind_descriptions_are_the_documented_texts() {
    assert_eq!(ErrorKind::NoError.describe(), "No error");
    assert_eq!(ErrorKind::Unknown.describe(), "Unknown error");
    assert_eq!(ErrorKind::ApiLockTimeout.describe(), "API lock timeout");
    assert_eq!(ErrorKind::AlreadyOpened.describe(), "Device is already in use");
    assert_eq!(ErrorKind::NotSupported.describe(), "Operation is not supported");
    assert_eq!(ErrorKind::InvalidParameter0.describe(), "Parameter #0 is invalid");
    assert_eq!(ErrorKind::InvalidParameter1.describe(), "Parameter #1 is invalid");
    assert_eq!(ErrorKind::InvalidParameter2.describe(), "Parameter #2 is invalid");
    assert_eq!(ErrorKind::InvalidParameter3.describe(), "Parameter #3 is invalid");
    assert_eq!(ErrorKind::InvalidParameter4.describe(), "Parameter #4 is invalid");
}

#[test]
fn error_message_round_trip() {
    // The driver reports InvalidParameter2 with "bad channel" on the next
    // call; the failing operation surfaces exactly that error.
    let mut drv = Driver::new();
    drv.fail_at = Some(0);
    drv.fail_code = ERC_INVALID_PARAMETER_2;
    drv.fail_message = "bad channel".to_string();

    let err = blank_config().open(&mut drv).unwrap_err();
    assert_eq!(err.kind(), ErrorKind::InvalidParameter2);
    assert_eq!(err.message(), "bad channel");
    assert_eq!(err.describe(), "Parameter #2 is invalid: bad channel");
}

#[test]
fn error_display_without_message_is_the_description_alone() {
    let mut drv = Driver::new();
    drv.fail_at = Some(0);
    drv.fail_code = ERC_API_LOCK_TIMEOUT;

    let err = blank_config().open(&mut drv).unwrap_err();
    assert_eq!(err.kind(), ErrorKind::ApiLockTimeout);
    assert_eq!(err.message(), "");
    assert_eq!(err.describe(), "API lock timeout");
}

#[test]
fn error_variants_come_from_their_codes() {
    let cases = vec![
        (ERC_UNKNOWN, ErrorKind::Unknown),
        (ERC_API_LOCK_TIMEOUT, ErrorKind::ApiLockTimeout),
        (ERC_ALREADY_OPENED, ErrorKind::AlreadyOpened),
        (ERC_NOT_SUPPORTED, ErrorKind::NotSupported),
        (ERC_INVALID_PARAMETER_0, ErrorKind::InvalidParameter0),
        (ERC_INVALID_PARAMETER_1, ErrorKind::InvalidParameter1),
        (ERC_INVALID_PARAMETER_2, ErrorKind::InvalidParameter2),
        (ERC_INVALID_PARAMETER_3, ErrorKind::InvalidParameter3),
        (ERC_INVALID_PARAMETER_4, ErrorKind::InvalidParameter4),
    ];
    for (code, kind) in cases {
        let mut drv = Driver::new();
        drv.fail_at = Some(0);
        drv.fail_code = code;
        let err = blank_config().open(&mut drv).unwrap_err();
        assert_eq!(err.kind(), kind);
    }
}

#[test]
fn native_bool_encoding() {
    assert_eq!(to_c_bool(true), 1);
    assert_eq!(to_c_bool(false), 0);
}
