use dwf::driver::{Call, Driver, SimConfig, SimDevice};
use dwf::enumeration::devices;
use dwf::errors::ErrorKind;
use dwf::native::{
    DECI_ANALOG_IN_BUFFER_SIZE, DECI_ANALOG_IN_CHANNEL_COUNT, DECI_ANALOG_IO_CHANNEL_COUNT,
    DECI_ANALOG_OUT_BUFFER_SIZE, DECI_ANALOG_OUT_CHANNEL_COUNT, DECI_DIGITAL_IN_BUFFER_SIZE,
    DECI_DIGITAL_IN_CHANNEL_COUNT, DECI_DIGITAL_IO_CHANNEL_COUNT, DECI_DIGITAL_OUT_BUFFER_SIZE,
    DECI_DIGITAL_OUT_CHANNEL_COUNT, ENUMFILTER_ALL, ERC_NOT_SUPPORTED,
};

fn config(a: i32, b: i32) -> SimConfig {
    SimConfig {
        analog_inputs: a,
        analog_outputs: a + 1,
        analog_ios: a + 2,
        digital_inputs: a + 3,
        digital_outputs: a + 4,
        digital_ios: a + 5,
        analog_in_buf_size: b,
        analog_out_buf_size: b + 1,
        digital_in_buf_size: b + 2,
        digital_out_buf_size: b + 3,
    }
}

fn two_device_driver() -> Driver {
    let mut drv = Driver::new();
    drv.devices.push(SimDevice {
        id: 7,
        revision: 2,
        user_name: "bench".to_string(),
        name: "Analog Discovery 2".to_string(),
        serial: "SN:210321".to_string(),
        in_use: false,
        configs: vec![config(4, 8192), config(2, 16384)],
    });
    drv.devices.push(SimDevice {
        id: 9,
        revision: 1,
        user_name: "spare".to_string(),
        name: "Digital Discovery".to_string(),
        serial: "SN:210411".to_string(),
        in_use: true,
        configs: vec![config(0, 2048)],
    });
    drv
}

#[test]
fn empty_enumeration_reports_no_devices() {
    let mut drv = Driver::new();
    let list = devices(&mut drv).unwrap();
    assert_eq!(list.devices.len(), 0);
    assert_eq!(drv.log, vec![Call::EnumDevices(ENUMFILTER_ALL)]);
}

#[test]
fn enumeration_reports_every_device_in_order() {
    let mut drv = two_device_driver();
    let list = devices(&mut drv).unwrap();

    assert_eq!(list.devices.len(), 2);

    let d0 = &list.devices[0];
    assert_eq!(d0.device_ix, 0);
    assert_eq!(d0.id, 7);
    assert_eq!(d0.revision, 2);
    assert_eq!(d0.user_name, "bench");
    assert_eq!(d0.name, "Analog Discovery 2");
    assert_eq!(d0.serial, "SN:210321");
    assert!(!d0.in_use);

    let d1 = &list.devices[1];
    assert_eq!(d1.device_ix, 1);
    assert_eq!(d1.id, 9);
    assert_eq!(d1.revision, 1);
    assert_eq!(d1.user_name, "spare");
    assert_eq!(d1.name, "Digital Discovery");
    assert_eq!(d1.serial, "SN:210411");
    assert!(d1.in_use);
}

#[test]
fn configs_length_equals_queried_count_and_fields_are_nonnegative() {
    let mut drv = two_device_driver();
    let list = devices(&mut drv).unwrap();

    for (ix, dev) in list.devices.iter().enumerate() {
        assert_eq!(dev.configs.len(), drv.devices[ix].configs.len());
        for (jx, cfg) in dev.configs.iter().enumerate() {
            assert_eq!(cfg.device_ix, ix as i32);
            assert_eq!(cfg.config_ix, jx as i32);
            assert!(cfg.analog_inputs >= 0);
            assert!(cfg.analog_outputs >= 0);
            assert!(cfg.analog_ios >= 0);
            assert!(cfg.digital_inputs >= 0);
            assert!(cfg.digital_outputs >= 0);
            assert!(cfg.digital_ios >= 0);
            assert!(cfg.analog_in_buf_size >= 0);
            assert!(cfg.analog_out_buf_size >= 0);
            assert!(cfg.digital_in_buf_size >= 0);
            assert!(cfg.digital_out_buf_size >= 0);
        }
    }
}

#[test]
fn configuration_fields_carry_the_queried_values() {
    let mut drv = two_device_driver();
    let list = devices(&mut drv).unwrap();

    let c = &list.devices[0].configs[1];
    assert_eq!(c.analog_inputs, 2);
    assert_eq!(c.analog_outputs, 3);
    assert_eq!(c.analog_ios, 4);
    assert_eq!(c.digital_inputs, 5);
    assert_eq!(c.digital_outputs, 6);
    assert_eq!(c.digital_ios, 7);
    assert_eq!(c.analog_in_buf_size, 16384);
    assert_eq!(c.analog_out_buf_size, 16385);
    assert_eq!(c.digital_in_buf_size, 16386);
    assert_eq!(c.digital_out_buf_size, 16387);
}

#[test]
fn first_failing_query_aborts_the_whole_enumeration() {
    // Fail the third native call (the in-use query of device 0).
    let mut drv = two_device_driver();
    drv.fail_at = Some(2);
    drv.fail_code = ERC_NOT_SUPPORTED;
    drv.fail_message = "no flag".to_string();

    let err = devices(&mut drv).unwrap_err();
    assert_eq!(err.kind(), ErrorKind::NotSupported);
    assert_eq!(err.message(), "no flag");
    // The enumeration stopped right at the failing call.
    assert_eq!(drv.log.len(), 3);
    assert_eq!(drv.log[2], Call::EnumDeviceIsOpened(0));
}

#[test]
fn enumeration_issues_exactly_the_planned_query_sequence() {
    let mut drv = Driver::new();
    drv.devices.push(SimDevice {
        id: 3,
        revision: 1,
        user_name: "u".to_string(),
        name: "n".to_string(),
        serial: "s".to_string(),
        in_use: false,
        configs: vec![config(1, 256)],
    });

    devices(&mut drv).unwrap();

    assert_eq!(
        drv.log,
        vec![
            Call::EnumDevices(ENUMFILTER_ALL),
            Call::EnumDeviceType(0),
            Call::EnumDeviceIsOpened(0),
            Call::EnumUserName(0),
            Call::EnumDeviceName(0),
            Call::EnumSn(0),
            Call::EnumConfig(0),
            Call::EnumConfigInfo(0, DECI_ANALOG_IN_CHANNEL_COUNT),
            Call::EnumConfigInfo(0, DECI_ANALOG_OUT_CHANNEL_COUNT),
            Call::EnumConfigInfo(0, DECI_ANALOG_IO_CHANNEL_COUNT),
            Call::EnumConfigInfo(0, DECI_DIGITAL_IN_CHANNEL_COUNT),
            Call::EnumConfigInfo(0, DECI_DIGITAL_OUT_CHANNEL_COUNT),
            Call::EnumConfigInfo(0, DECI_DIGITAL_IO_CHANNEL_COUNT),
            Call::EnumConfigInfo(0, DECI_ANALOG_IN_BUFFER_SIZE),
            Call::EnumConfigInfo(0, DECI_ANALOG_OUT_BUFFER_SIZE),
            Call::EnumConfigInfo(0, DECI_DIGITAL_IN_BUFFER_SIZE),
            Call::EnumConfigInfo(0, DECI_DIGITAL_OUT_BUFFER_SIZE),
        ]
    );
}
