use dwf::driver::{Call, Driver};
use dwf::enumeration::DeviceConfigInfo;
use dwf::errors::ErrorKind;
use dwf::native::ERC_NOT_SUPPORTED;

fn open_device(drv: &mut Driver) -> dwf::device::Device {
    DeviceConfigInfo {
        device_ix: 0,
        config_ix: 0,
        analog_inputs: 2,
        analog_outputs: 2,
        analog_ios: 1,
        digital_inputs: 16,
        digital_outputs: 16,
        digital_ios: 16,
        analog_in_buf_size: 8192,
        analog_out_buf_size: 4096,
        digital_in_buf_size: 4096,
        digital_out_buf_size: 1024,
    }
    .open(drv)
    .unwrap()
}

#[test]
fn io_enable_and_node_value_log_their_calls() {
    let mut drv = Driver::new();
    let dev = open_device(&mut drv);
    let io = dev.analog_io();
    let chan = io.channel(2);
    let node = chan.node(1);
    let before = drv.log.len();

    io.set_enabled(&mut drv, true).unwrap();
    let value = 3.3f64.to_bits();
    node.set_value(&mut drv, value).unwrap();

    assert_eq!(
        &drv.log[before..],
        &[
            Call::AnalogIoEnableSet(dev.handle, true),
            Call::AnalogIoChannelNodeSet(dev.handle, 2, 1, value),
        ]
    );
}

#[test]
fn failing_node_value_surfaces_the_classified_error() {
    let mut drv = Driver::new();
    let dev = open_device(&mut drv);
    let io = dev.analog_io();
    let chan = io.channel(0);
    let node = chan.node(0);
    drv.fail_at = Some(drv.log.len());
    drv.fail_code = ERC_NOT_SUPPORTED;
    drv.fail_message = "no analog io".to_string();

    let err = node.set_value(&mut drv, 0).unwrap_err();
    assert_eq!(err.kind(), ErrorKind::NotSupported);
    assert_eq!(err.describe(), "Operation is not supported: no analog io");
}
