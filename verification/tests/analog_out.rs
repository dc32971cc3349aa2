use dwf::analog_out::{setter_plan, AnalogOutFunction, AnalogOutIdleMode, TriggerSource};
use dwf::driver::{Call, Driver, NodeSetter};
use dwf::enumeration::DeviceConfigInfo;
use dwf::errors::ErrorKind;
use dwf::native::{
    ERC_INVALID_PARAMETER_1, FUNC_DC, FUNC_RAMP_DOWN, FUNC_RAMP_UP, FUNC_SINE, FUNC_SQUARE,
    FUNC_TRIANGLE, IDLE_INITIAL, IDLE_OFFSET, TRIGSRC_EXTERNAL_1, TRIGSRC_PC,
};

fn open_device(drv: &mut Driver) -> dwf::device::Device {
    DeviceConfigInfo {
        device_ix: 0,
        config_ix: 0,
        analog_inputs: 2,
        analog_outputs: 2,
        analog_ios: 1,
        digital_inputs: 16,
        digital_outputs: 16,
        digital_ios: 16,
        analog_in_buf_size: 8192,
        analog_out_buf_size: 4096,
        digital_in_buf_size: 4096,
        digital_out_buf_size: 1024,
    }
    .open(drv)
    .unwrap()
}

#[test]
fn constant_function_issues_exactly_two_calls() {
    let mut drv = Driver::new();
    let dev = open_device(&mut drv);
    let out = dev.analog_out(0);
    let node = out.node(0);
    let before = drv.log.len();

    let offset = 1.25f64.to_bits();
    node.set_function(&mut drv, AnalogOutFunction::Const { offset }).unwrap();

    assert_eq!(drv.log.len() - before, 2);
    assert_eq!(
        &drv.log[before..],
        &[
            Call::AnalogOutNodeSet(dev.handle, 0, 0, NodeSetter::Shape(FUNC_DC)),
            Call::AnalogOutNodeSet(dev.handle, 0, 0, NodeSetter::Offset(offset)),
        ]
    );
}

#[test]
fn waveform_function_issues_exactly_six_calls_in_order() {
    let mut drv = Driver::new();
    let dev = open_device(&mut drv);
    let out = dev.analog_out(1);
    let node = out.node(0);
    let before = drv.log.len();

    let frequency = 1000.0f64.to_bits();
    let amplitude = 2.0f64.to_bits();
    let offset = 0.5f64.to_bits();
    let symmetry = 50.0f64.to_bits();
    let phase_deg = 90.0f64.to_bits();
    node.set_function(
        &mut drv,
        AnalogOutFunction::Sine { frequency, amplitude, offset, symmetry, phase_deg },
    )
    .unwrap();

    assert_eq!(drv.log.len() - before, 6);
    assert_eq!(
        &drv.log[before..],
        &[
            Call::AnalogOutNodeSet(dev.handle, 1, 0, NodeSetter::Shape(FUNC_SINE)),
            Call::AnalogOutNodeSet(dev.handle, 1, 0, NodeSetter::Frequency(frequency)),
            Call::AnalogOutNodeSet(dev.handle, 1, 0, NodeSetter::Amplitude(amplitude)),
            Call::AnalogOutNodeSet(dev.handle, 1, 0, NodeSetter::Offset(offset)),
            Call::AnalogOutNodeSet(dev.handle, 1, 0, NodeSetter::Symmetry(symmetry)),
            Call::AnalogOutNodeSet(dev.handle, 1, 0, NodeSetter::Phase(phase_deg)),
        ]
    );
}

#[test]
fn set_function_aborts_at_the_first_failing_call() {
    let mut drv = Driver::new();
    let dev = open_device(&mut drv);
    let out = dev.analog_out(0);
    let node = out.node(0);
    let before = drv.log.len();

    // The very first setter call fails: nothing after it is issued.
    drv.fail_at = Some(before);
    drv.fail_code = ERC_INVALID_PARAMETER_1;
    drv.fail_message = "bad node".to_string();

    let err = node
        .set_function(
            &mut drv,
            AnalogOutFunction::Triangle {
                frequency: 1.0f64.to_bits(),
                amplitude: 1.0f64.to_bits(),
                offset: 0.0f64.to_bits(),
                symmetry: 50.0f64.to_bits(),
                phase_deg: 0.0f64.to_bits(),
            },
        )
        .unwrap_err();

    assert_eq!(err.kind(), ErrorKind::InvalidParameter1);
    assert_eq!(drv.log.len() - before, 1);
    assert_eq!(
        drv.log[before],
        Call::AnalogOutNodeSet(dev.handle, 0, 0, NodeSetter::Shape(FUNC_TRIANGLE))
    );
}

#[test]
fn set_function_stops_midway_when_a_later_call_fails() {
    let mut drv = Driver::new();
    let dev = open_device(&mut drv);
    let out = dev.analog_out(0);
    let node = out.node(1);
    let before = drv.log.len();

    // The third setter call (amplitude) fails.
    drv.fail_at = Some(before + 2);
    drv.fail_code = ERC_INVALID_PARAMETER_1;

    let err = node
        .set_function(
            &mut drv,
            AnalogOutFunction::Square {
                frequency: 10.0f64.to_bits(),
                amplitude: 5.0f64.to_bits(),
                offset: 0.0f64.to_bits(),
                symmetry: 50.0f64.to_bits(),
                phase_deg: 0.0f64.to_bits(),
            },
        )
        .unwrap_err();

    assert_eq!(err.kind(), ErrorKind::InvalidParameter1);
    assert_eq!(drv.log.len() - before, 3);
    assert_eq!(
        drv.log[before + 2],
        Call::AnalogOutNodeSet(dev.handle, 0, 1, NodeSetter::Amplitude(5.0f64.to_bits()))
    );
}

#[test]
fn setter_plan_shapes_match_their_variants() {
    let p = |f: &AnalogOutFunction| setter_plan(f);
    let z = 0u64;
    assert_eq!(p(&AnalogOutFunction::Const { offset: z })[0], NodeSetter::Shape(FUNC_DC));
    assert_eq!(
        p(&AnalogOutFunction::RampUp {
            frequency: z,
            amplitude: z,
            offset: z,
            symmetry: z,
            phase_deg: z
        })[0],
        NodeSetter::Shape(FUNC_RAMP_UP)
    );
    assert_eq!(
        p(&AnalogOutFunction::RampDown {
            frequency: z,
            amplitude: z,
            offset: z,
            symmetry: z,
            phase_deg: z
        })[0],
        NodeSetter::Shape(FUNC_RAMP_DOWN)
    );
    assert_eq!(
        p(&AnalogOutFunction::Sine {
            frequency: z,
            amplitude: z,
            offset: z,
            symmetry: z,
            phase_deg: z
        })[0],
        NodeSetter::Shape(FUNC_SINE)
    );
    assert_eq!(
        p(&AnalogOutFunction::Square {
            frequency: z,
            amplitude: z,
            offset: z,
            symmetry: z,
            phase_deg: z
        })[0],
        NodeSetter::Shape(FUNC_SQUARE)
    );
    assert_eq!(
        p(&AnalogOutFunction::Triangle {
            frequency: z,
            amplitude: z,
            offset: z,
            symmetry: z,
            phase_deg: z
        })[0],
        NodeSetter::Shape(FUNC_TRIANGLE)
    );
}

#[test]
fn node_enable_and_channel_controls_log_their_calls() {
    let mut drv = Driver::new();
    let dev = open_device(&mut drv);
    let out = dev.analog_out(0);
    let node = out.node(0);
    let before = drv.log.len();

    node.set_enabled(&mut drv, true).unwrap();
    out.set_repeat_count(&mut drv, 3).unwrap();
    out.set_trigger_source(&mut drv, TriggerSource::PC).unwrap();
    out.set_idle_mode(&mut drv, AnalogOutIdleMode::Offset).unwrap();
    out.start(&mut drv).unwrap();
    out.stop(&mut drv).unwrap();

    let h = dev.handle;
    assert_eq!(
        &drv.log[before..],
        &[
            Call::AnalogOutNodeEnableSet(h, 0, 0, true),
            Call::AnalogOutRepeatSet(h, 0, 3),
            Call::AnalogOutTriggerSourceSet(h, 0, TRIGSRC_PC),
            Call::AnalogOutIdleSet(h, 0, IDLE_OFFSET),
            Call::AnalogOutConfigure(h, 0, true),
            Call::AnalogOutConfigure(h, 0, false),
        ]
    );
}

#[test]
fn set_duration_logs_the_whole_nanoseconds() {
    let mut drv = Driver::new();
    let dev = open_device(&mut drv);
    let out = dev.analog_out(0);
    let before = drv.log.len();

    out.set_duration(&mut drv, time::Duration::new(2, 500_000_000)).unwrap();

    assert_eq!(drv.log.len() - before, 1);
    assert_eq!(drv.log[before], Call::AnalogOutRunSet(dev.handle, 0, 2_500_000_000i128));
}

#[test]
fn set_duration_ns_logs_the_given_nanoseconds() {
    let mut drv = Driver::new();
    let dev = open_device(&mut drv);
    let out = dev.analog_out(0);
    let before = drv.log.len();

    out.set_duration_ns(&mut drv, 750i128).unwrap();
    assert_eq!(drv.log[before], Call::AnalogOutRunSet(dev.handle, 0, 750i128));
}

#[test]
fn trigger_sources_round_trip_through_their_codes() {
    let sources = vec![
        TriggerSource::NoTrigger,
        TriggerSource::PC,
        TriggerSource::DetectorAnalogIn,
        TriggerSource::DetectorDigitalIn,
        TriggerSource::AnalogIn,
        TriggerSource::DigitalIn,
        TriggerSource::DigitalOut,
        TriggerSource::AnalogOut1,
        TriggerSource::AnalogOut2,
        TriggerSource::AnalogOut3,
        TriggerSource::AnalogOut4,
        TriggerSource::External1,
        TriggerSource::External2,
        TriggerSource::External3,
        TriggerSource::External4,
        TriggerSource::High,
        TriggerSource::Low,
    ];
    for s in sources {
        assert_eq!(TriggerSource::from_code(s.code()), Some(s));
    }
    assert_eq!(TriggerSource::External1.code(), TRIGSRC_EXTERNAL_1);
    assert_eq!(TriggerSource::from_code(99), None);
}

#[test]
fn idle_modes_round_trip_through_their_codes() {
    let modes =
        vec![AnalogOutIdleMode::Disable, AnalogOutIdleMode::Offset, AnalogOutIdleMode::Initial];
    for m in modes {
        assert_eq!(AnalogOutIdleMode::from_code(m.code()), Some(m));
    }
    assert_eq!(AnalogOutIdleMode::Initial.code(), IDLE_INITIAL);
    assert_eq!(AnalogOutIdleMode::from_code(7), None);
}

#[test]
fn set_duration_of_a_negative_duration_logs_its_nanoseconds() {
    let mut drv = Driver::new();
    let dev = open_device(&mut drv);
    let out = dev.analog_out(0);
    let before = drv.log.len();

    out.set_duration(&mut drv, time::Duration::new(-1, -250_000_000)).unwrap();
    assert_eq!(drv.log[before], Call::AnalogOutRunSet(dev.handle, 0, -1_250_000_000i128));
}
