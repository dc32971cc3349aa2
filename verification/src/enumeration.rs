//! Enumeration of attached devices and of the hardware configurations each
//! can be opened with. The records carry only scalar and string
//! descriptive data; they own no resource.

use vstd::prelude::*;
use crate::driver::{Driver, Call, SimDevice, SimConfig};
use crate::errors::{Error, get_last_error, reports_script_failure};
use crate::native::{ENUMFILTER_ALL, DECI_ANALOG_IN_CHANNEL_COUNT, DECI_ANALOG_OUT_CHANNEL_COUNT,
    DECI_ANALOG_IO_CHANNEL_COUNT, DECI_DIGITAL_IN_CHANNEL_COUNT, DECI_DIGITAL_OUT_CHANNEL_COUNT,
    DECI_DIGITAL_IO_CHANNEL_COUNT, DECI_ANALOG_IN_BUFFER_SIZE, DECI_ANALOG_OUT_BUFFER_SIZE,
    DECI_DIGITAL_IN_BUFFER_SIZE, DECI_DIGITAL_OUT_BUFFER_SIZE};

verus! {

/// One hardware configuration of an enumerated device: the pair of ordinal
/// indices it is opened by, and its ten capacity/channel counts. A pure
/// value; its only behavior is the attempt to open (see
/// [`crate::device::Device`]).
#[derive(PartialEq, Debug)]
pub struct DeviceConfigInfo {
    pub device_ix: i32,
    pub config_ix: i32,
    pub analog_inputs: i32,
    pub analog_outputs: i32,
    pub analog_ios: i32,
    pub digital_inputs: i32,
    pub digital_outputs: i32,
    pub digital_ios: i32,
    pub analog_in_buf_size: i32,
    pub analog_out_buf_size: i32,
    pub digital_in_buf_size: i32,
    pub digital_out_buf_size: i32,
}

/// The descriptive record of one enumerated device. Immutable after
/// construction; has no ownership relation to any open session.
#[derive(PartialEq, Debug)]
pub struct DeviceInfo {
    pub device_ix: i32,
    pub id: i32,
    pub revision: i32,
    pub user_name: String,
    pub name: String,
    pub serial: String,
    pub in_use: bool,
    pub configs: Vec<DeviceConfigInfo>,
}

/// The devices attached at enumeration time, in native ordinal order.
#[derive(PartialEq, Debug)]
pub struct DeviceInfoList {
    pub devices: Vec<DeviceInfo>,
}

/// `c` reports exactly the capacity record `sc` of configuration `cfg_ix`
/// of device `dev_ix`.
pub open spec fn config_matches(c: DeviceConfigInfo, sc: SimConfig, dev_ix: int, cfg_ix: int) -> bool {
    &&& c.device_ix as int == dev_ix
    &&& c.config_ix as int == cfg_ix
    &&& c.analog_inputs == sc.analog_inputs
    &&& c.analog_outputs == sc.analog_outputs
    &&& c.analog_ios == sc.analog_ios
    &&& c.digital_inputs == sc.digital_inputs
    &&& c.digital_outputs == sc.digital_outputs
    &&& c.digital_ios == sc.digital_ios
    &&& c.analog_in_buf_size == sc.analog_in_buf_size
    &&& c.analog_out_buf_size == sc.analog_out_buf_size
    &&& c.digital_in_buf_size == sc.digital_in_buf_size
    &&& c.digital_out_buf_size == sc.digital_out_buf_size
}

/// `d` reports exactly the device record `s` at ordinal `dev_ix`: all
/// descriptive fields, and one configuration record per configuration of
/// `s`, in ordinal order.
pub open spec fn device_matches(d: DeviceInfo, s: SimDevice, dev_ix: int) -> bool {
    &&& d.device_ix as int == dev_ix
    &&& d.id == s.id
    &&& d.revision == s.revision
    &&& d.user_name@ == s.user_name@
    &&& d.name@ == s.name@
    &&& d.serial@ == s.serial@
    &&& d.in_use == s.in_use
    &&& d.configs@.len() == s.configs@.len()
    &&& forall|j: int|
        0 <= j < s.configs@.len() ==> config_matches(
            #[trigger] d.configs@[j],
            s.configs@[j],
            dev_ix,
            j,
        )
}

/// `list` reports exactly the driver's device table: one record per
/// attached device, in ordinal order.
pub open spec fn list_matches(list: DeviceInfoList, devs: Seq<SimDevice>) -> bool {
    &&& list.devices@.len() == devs.len()
    &&& forall|i: int| 0 <= i < devs.len() ==> device_matches(#[trigger] list.devices@[i], devs[i], i)
}

/// What enumeration reports is consistent and in bounds: each enumerated
/// device carries exactly as many configuration records as the driver
/// reported for it, and every one of the ten capacity values of every
/// configuration is non-negative.
pub proof fn lemma_enumeration_counts_and_bounds(list: DeviceInfoList, d: Driver)
    requires
        d.wf(),
        list_matches(list, d.devices@),
    ensures
        list.devices@.len() == d.devices@.len(),
        forall|i: int|
            0 <= i < list.devices@.len() ==> (#[trigger] list.devices@[i]).configs@.len()
                == d.devices@[i].configs@.len(),
        forall|i: int, j: int|
            0 <= i < list.devices@.len() && 0 <= j < list.devices@[i].configs@.len() ==> {
                let c = #[trigger] list.devices@[i].configs@[j];
                c.analog_inputs >= 0 && c.analog_outputs >= 0 && c.analog_ios >= 0
                    && c.digital_inputs >= 0 && c.digital_outputs >= 0 && c.digital_ios >= 0
                    && c.analog_in_buf_size >= 0 && c.analog_out_buf_size >= 0
                    && c.digital_in_buf_size >= 0 && c.digital_out_buf_size >= 0
            },
{
    assert forall|i: int, j: int|
        0 <= i < list.devices@.len() && 0 <= j < list.devices@[i].configs@.len() implies {
        let c = #[trigger] list.devices@[i].configs@[j];
        c.analog_inputs >= 0 && c.analog_outputs >= 0 && c.analog_ios >= 0 && c.digital_inputs >= 0
            && c.digital_outputs >= 0 && c.digital_ios >= 0 && c.analog_in_buf_size >= 0
            && c.analog_out_buf_size >= 0 && c.digital_in_buf_size >= 0
            && c.digital_out_buf_size >= 0
    } by {
        assert(device_matches(list.devices@[i], d.devices@[i], i));
        assert(d.devices@[i].wf());
        assert(config_matches(list.devices@[i].configs@[j], d.devices@[i].configs@[j], i, j));
        assert(d.devices@[i].configs@[j].wf());
    }
}

/// The ten capacity queries of configuration `config_ix`, in the order
/// enumeration issues them.
pub open spec fn spec_config_queries(config_ix: i32) -> Seq<Call> {
    seq![
        Call::EnumConfigInfo(config_ix, DECI_ANALOG_IN_CHANNEL_COUNT),
        Call::EnumConfigInfo(config_ix, DECI_ANALOG_OUT_CHANNEL_COUNT),
        Call::EnumConfigInfo(config_ix, DECI_ANALOG_IO_CHANNEL_COUNT),
        Call::EnumConfigInfo(config_ix, DECI_DIGITAL_IN_CHANNEL_COUNT),
        Call::EnumConfigInfo(config_ix, DECI_DIGITAL_OUT_CHANNEL_COUNT),
        Call::EnumConfigInfo(config_ix, DECI_DIGITAL_IO_CHANNEL_COUNT),
        Call::EnumConfigInfo(config_ix, DECI_ANALOG_IN_BUFFER_SIZE),
        Call::EnumConfigInfo(config_ix, DECI_ANALOG_OUT_BUFFER_SIZE),
        Call::EnumConfigInfo(config_ix, DECI_DIGITAL_IN_BUFFER_SIZE),
        Call::EnumConfigInfo(config_ix, DECI_DIGITAL_OUT_BUFFER_SIZE),
    ]
}

/// The capacity queries of configurations `0..n`, in ordinal order.
pub open spec fn spec_config_queries_upto(n: int) -> Seq<Call>
    decreases n,
{
    if n <= 0 {
        Seq::empty()
    } else {
        spec_config_queries_upto(n - 1) + spec_config_queries((n - 1) as i32)
    }
}

/// The six descriptive queries of device `device_ix`, in the order
/// enumeration issues them.
pub open spec fn spec_device_header(device_ix: i32) -> Seq<Call> {
    seq![
        Call::EnumDeviceType(device_ix),
        Call::EnumDeviceIsOpened(device_ix),
        Call::EnumUserName(device_ix),
        Call::EnumDeviceName(device_ix),
        Call::EnumSn(device_ix),
        Call::EnumConfig(device_ix),
    ]
}

/// Every query of device `device_ix` with `n_configs` configurations: the
/// six descriptive queries, then the capacity queries of each
/// configuration.
pub open spec fn spec_device_queries(device_ix: i32, n_configs: int) -> Seq<Call> {
    spec_device_header(device_ix) + spec_config_queries_upto(n_configs)
}

/// The queries of an enumeration of `devs`, cut after device `n`: the
/// device-count query, then every query of devices `0..n`.
pub open spec fn spec_enum_queries_upto(devs: Seq<SimDevice>, n: int) -> Seq<Call>
    decreases n,
{
    if n <= 0 {
        seq![Call::EnumDevices(ENUMFILTER_ALL)]
    } else {
        spec_enum_queries_upto(devs, n - 1) + spec_device_queries(
            (n - 1) as i32,
            devs[n - 1].configs@.len() as int,
        )
    }
}

/// The full native call sequence of one enumeration of `devs`.
pub open spec fn spec_enumeration_calls(devs: Seq<SimDevice>) -> Seq<Call> {
    spec_enum_queries_upto(devs, devs.len() as int)
}

proof fn lemma_config_queries_upto_len(n: int)
    requires
        n >= 0,
    ensures
        spec_config_queries_upto(n).len() == 10 * n,
    decreases n,
{
    if n > 0 {
        lemma_config_queries_upto_len(n - 1);
    }
}

/// Taking `10*j + t` of the queries of `m` configurations cuts inside
/// configuration `j`, `t` calls in.
proof fn lemma_config_queries_upto_take(j: int, t: int, m: int)
    requires
        0 <= j < m,
        0 <= t <= 10,
    ensures
        spec_config_queries_upto(m).take(10 * j + t) == spec_config_queries_upto(j)
            + spec_config_queries(j as i32).take(t),
    decreases m,
{
    lemma_config_queries_upto_len(j);
    if m == j + 1 {
        assert(spec_config_queries_upto(m).take(10 * j + t) =~= spec_config_queries_upto(j)
            + spec_config_queries(j as i32).take(t));
    } else {
        lemma_config_queries_upto_take(j, t, m - 1);
        lemma_config_queries_upto_len(m - 1);
        assert(spec_config_queries_upto(m).take(10 * j + t) =~= spec_config_queries_upto(
            m - 1,
        ).take(10 * j + t));
    }
}

proof fn lemma_enum_queries_upto_len_monotone(devs: Seq<SimDevice>, a: int, b: int)
    requires
        0 <= a <= b,
    ensures
        spec_enum_queries_upto(devs, a).len() <= spec_enum_queries_upto(devs, b).len(),
    decreases b,
{
    if b > a {
        lemma_enum_queries_upto_len_monotone(devs, a, b - 1);
    }
}

/// Every cut of the whole enumeration sequence of `b` devices that ends
/// `t` calls into device `i`'s queries is the queries of devices `0..i`
/// plus those `t` calls.
proof fn lemma_enum_queries_upto_take(devs: Seq<SimDevice>, i: int, t: int, b: int)
    requires
        0 <= i < b <= devs.len(),
        0 <= t <= spec_device_queries(i as i32, devs[i].configs@.len() as int).len(),
    ensures
        spec_enum_queries_upto(devs, b).take(spec_enum_queries_upto(devs, i).len() + t)
            == spec_enum_queries_upto(devs, i) + spec_device_queries(
            i as i32,
            devs[i].configs@.len() as int,
        ).take(t),
    decreases b,
{
    if b == i + 1 {
        assert(spec_enum_queries_upto(devs, b).take(spec_enum_queries_upto(devs, i).len() + t)
            =~= spec_enum_queries_upto(devs, i) + spec_device_queries(
            i as i32,
            devs[i].configs@.len() as int,
        ).take(t));
    } else {
        lemma_enum_queries_upto_take(devs, i, t, b - 1);
        lemma_enum_queries_upto_len_monotone(devs, i + 1, b - 1);
        assert(spec_enum_queries_upto(devs, b).take(spec_enum_queries_upto(devs, i).len() + t)
            =~= spec_enum_queries_upto(devs, b - 1).take(
            spec_enum_queries_upto(devs, i).len() + t,
        ));
    }
}

proof fn lemma_enum_queries_upto_first(devs: Seq<SimDevice>, n: int)
    requires
        0 <= n,
    ensures
        spec_enum_queries_upto(devs, n).len() >= 1,
        spec_enum_queries_upto(devs, n).take(1) == seq![Call::EnumDevices(ENUMFILTER_ALL)],
    decreases n,
{
    if n == 0 {
        assert(spec_enum_queries_upto(devs, 0).take(1) =~= seq![
            Call::EnumDevices(ENUMFILTER_ALL),
        ]);
    } else {
        lemma_enum_queries_upto_first(devs, n - 1);
        assert(spec_enum_queries_upto(devs, n).take(1) =~= spec_enum_queries_upto(
            devs,
            n - 1,
        ).take(1));
    }
}

/// Query the ten capacity values of one configuration, one native call
/// each, aborting at the first failing call.
fn query_config(drv: &mut Driver, device_ix: usize, config_ix: usize) -> (r: Result<
    DeviceConfigInfo,
    Error,
>)
    requires
        old(drv).wf(),
        device_ix < old(drv).devices@.len(),
        config_ix < old(drv).devices@[device_ix as int].configs@.len(),
    ensures
        final(drv).wf(),
        old(drv).same_core(*final(drv)),
        ({
            let plan = spec_config_queries(config_ix as i32);
            &&& (r is Ok <==> !old(drv).fails_within(plan.len() as int))
            &&& (r is Ok ==> final(drv).log@ == old(drv).log@ + plan
                && final(drv).last_error_code == old(drv).last_error_code
                && final(drv).last_error_message == old(drv).last_error_message)
            &&& (r matches Ok(c) ==> config_matches(
                c,
                old(drv).devices@[device_ix as int].configs@[config_ix as int],
                device_ix as int,
                config_ix as int,
            ))
            &&& (r matches Err(e) ==> reports_script_failure(e, *old(drv)) && (match old(
                drv,
            ).fail_at {
                Some(f) => old(drv).log@.len() <= f as int && final(drv).log@ == old(drv).log@
                    + plan.take(f as int + 1 - old(drv).log@.len()),
                None => false,
            }))
        }),
{
    proof {
        assert(old(drv).devices@[device_ix as int].wf());
    }
    let cix = config_ix as i32;

    let ok = drv.note(Call::EnumConfigInfo(cix, DECI_ANALOG_IN_CHANNEL_COUNT));
    if !ok {
        proof {
            assert(drv.log@ =~= old(drv).log@ + spec_config_queries(cix).take(1));
        }
        return Err(get_last_error(drv));
    }
    let analog_inputs = drv.devices[device_ix].configs[config_ix].analog_inputs;

    let ok = drv.note(Call::EnumConfigInfo(cix, DECI_ANALOG_OUT_CHANNEL_COUNT));
    if !ok {
        proof {
            assert(drv.log@ =~= old(drv).log@ + spec_config_queries(cix).take(2));
        }
        return Err(get_last_error(drv));
    }
    let analog_outputs = drv.devices[device_ix].configs[config_ix].analog_outputs;

    let ok = drv.note(Call::EnumConfigInfo(cix, DECI_ANALOG_IO_CHANNEL_COUNT));
    if !ok {
        proof {
            assert(drv.log@ =~= old(drv).log@ + spec_config_queries(cix).take(3));
        }
        return Err(get_last_error(drv));
    }
    let analog_ios = drv.devices[device_ix].configs[config_ix].analog_ios;

    let ok = drv.note(Call::EnumConfigInfo(cix, DECI_DIGITAL_IN_CHANNEL_COUNT));
    if !ok {
        proof {
            assert(drv.log@ =~= old(drv).log@ + spec_config_queries(cix).take(4));
        }
        return Err(get_last_error(drv));
    }
    let digital_inputs = drv.devices[device_ix].configs[config_ix].digital_inputs;

    let ok = drv.note(Call::EnumConfigInfo(cix, DECI_DIGITAL_OUT_CHANNEL_COUNT));
    if !ok {
        proof {
            assert(drv.log@ =~= old(drv).log@ + spec_config_queries(cix).take(5));
        }
        return Err(get_last_error(drv));
    }
    let digital_outputs = drv.devices[device_ix].configs[config_ix].digital_outputs;

    let ok = drv.note(Call::EnumConfigInfo(cix, DECI_DIGITAL_IO_CHANNEL_COUNT));
    if !ok {
        proof {
            assert(drv.log@ =~= old(drv).log@ + spec_config_queries(cix).take(6));
        }
        return Err(get_last_error(drv));
    }
    let digital_ios = drv.devices[device_ix].configs[config_ix].digital_ios;

    let ok = drv.note(Call::EnumConfigInfo(cix, DECI_ANALOG_IN_BUFFER_SIZE));
    if !ok {
        proof {
            assert(drv.log@ =~= old(drv).log@ + spec_config_queries(cix).take(7));
        }
        return Err(get_last_error(drv));
    }
    let analog_in_buf_size = drv.devices[device_ix].configs[config_ix].analog_in_buf_size;

    let ok = drv.note(Call::EnumConfigInfo(cix, DECI_ANALOG_OUT_BUFFER_SIZE));
    if !ok {
        proof {
            assert(drv.log@ =~= old(drv).log@ + spec_config_queries(cix).take(8));
        }
        return Err(get_last_error(drv));
    }
    let analog_out_buf_size = drv.devices[device_ix].configs[config_ix].analog_out_buf_size;

    let ok = drv.note(Call::EnumConfigInfo(cix, DECI_DIGITAL_IN_BUFFER_SIZE));
    if !ok {
        proof {
            assert(drv.log@ =~= old(drv).log@ + spec_config_queries(cix).take(9));
        }
        return Err(get_last_error(drv));
    }
    let digital_in_buf_size = drv.devices[device_ix].configs[config_ix].digital_in_buf_size;

    let ok = drv.note(Call::EnumConfigInfo(cix, DECI_DIGITAL_OUT_BUFFER_SIZE));
    if !ok {
        proof {
            assert(drv.log@ =~= old(drv).log@ + spec_config_queries(cix).take(10));
        }
        return Err(get_last_error(drv));
    }
    let digital_out_buf_size = drv.devices[device_ix].configs[config_ix].digital_out_buf_size;

    proof {
        assert(drv.log@ =~= old(drv).log@ + spec_config_queries(cix));
        if old(drv).fails_within(10) {
            let f = old(drv).fail_at->Some_0;
            assert(old(drv).fails_at_index(f as int));
        }
    }
    Ok(DeviceConfigInfo {
        device_ix: device_ix as i32,
        config_ix: cix,
        analog_inputs,
        analog_outputs,
        analog_ios,
        digital_inputs,
        digital_outputs,
        digital_ios,
        analog_in_buf_size,
        analog_out_buf_size,
        digital_in_buf_size,
        digital_out_buf_size,
    })
}

/// Query everything enumeration reports of one device: the six
/// descriptive queries in fixed order, then the capacity queries of each
/// configuration in ordinal order, aborting at the first failing call.
fn enumerate_device(drv: &mut Driver, device_ix: usize) -> (r: Result<DeviceInfo, Error>)
    requires
        old(drv).wf(),
        device_ix < old(drv).devices@.len(),
    ensures
        final(drv).wf(),
        old(drv).same_core(*final(drv)),
        ({
            let plan = spec_device_queries(
                device_ix as i32,
                old(drv).devices@[device_ix as int].configs@.len() as int,
            );
            &&& (r is Ok <==> !old(drv).fails_within(plan.len() as int))
            &&& (r is Ok ==> final(drv).log@ == old(drv).log@ + plan
                && final(drv).last_error_code == old(drv).last_error_code
                && final(drv).last_error_message == old(drv).last_error_message)
            &&& (r matches Ok(d) ==> device_matches(
                d,
                old(drv).devices@[device_ix as int],
                device_ix as int,
            ))
            &&& (r matches Err(e) ==> reports_script_failure(e, *old(drv)) && (match old(
                drv,
            ).fail_at {
                Some(f) => old(drv).log@.len() <= f as int && final(drv).log@ == old(drv).log@
                    + plan.take(f as int + 1 - old(drv).log@.len()),
                None => false,
            }))
        }),
{
    let dix = device_ix as i32;
    let ghost m = old(drv).devices@[device_ix as int].configs@.len() as int;

    let ok = drv.note(Call::EnumDeviceType(dix));
    if !ok {
        proof {
            assert(drv.log@ =~= old(drv).log@ + spec_device_queries(dix, m).take(1));
        }
        return Err(get_last_error(drv));
    }
    let id = drv.devices[device_ix].id;
    let revision = drv.devices[device_ix].revision;

    let ok = drv.note(Call::EnumDeviceIsOpened(dix));
    if !ok {
        proof {
            assert(drv.log@ =~= old(drv).log@ + spec_device_queries(dix, m).take(2));
        }
        return Err(get_last_error(drv));
    }
    let in_use = drv.devices[device_ix].in_use;

    let ok = drv.note(Call::EnumUserName(dix));
    if !ok {
        proof {
            assert(drv.log@ =~= old(drv).log@ + spec_device_queries(dix, m).take(3));
        }
        return Err(get_last_error(drv));
    }
    let user_name = drv.devices[device_ix].user_name.clone();

    let ok = drv.note(Call::EnumDeviceName(dix));
    if !ok {
        proof {
            assert(drv.log@ =~= old(drv).log@ + spec_device_queries(dix, m).take(4));
        }
        return Err(get_last_error(drv));
    }
    let name = drv.devices[device_ix].name.clone();

    let ok = drv.note(Call::EnumSn(dix));
    if !ok {
        proof {
            assert(drv.log@ =~= old(drv).log@ + spec_device_queries(dix, m).take(5));
        }
        return Err(get_last_error(drv));
    }
    let serial = drv.devices[device_ix].serial.clone();

    let ok = drv.note(Call::EnumConfig(dix));
    if !ok {
        proof {
            assert(drv.log@ =~= old(drv).log@ + spec_device_queries(dix, m).take(6));
        }
        return Err(get_last_error(drv));
    }
    let configs_cnt = drv.devices[device_ix].configs.len();

    let mut configs: Vec<DeviceConfigInfo> = Vec::new();
    let mut config_ix: usize = 0;
    while config_ix < configs_cnt
        invariant
            drv.wf(),
            old(drv).same_core(*drv),
            device_ix < old(drv).devices@.len(),
            dix == device_ix as i32,
            configs_cnt == old(drv).devices@[device_ix as int].configs@.len(),
            config_ix <= configs_cnt,
            configs@.len() == config_ix,
            forall|j: int|
                0 <= j < config_ix ==> config_matches(
                    #[trigger] configs@[j],
                    old(drv).devices@[device_ix as int].configs@[j],
                    device_ix as int,
                    j,
                ),
            drv.log@ == old(drv).log@ + spec_device_header(dix) + spec_config_queries_upto(
                config_ix as int,
            ),
            !old(drv).fails_within(drv.log@.len() - old(drv).log@.len()),
            drv.last_error_code == old(drv).last_error_code,
            drv.last_error_message == old(drv).last_error_message,
        decreases configs_cnt - config_ix,
    {
        match query_config(drv, device_ix, config_ix) {
            Ok(c) => {
                configs.push(c);
                proof {
                    lemma_config_queries_upto_len(config_ix as int);
                    assert(drv.log@ =~= old(drv).log@ + spec_device_header(dix)
                        + spec_config_queries_upto(config_ix as int + 1));
                }
                config_ix = config_ix + 1;
            },
            Err(e) => {
                proof {
                    let j = config_ix as int;
                    let mm = configs_cnt as int;
                    let f = old(drv).fail_at->Some_0 as int;
                    lemma_config_queries_upto_len(j);
                    lemma_config_queries_upto_len(mm);
                    let t = f + 1 - (old(drv).log@.len() + 6 + 10 * j);
                    lemma_config_queries_upto_take(j, t, mm);
                    assert(spec_device_queries(dix, mm).take(6 + 10 * j + t)
                        =~= spec_device_header(dix) + spec_config_queries_upto(mm).take(
                        10 * j + t,
                    ));
                    assert(drv.log@ =~= old(drv).log@ + spec_device_queries(dix, mm).take(
                        f + 1 - old(drv).log@.len(),
                    ));
                }
                return Err(e);
            },
        }
    }
    proof {
        lemma_config_queries_upto_len(configs_cnt as int);
    }
    Ok(DeviceInfo { device_ix: dix, id, revision, user_name, name, serial, in_use, configs })
}

/// Enumerate the attached devices: the device-count query, then per
/// device its six descriptive queries and the ten capacity queries of
/// each configuration — exactly the calls of `spec_enumeration_calls`, in
/// that order. The first failing query aborts the whole enumeration with
/// its classified error: nothing after the failing call is queried, and
/// no partial result is returned.
pub fn devices(drv: &mut Driver) -> (r: Result<DeviceInfoList, Error>)
    requires
        old(drv).wf(),
    ensures
        final(drv).wf(),
        old(drv).same_core(*final(drv)),
        ({
            let plan = spec_enumeration_calls(old(drv).devices@);
            &&& (r is Ok <==> !old(drv).fails_within(plan.len() as int))
            &&& (r matches Ok(list) ==> list_matches(list, old(drv).devices@)
                && final(drv).log@ == old(drv).log@ + plan
                && final(drv).last_error_code == old(drv).last_error_code
                && final(drv).last_error_message == old(drv).last_error_message)
            &&& (r matches Err(e) ==> reports_script_failure(e, *old(drv)) && (match old(
                drv,
            ).fail_at {
                Some(f) => old(drv).log@.len() <= f as int && final(drv).log@ == old(drv).log@
                    + plan.take(f as int + 1 - old(drv).log@.len()),
                None => false,
            }))
        }),
{
    let ghost devs = old(drv).devices@;
    let ok = drv.note(Call::EnumDevices(ENUMFILTER_ALL));
    if !ok {
        proof {
            lemma_enum_queries_upto_first(devs, devs.len() as int);
            assert(drv.log@ =~= old(drv).log@ + spec_enumeration_calls(devs).take(1));
        }
        return Err(get_last_error(drv));
    }
    let devices_cnt = drv.devices.len();
    let mut out: Vec<DeviceInfo> = Vec::new();
    let mut device_ix: usize = 0;
    while device_ix < devices_cnt
        invariant
            drv.wf(),
            old(drv).same_core(*drv),
            devs == old(drv).devices@,
            devices_cnt == devs.len(),
            device_ix <= devices_cnt,
            out@.len() == device_ix,
            forall|i: int| 0 <= i < device_ix ==> device_matches(#[trigger] out@[i], devs[i], i),
            drv.log@ == old(drv).log@ + spec_enum_queries_upto(devs, device_ix as int),
            !old(drv).fails_within(drv.log@.len() - old(drv).log@.len()),
            drv.last_error_code == old(drv).last_error_code,
            drv.last_error_message == old(drv).last_error_message,
        decreases devices_cnt - device_ix,
    {
        match enumerate_device(drv, device_ix) {
            Ok(d) => {
                out.push(d);
                proof {
                    assert(drv.log@ =~= old(drv).log@ + spec_enum_queries_upto(
                        devs,
                        device_ix as int + 1,
                    ));
                }
                device_ix = device_ix + 1;
            },
            Err(e) => {
                proof {
                    let i = device_ix as int;
                    let f = old(drv).fail_at->Some_0 as int;
                    let t = f + 1 - old(drv).log@.len() - spec_enum_queries_upto(devs, i).len();
                    lemma_enum_queries_upto_take(devs, i, t, devs.len() as int);
                    lemma_enum_queries_upto_len_monotone(devs, i + 1, devs.len() as int);
                    assert(drv.log@ =~= old(drv).log@ + spec_enumeration_calls(devs).take(
                        f + 1 - old(drv).log@.len(),
                    ));
                }
                return Err(e);
            },
        }
    }
    Ok(DeviceInfoList { devices: out })
}

} // verus!
