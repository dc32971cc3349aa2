//! The driver model: an in-process simulation of the vendor's native
//! function table.
//!
//! A [`Driver`] value holds the state the native library would hold for the
//! process: the table of attached devices, the next handle to hand out, the
//! last-error code and message, the acquisition state machine's current
//! state, and the data the next polling reads will report. Every native
//! call the accessor layer issues is recorded in `log`, in order, so that
//! contracts (and tests) can state exactly which calls an operation makes.
//!
//! Failures are scripted: `fail_at` names the index in `log` at which the
//! next call reports failure, with `fail_code` and `fail_message` becoming
//! the last-error state at that moment, exactly as the native library's
//! global last-error query behaves.

use vstd::prelude::*;
use crate::native::is_state_code;

verus! {

/// One parameter setter of a generator node, as the native function table
/// addresses them. The `u64` values carry the bit pattern of the native
/// double parameter, which this layer passes through uninterpreted.
#[derive(Clone, Copy, PartialEq, Eq, Structural, Debug)]
pub enum NodeSetter {
    Shape(i32),
    Frequency(u64),
    Amplitude(u64),
    Offset(u64),
    Symmetry(u64),
    Phase(u64),
}

/// One call into the native function table, with the arguments the table
/// sees. Handles are the values the simulation hands out at open time;
/// `u64` arguments carry native double bit patterns, and the run-duration
/// argument carries whole nanoseconds.
#[derive(Clone, Copy, PartialEq, Eq, Structural, Debug)]
pub enum Call {
    EnumDevices(i32),
    EnumDeviceType(i32),
    EnumDeviceIsOpened(i32),
    EnumUserName(i32),
    EnumDeviceName(i32),
    EnumSn(i32),
    EnumConfig(i32),
    EnumConfigInfo(i32, i32),
    DeviceConfigOpen(i32, i32),
    DeviceClose(usize),
    DeviceAutoConfigureSet(usize, bool),
    DeviceReset(usize),
    DeviceEnableSet(usize, bool),
    AnalogOutNodeEnableSet(usize, i32, i32, bool),
    AnalogOutNodeSet(usize, i32, i32, NodeSetter),
    AnalogOutRunSet(usize, i32, i128),
    AnalogOutRepeatSet(usize, i32, i32),
    AnalogOutTriggerSourceSet(usize, i32, i32),
    AnalogOutIdleSet(usize, i32, i32),
    AnalogOutConfigure(usize, i32, bool),
    AnalogIoEnableSet(usize, bool),
    AnalogIoChannelNodeSet(usize, i32, i32, u64),
    AnalogInConfigure(usize, bool, bool),
    AnalogInFrequencySet(usize, u64),
    AnalogInBufferSizeSet(usize, i32),
    AnalogInRecordLengthSet(usize, u64),
    AnalogInAcquisitionModeSet(usize, i32),
    AnalogInStatus(usize, bool),
    AnalogInStatusSamplesLeft(usize),
    AnalogInStatusRecord(usize),
    AnalogInChannelOffsetSet(usize, i32, u64),
    AnalogInChannelRangeSet(usize, i32, u64),
    AnalogInStatusData(usize, i32, i32),
    GetVersion,
}

/// The device handle a call addresses, if it addresses one.
pub open spec fn call_handle(c: Call) -> Option<usize> {
    match c {
        Call::EnumDevices(_) => None,
        Call::EnumDeviceType(_) => None,
        Call::EnumDeviceIsOpened(_) => None,
        Call::EnumUserName(_) => None,
        Call::EnumDeviceName(_) => None,
        Call::EnumSn(_) => None,
        Call::EnumConfig(_) => None,
        Call::EnumConfigInfo(_, _) => None,
        Call::DeviceConfigOpen(_, _) => None,
        Call::DeviceClose(h) => Some(h),
        Call::DeviceAutoConfigureSet(h, _) => Some(h),
        Call::DeviceReset(h) => Some(h),
        Call::DeviceEnableSet(h, _) => Some(h),
        Call::AnalogOutNodeEnableSet(h, _, _, _) => Some(h),
        Call::AnalogOutNodeSet(h, _, _, _) => Some(h),
        Call::AnalogOutRunSet(h, _, _) => Some(h),
        Call::AnalogOutRepeatSet(h, _, _) => Some(h),
        Call::AnalogOutTriggerSourceSet(h, _, _) => Some(h),
        Call::AnalogOutIdleSet(h, _, _) => Some(h),
        Call::AnalogOutConfigure(h, _, _) => Some(h),
        Call::AnalogIoEnableSet(h, _) => Some(h),
        Call::AnalogIoChannelNodeSet(h, _, _, _) => Some(h),
        Call::AnalogInConfigure(h, _, _) => Some(h),
        Call::AnalogInFrequencySet(h, _) => Some(h),
        Call::AnalogInBufferSizeSet(h, _) => Some(h),
        Call::AnalogInRecordLengthSet(h, _) => Some(h),
        Call::AnalogInAcquisitionModeSet(h, _) => Some(h),
        Call::AnalogInStatus(h, _) => Some(h),
        Call::AnalogInStatusSamplesLeft(h) => Some(h),
        Call::AnalogInStatusRecord(h) => Some(h),
        Call::AnalogInChannelOffsetSet(h, _, _) => Some(h),
        Call::AnalogInChannelRangeSet(h, _, _) => Some(h),
        Call::AnalogInStatusData(h, _, _) => Some(h),
        Call::GetVersion => None,
    }
}

/// Whether every handle `c` addresses is below `n` (the next handle the
/// simulation will hand out).
pub open spec fn handle_bounded(c: Call, n: usize) -> bool {
    match call_handle(c) {
        Some(h) => h < n,
        None => true,
    }
}

/// How many close calls `log` records for the handle `h`.
pub open spec fn close_calls(log: Seq<Call>, h: usize) -> nat
    decreases log.len(),
{
    if log.len() == 0 {
        0
    } else {
        close_calls(log.drop_last(), h) + if log.last() == Call::DeviceClose(h) {
            1nat
        } else {
            0nat
        }
    }
}

/// A handle at or above every handle recorded in `log` has never been
/// closed.
pub proof fn lemma_fresh_handle_never_closed(log: Seq<Call>, n: usize, h: usize)
    requires
        forall|i: int| 0 <= i < log.len() ==> handle_bounded(#[trigger] log[i], n),
        n <= h,
    ensures
        close_calls(log, h) == 0,
    decreases log.len(),
{
    if log.len() > 0 {
        assert(handle_bounded(log[log.len() - 1], n));
        lemma_fresh_handle_never_closed(log.drop_last(), n, h);
    }
}

/// Appending a close of `h` raises its close count by one; appending any
/// other call leaves it unchanged.
pub proof fn lemma_close_calls_push(log: Seq<Call>, c: Call, h: usize)
    ensures
        close_calls(log.push(c), h) == close_calls(log, h) + if c == Call::DeviceClose(h) {
            1nat
        } else {
            0nat
        },
{
    assert(log.push(c).drop_last() =~= log);
}

/// The per-configuration capacity record of a simulated device: the ten
/// values the configuration-info query can report.
#[derive(Clone, Copy, PartialEq, Eq, Structural, Debug)]
pub struct SimConfig {
    pub analog_inputs: i32,
    pub analog_outputs: i32,
    pub analog_ios: i32,
    pub digital_inputs: i32,
    pub digital_outputs: i32,
    pub digital_ios: i32,
    pub analog_in_buf_size: i32,
    pub analog_out_buf_size: i32,
    pub digital_in_buf_size: i32,
    pub digital_out_buf_size: i32,
}

impl SimConfig {
    /// The driver contract: channel counts and buffer depths are
    /// non-negative.
    pub open spec fn wf(self) -> bool {
        &&& self.analog_inputs >= 0
        &&& self.analog_outputs >= 0
        &&& self.analog_ios >= 0
        &&& self.digital_inputs >= 0
        &&& self.digital_outputs >= 0
        &&& self.digital_ios >= 0
        &&& self.analog_in_buf_size >= 0
        &&& self.analog_out_buf_size >= 0
        &&& self.digital_in_buf_size >= 0
        &&& self.digital_out_buf_size >= 0
    }
}

/// One simulated attached device: the descriptive data enumeration reports,
/// and its hardware configurations.
#[derive(Debug)]
pub struct SimDevice {
    pub id: i32,
    pub revision: i32,
    pub user_name: String,
    pub name: String,
    pub serial: String,
    pub in_use: bool,
    pub configs: Vec<SimConfig>,
}

impl SimDevice {
    /// The driver contract: display strings fit their fixed 32-byte native
    /// buffers (NUL included), and configurations are well formed and
    /// countable in a native int.
    pub open spec fn wf(self) -> bool {
        &&& self.user_name@.len() <= 31
        &&& self.name@.len() <= 31
        &&& self.serial@.len() <= 31
        &&& self.configs@.len() <= 0x7fff_ffff
        &&& forall|j: int| 0 <= j < self.configs@.len() ==> (#[trigger] self.configs@[j]).wf()
    }
}

/// The simulated native driver. See the module documentation.
#[derive(Debug)]
pub struct Driver {
    /// The attached devices enumeration will report.
    pub devices: Vec<SimDevice>,
    /// The library version string the version query reports.
    pub version: String,
    /// The next device handle to hand out; handles already handed out are
    /// all below it.
    pub next_handle: usize,
    /// Every native call issued so far, in order.
    pub log: Vec<Call>,
    /// The index in `log` at which a call reports failure, if one is
    /// scripted.
    pub fail_at: Option<usize>,
    /// The error code the scripted failure reports.
    pub fail_code: i32,
    /// The error message the scripted failure reports.
    pub fail_message: String,
    /// The last-error code, as the global last-error query reports it.
    pub last_error_code: i32,
    /// The last-error message, as the global last-error query reports it.
    pub last_error_message: String,
    /// The acquisition state the analog-in status query reports.
    pub acq_state: i32,
    /// The value the samples-left query reports.
    pub samples_left: i32,
    /// The available/lost/corrupted triple the record-status query reports.
    pub record_available: i32,
    pub record_lost: i32,
    pub record_corrupted: i32,
    /// The samples the data query hands out, oldest first, as native double
    /// bit patterns.
    pub samples: Vec<u64>,
}

impl Driver {
    /// The driver contract this simulation upholds: the acquisition state
    /// is one of the seven documented states, device records are well
    /// formed and countable in a native int, handles recorded in the log
    /// were all handed out before `next_handle`, and messages fit the
    /// fixed 512-byte native error buffer.
    pub open spec fn wf(self) -> bool {
        &&& is_state_code(self.acq_state)
        &&& 1 <= self.next_handle
        &&& self.devices@.len() <= 0x7fff_ffff
        &&& forall|i: int| 0 <= i < self.devices@.len() ==> (#[trigger] self.devices@[i]).wf()
        &&& forall|i: int|
            0 <= i < self.log@.len() ==> handle_bounded(#[trigger] self.log@[i], self.next_handle)
        &&& self.version@.len() <= 31
        &&& self.fail_message@.len() <= 511
        &&& self.last_error_message@.len() <= 511
    }

    /// Whether the call that would be logged at index `i` is scripted to
    /// fail.
    pub open spec fn fails_at_index(self, i: int) -> bool {
        match self.fail_at {
            Some(f) => f as int == i,
            None => false,
        }
    }

    /// Whether the next call is scripted to fail.
    pub open spec fn fails_next(self) -> bool {
        self.fails_at_index(self.log@.len() as int)
    }

    /// Whether one of the next `k` calls is scripted to fail.
    pub open spec fn fails_within(self, k: int) -> bool {
        match self.fail_at {
            Some(f) => self.log@.len() <= f as int && (f as int) < self.log@.len() + k,
            None => false,
        }
    }

    /// Everything a logged call leaves alone: all state but the log and
    /// the last-error pair.
    pub open spec fn same_core(self, post: Driver) -> bool {
        &&& post.devices == self.devices
        &&& post.version == self.version
        &&& post.next_handle == self.next_handle
        &&& post.fail_at == self.fail_at
        &&& post.fail_code == self.fail_code
        &&& post.fail_message == self.fail_message
        &&& post.acq_state == self.acq_state
        &&& post.samples_left == self.samples_left
        &&& post.record_available == self.record_available
        &&& post.record_lost == self.record_lost
        &&& post.record_corrupted == self.record_corrupted
        &&& post.samples == self.samples
    }

    /// What issuing the single call `c` does to the driver: the call is
    /// logged, nothing else changes, and the last-error pair is rewritten
    /// exactly when the call was scripted to fail.
    pub open spec fn issued_one(self, post: Driver, c: Call) -> bool {
        &&& post.log@ == self.log@.push(c)
        &&& self.same_core(post)
        &&& forall|h: usize| #[trigger] close_calls(post.log@, h) == close_calls(self.log@, h)
            + if c == Call::DeviceClose(h) {
                1nat
            } else {
                0nat
            }
        &&& (!self.fails_next() ==> post.last_error_code == self.last_error_code
            && post.last_error_message == self.last_error_message)
        &&& (self.fails_next() ==> post.last_error_code == self.fail_code
            && post.last_error_message@ == self.fail_message@)
    }

    /// A fresh driver: no devices, no calls issued, no failure scripted,
    /// acquisition idle.
    pub fn new() -> (drv: Driver)
        ensures
            drv.wf(),
            drv.devices@.len() == 0,
            drv.version@.len() == 0,
            drv.next_handle == 1,
            drv.log@.len() == 0,
            drv.fail_at is None,
            drv.last_error_code == crate::native::ERC_NO_ERROR,
            drv.last_error_message@.len() == 0,
            drv.acq_state == crate::native::STATE_READY,
            drv.samples_left == 0,
            drv.record_available == 0,
            drv.record_lost == 0,
            drv.record_corrupted == 0,
            drv.samples@.len() == 0,
    {
        Driver {
            devices: Vec::new(),
            version: String::new(),
            next_handle: 1,
            log: Vec::new(),
            fail_at: None,
            fail_code: crate::native::ERC_NO_ERROR,
            fail_message: String::new(),
            last_error_code: crate::native::ERC_NO_ERROR,
            last_error_message: String::new(),
            acq_state: crate::native::STATE_READY,
            samples_left: 0,
            record_available: 0,
            record_lost: 0,
            record_corrupted: 0,
            samples: Vec::new(),
        }
    }

    /// How many close calls this driver has seen for the handle `h`.
    pub fn close_count(&self, h: usize) -> (n: usize)
        ensures
            n as nat == close_calls(self.log@, h),
    {
        let mut n: usize = 0;
        let mut i: usize = 0;
        while i < self.log.len()
            invariant
                i <= self.log@.len(),
                n <= i,
                n as nat == close_calls(self.log@.take(i as int), h),
            decreases self.log@.len() - i,
        {
            let is_close = match self.log[i] {
                Call::DeviceClose(hh) => hh == h,
                _ => false,
            };
            proof {
                assert(self.log@.take(i + 1).drop_last() =~= self.log@.take(i as int));
                assert(self.log@.take(i + 1).last() == self.log@[i as int]);
            }
            if is_close {
                n = n + 1;
            }
            i = i + 1;
        }
        proof {
            assert(self.log@.take(self.log@.len() as int) =~= self.log@);
        }
        n
    }

    /// Issue one native call: record it in the log and report whether it
    /// succeeded. A call fails exactly when the failure script names its
    /// log index; the failing call rewrites the last-error state, exactly
    /// as the native library's global last-error query behaves.
    pub(crate) fn note(&mut self, c: Call) -> (ok: bool)
        requires
            old(self).wf(),
            handle_bounded(c, old(self).next_handle),
        ensures
            final(self).wf(),
            old(self).issued_one(*final(self), c),
            ok == !old(self).fails_next(),
    {
        let failing = match self.fail_at {
            Some(f) => f == self.log.len(),
            None => false,
        };
        self.log.push(c);
        if failing {
            self.last_error_code = self.fail_code;
            self.last_error_message = self.fail_message.clone();
        }
        proof {
            assert forall|i: int| 0 <= i < self.log@.len() implies handle_bounded(
                #[trigger] self.log@[i],
                self.next_handle,
            ) by {
                if i < self.log@.len() - 1 {
                    assert(self.log@[i] == old(self).log@[i]);
                }
            }
            assert forall|h: usize| #[trigger] close_calls(self.log@, h) == close_calls(
                old(self).log@,
                h,
            ) + if c == Call::DeviceClose(h) {
                1nat
            } else {
                0nat
            } by {
                lemma_close_calls_push(old(self).log@, c, h);
            }
        }
        !failing
    }
}

} // verus!
