//! The native driver's closed constant vocabulary: error codes, acquisition
//! state codes, waveform shape codes, trigger-source codes, idle-mode codes,
//! acquisition-mode codes, configuration-info selectors and the enumeration
//! filter, together with the boolean encoding the function table uses.

use vstd::prelude::*;

verus! {

// Error codes reported by the driver's last-error query.
pub const ERC_NO_ERROR: i32 = 0;
pub const ERC_UNKNOWN: i32 = 1;
pub const ERC_API_LOCK_TIMEOUT: i32 = 2;
pub const ERC_ALREADY_OPENED: i32 = 3;
pub const ERC_NOT_SUPPORTED: i32 = 4;
pub const ERC_INVALID_PARAMETER_0: i32 = 16;
pub const ERC_INVALID_PARAMETER_1: i32 = 17;
pub const ERC_INVALID_PARAMETER_2: i32 = 18;
pub const ERC_INVALID_PARAMETER_3: i32 = 19;
pub const ERC_INVALID_PARAMETER_4: i32 = 20;

// Acquisition state codes reported by the analog-in status query.
pub const STATE_READY: i32 = 0;
pub const STATE_ARMED: i32 = 1;
pub const STATE_DONE: i32 = 2;
pub const STATE_RUNNING: i32 = 3;
pub const STATE_CONFIG: i32 = 4;
pub const STATE_PREFILL: i32 = 5;
pub const STATE_WAIT: i32 = 7;

// Waveform shape codes taken by the generator-node function setter.
pub const FUNC_DC: i32 = 0;
pub const FUNC_SINE: i32 = 1;
pub const FUNC_SQUARE: i32 = 2;
pub const FUNC_TRIANGLE: i32 = 3;
pub const FUNC_RAMP_UP: i32 = 4;
pub const FUNC_RAMP_DOWN: i32 = 5;

// Trigger source codes taken by the generator trigger-source setter.
pub const TRIGSRC_NONE: i32 = 0;
pub const TRIGSRC_PC: i32 = 1;
pub const TRIGSRC_DETECTOR_ANALOG_IN: i32 = 2;
pub const TRIGSRC_DETECTOR_DIGITAL_IN: i32 = 3;
pub const TRIGSRC_ANALOG_IN: i32 = 4;
pub const TRIGSRC_DIGITAL_IN: i32 = 5;
pub const TRIGSRC_DIGITAL_OUT: i32 = 6;
pub const TRIGSRC_ANALOG_OUT_1: i32 = 7;
pub const TRIGSRC_ANALOG_OUT_2: i32 = 8;
pub const TRIGSRC_ANALOG_OUT_3: i32 = 9;
pub const TRIGSRC_ANALOG_OUT_4: i32 = 10;
pub const TRIGSRC_EXTERNAL_1: i32 = 11;
pub const TRIGSRC_EXTERNAL_2: i32 = 12;
pub const TRIGSRC_EXTERNAL_3: i32 = 13;
pub const TRIGSRC_EXTERNAL_4: i32 = 14;
pub const TRIGSRC_HIGH: i32 = 15;
pub const TRIGSRC_LOW: i32 = 16;

// Generator idle-mode codes.
pub const IDLE_DISABLE: i32 = 0;
pub const IDLE_OFFSET: i32 = 1;
pub const IDLE_INITIAL: i32 = 2;

// Acquisition mode codes; only the record mode is driven from this layer.
pub const ACQMODE_RECORD: i32 = 3;

// Selector keys of the per-configuration capacity query.
pub const DECI_ANALOG_IN_CHANNEL_COUNT: i32 = 1;
pub const DECI_ANALOG_OUT_CHANNEL_COUNT: i32 = 2;
pub const DECI_ANALOG_IO_CHANNEL_COUNT: i32 = 3;
pub const DECI_DIGITAL_IN_CHANNEL_COUNT: i32 = 4;
pub const DECI_DIGITAL_OUT_CHANNEL_COUNT: i32 = 5;
pub const DECI_DIGITAL_IO_CHANNEL_COUNT: i32 = 6;
pub const DECI_ANALOG_IN_BUFFER_SIZE: i32 = 7;
pub const DECI_ANALOG_OUT_BUFFER_SIZE: i32 = 8;
pub const DECI_DIGITAL_IN_BUFFER_SIZE: i32 = 9;
pub const DECI_DIGITAL_OUT_BUFFER_SIZE: i32 = 10;

// Device enumeration filter: all attached devices.
pub const ENUMFILTER_ALL: i32 = 0;

/// The boolean encoding of the native function table: zero is false,
/// one is true.
pub fn to_c_bool(v: bool) -> (r: i32)
    ensures
        r == (if v { 1i32 } else { 0i32 }),
{
    if v {
        1
    } else {
        0
    }
}

/// Whether `code` is one of the seven acquisition state codes the driver
/// contract allows the status query to report.
pub open spec fn is_state_code(code: i32) -> bool {
    code == STATE_READY || code == STATE_ARMED || code == STATE_DONE || code == STATE_RUNNING
        || code == STATE_CONFIG || code == STATE_PREFILL || code == STATE_WAIT
}

} // verus!
