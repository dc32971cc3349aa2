//! Analog input: acquisition configuration, arming, polling and data
//! transfer, plus per-channel front-end settings.

use vstd::prelude::*;
use vstd::pervasive::unreached;
use crate::device::Device;
use crate::driver::{Driver, Call};
use crate::errors::{Error, handle_dwf_errors, get_last_error, reports_script_failure};
use crate::native::{STATE_READY, STATE_ARMED, STATE_DONE, STATE_RUNNING, STATE_CONFIG,
    STATE_PREFILL, STATE_WAIT, ACQMODE_RECORD, is_state_code};

verus! {

/// A read-only snapshot of the device's internal acquisition state
/// machine, mirroring the seven documented native state codes one for
/// one. Obtained by polling, never cached.
#[derive(Clone, Copy, PartialEq, Eq, Structural, Debug)]
pub enum AnalogAcquisitionStatus {
    Ready,
    Config,
    Prefill,
    Armed,
    Waiting,
    Running,
    Done,
}

/// The native state code that stands for `s`.
pub open spec fn spec_status_code(s: AnalogAcquisitionStatus) -> i32 {
    match s {
        AnalogAcquisitionStatus::Ready => STATE_READY,
        AnalogAcquisitionStatus::Config => STATE_CONFIG,
        AnalogAcquisitionStatus::Prefill => STATE_PREFILL,
        AnalogAcquisitionStatus::Armed => STATE_ARMED,
        AnalogAcquisitionStatus::Waiting => STATE_WAIT,
        AnalogAcquisitionStatus::Running => STATE_RUNNING,
        AnalogAcquisitionStatus::Done => STATE_DONE,
    }
}

/// The acquisition status a native state code stands for; `None` for a
/// code outside the driver's documented seven-state space.
pub open spec fn spec_status_of_code(code: i32) -> Option<AnalogAcquisitionStatus> {
    if code == STATE_READY {
        Some(AnalogAcquisitionStatus::Ready)
    } else if code == STATE_CONFIG {
        Some(AnalogAcquisitionStatus::Config)
    } else if code == STATE_PREFILL {
        Some(AnalogAcquisitionStatus::Prefill)
    } else if code == STATE_ARMED {
        Some(AnalogAcquisitionStatus::Armed)
    } else if code == STATE_WAIT {
        Some(AnalogAcquisitionStatus::Waiting)
    } else if code == STATE_RUNNING {
        Some(AnalogAcquisitionStatus::Running)
    } else if code == STATE_DONE {
        Some(AnalogAcquisitionStatus::Done)
    } else {
        None
    }
}

impl AnalogAcquisitionStatus {
    /// The native state code this status stands for.
    pub fn code(self) -> (c: i32)
        ensures
            c == spec_status_code(self),
    {
        match self {
            AnalogAcquisitionStatus::Ready => STATE_READY,
            AnalogAcquisitionStatus::Config => STATE_CONFIG,
            AnalogAcquisitionStatus::Prefill => STATE_PREFILL,
            AnalogAcquisitionStatus::Armed => STATE_ARMED,
            AnalogAcquisitionStatus::Waiting => STATE_WAIT,
            AnalogAcquisitionStatus::Running => STATE_RUNNING,
            AnalogAcquisitionStatus::Done => STATE_DONE,
        }
    }

    /// The acquisition status a native state code stands for; `None` for
    /// a code outside the documented space.
    pub fn from_code(code: i32) -> (s: Option<AnalogAcquisitionStatus>)
        ensures
            s == spec_status_of_code(code),
    {
        if code == STATE_READY {
            Some(AnalogAcquisitionStatus::Ready)
        } else if code == STATE_CONFIG {
            Some(AnalogAcquisitionStatus::Config)
        } else if code == STATE_PREFILL {
            Some(AnalogAcquisitionStatus::Prefill)
        } else if code == STATE_ARMED {
            Some(AnalogAcquisitionStatus::Armed)
        } else if code == STATE_WAIT {
            Some(AnalogAcquisitionStatus::Waiting)
        } else if code == STATE_RUNNING {
            Some(AnalogAcquisitionStatus::Running)
        } else if code == STATE_DONE {
            Some(AnalogAcquisitionStatus::Done)
        } else {
            None
        }
    }
}

/// The seven documented state codes map bijectively onto the seven
/// acquisition statuses: every status round-trips through its code, every
/// documented code round-trips through its status, and a code is
/// documented exactly when it maps to a status at all.
pub proof fn lemma_status_code_bijective()
    ensures
        forall|s: AnalogAcquisitionStatus| #[trigger] spec_status_of_code(spec_status_code(s))
            == Some(s),
        forall|c: i32| #[trigger] is_state_code(c) <==> spec_status_of_code(c) is Some,
        forall|c: i32|
            is_state_code(c) ==> spec_status_code(
                (#[trigger] spec_status_of_code(c))->Some_0,
            ) == c,
{
}

/// Under the driver contract the status poll never reaches its fatal arm:
/// the state a well-formed driver reports always maps to a status. So a
/// failure of the poll can only be a failing native call; a code outside
/// the documented seven never surfaces through the recoverable Error
/// taxonomy — in verified code it cannot occur at all, and the hardware
/// boundary aborts on it.
pub proof fn lemma_status_total_under_driver_contract(d: Driver)
    requires
        d.wf(),
    ensures
        spec_status_of_code(d.acq_state) is Some,
{
}

/// The analog input capability of an open device: a non-owning view.
pub struct AnalogIn<'a> {
    pub device: &'a Device,
}

/// One analog input channel: a non-owning view.
pub struct AnalogInChannel<'a> {
    pub input: &'a AnalogIn<'a>,
    pub ix: i32,
}

impl<'a> AnalogIn<'a> {
    /// Arm acquisition without forcing a full reconfiguration: the
    /// configure call with reconfigure cleared and start set.
    pub fn start(&self, drv: &mut Driver) -> (r: Result<(), Error>)
        requires
            old(drv).wf(),
            (*self.device).usable(*old(drv)),
        ensures
            final(drv).wf(),
            old(drv).issued_one(
                *final(drv),
                Call::AnalogInConfigure(self.device.handle, false, true),
            ),
            r is Ok <==> !old(drv).fails_next(),
            r matches Err(e) ==> reports_script_failure(e, *old(drv)),
    {
        let ok = drv.note(Call::AnalogInConfigure(self.device.handle, false, true));
        handle_dwf_errors(drv, ok)
    }

    /// Set the acquisition frequency, given as the bit pattern of the
    /// native double: one native call.
    pub fn set_frequency(&self, drv: &mut Driver, freq: u64) -> (r: Result<(), Error>)
        requires
            old(drv).wf(),
            (*self.device).usable(*old(drv)),
        ensures
            final(drv).wf(),
            old(drv).issued_one(
                *final(drv),
                Call::AnalogInFrequencySet(self.device.handle, freq),
            ),
            r is Ok <==> !old(drv).fails_next(),
            r matches Err(e) ==> reports_script_failure(e, *old(drv)),
    {
        let ok = drv.note(Call::AnalogInFrequencySet(self.device.handle, freq));
        handle_dwf_errors(drv, ok)
    }

    /// Set the acquisition buffer size: one native call, the size passed
    /// as the native int the function table takes.
    pub fn set_buffer_size(&self, drv: &mut Driver, buf_size: u32) -> (r: Result<(), Error>)
        requires
            old(drv).wf(),
            (*self.device).usable(*old(drv)),
        ensures
            final(drv).wf(),
            old(drv).issued_one(
                *final(drv),
                Call::AnalogInBufferSizeSet(self.device.handle, buf_size as i32),
            ),
            r is Ok <==> !old(drv).fails_next(),
            r matches Err(e) ==> reports_script_failure(e, *old(drv)),
    {
        let ok = drv.note(
            Call::AnalogInBufferSizeSet(self.device.handle, #[verifier::truncate] (buf_size as i32)),
        );
        handle_dwf_errors(drv, ok)
    }

    /// Switch the device into record acquisition mode with the given
    /// record length (the bit pattern of the native double, in seconds):
    /// the record-length call, then the acquisition-mode call. A mode
    /// switch, to be made before arming; the operation stops at the first
    /// failing call.
    pub fn set_record_mode(&self, drv: &mut Driver, length: u64) -> (r: Result<(), Error>)
        requires
            old(drv).wf(),
            (*self.device).usable(*old(drv)),
        ensures
            final(drv).wf(),
            old(drv).same_core(*final(drv)),
            r is Ok <==> !old(drv).fails_within(2),
            r is Ok ==> final(drv).log@ == old(drv).log@.push(
                Call::AnalogInRecordLengthSet(self.device.handle, length),
            ).push(Call::AnalogInAcquisitionModeSet(self.device.handle, ACQMODE_RECORD))
                && final(drv).last_error_code == old(drv).last_error_code
                && final(drv).last_error_message == old(drv).last_error_message,
            old(drv).fails_at_index(old(drv).log@.len() as int) ==> final(drv).log@ == old(
                drv,
            ).log@.push(Call::AnalogInRecordLengthSet(self.device.handle, length)),
            old(drv).fails_at_index(old(drv).log@.len() + 1int) ==> final(drv).log@ == old(
                drv,
            ).log@.push(Call::AnalogInRecordLengthSet(self.device.handle, length)).push(
                Call::AnalogInAcquisitionModeSet(self.device.handle, ACQMODE_RECORD),
            ),
            r matches Err(e) ==> reports_script_failure(e, *old(drv)),
    {
        let ok = drv.note(Call::AnalogInRecordLengthSet(self.device.handle, length));
        if !ok {
            return Err(get_last_error(drv));
        }
        let ok = drv.note(Call::AnalogInAcquisitionModeSet(self.device.handle, ACQMODE_RECORD));
        handle_dwf_errors(drv, ok)
    }

    /// The analog input channel `ix`: no native call.
    pub fn channel(&self, ix: i32) -> (r: AnalogInChannel<'_>)
        ensures
            r.input == self,
            r.ix == ix,
    {
        AnalogInChannel { input: self, ix }
    }

    /// Poll the acquisition state machine (reading device data along with
    /// the poll) and map the reported native state code to its status.
    /// The driver contract limits the report to the seven documented
    /// codes, so the mapping is total here; each poll is authoritative
    /// and nothing is cached between polls.
    pub fn get_status(&self, drv: &mut Driver) -> (r: Result<AnalogAcquisitionStatus, Error>)
        requires
            old(drv).wf(),
            (*self.device).usable(*old(drv)),
        ensures
            final(drv).wf(),
            old(drv).issued_one(*final(drv), Call::AnalogInStatus(self.device.handle, true)),
            r is Ok <==> !old(drv).fails_next(),
            r matches Ok(s) ==> Some(s) == spec_status_of_code(old(drv).acq_state)
                && spec_status_code(s) == old(drv).acq_state,
            r matches Err(e) ==> reports_script_failure(e, *old(drv)),
    {
        let ok = drv.note(Call::AnalogInStatus(self.device.handle, true));
        if !ok {
            return Err(get_last_error(drv));
        }
        match AnalogAcquisitionStatus::from_code(drv.acq_state) {
            Some(s) => Ok(s),
            None => unreached(),
        }
    }

    /// Poll how many samples of the current acquisition are left to read:
    /// one native call.
    pub fn get_samples_left(&self, drv: &mut Driver) -> (r: Result<i32, Error>)
        requires
            old(drv).wf(),
            (*self.device).usable(*old(drv)),
        ensures
            final(drv).wf(),
            old(drv).issued_one(
                *final(drv),
                Call::AnalogInStatusSamplesLeft(self.device.handle),
            ),
            r is Ok <==> !old(drv).fails_next(),
            r matches Ok(v) ==> v == old(drv).samples_left,
            r matches Err(e) ==> reports_script_failure(e, *old(drv)),
    {
        let ok = drv.note(Call::AnalogInStatusSamplesLeft(self.device.handle));
        if !ok {
            return Err(get_last_error(drv));
        }
        Ok(drv.samples_left)
    }

    /// Poll the record acquisition's available/lost/corrupted sample
    /// counts: one native call.
    pub fn get_record_status(&self, drv: &mut Driver) -> (r: Result<(i32, i32, i32), Error>)
        requires
            old(drv).wf(),
            (*self.device).usable(*old(drv)),
        ensures
            final(drv).wf(),
            old(drv).issued_one(*final(drv), Call::AnalogInStatusRecord(self.device.handle)),
            r is Ok <==> !old(drv).fails_next(),
            r matches Ok(t) ==> t.0 == old(drv).record_available && t.1 == old(drv).record_lost
                && t.2 == old(drv).record_corrupted,
            r matches Err(e) ==> reports_script_failure(e, *old(drv)),
    {
        let ok = drv.note(Call::AnalogInStatusRecord(self.device.handle));
        if !ok {
            return Err(get_last_error(drv));
        }
        Ok((drv.record_available, drv.record_lost, drv.record_corrupted))
    }
}

impl<'a> AnalogInChannel<'a> {
    /// Set this channel's front-end offset, given as the bit pattern of
    /// the native double: one native call.
    pub fn set_offset(&self, drv: &mut Driver, offset: u64) -> (r: Result<(), Error>)
        requires
            old(drv).wf(),
            (*self.input.device).usable(*old(drv)),
        ensures
            final(drv).wf(),
            old(drv).issued_one(
                *final(drv),
                Call::AnalogInChannelOffsetSet(self.input.device.handle, self.ix, offset),
            ),
            r is Ok <==> !old(drv).fails_next(),
            r matches Err(e) ==> reports_script_failure(e, *old(drv)),
    {
        let ok = drv.note(Call::AnalogInChannelOffsetSet(self.input.device.handle, self.ix, offset));
        handle_dwf_errors(drv, ok)
    }

    /// Set this channel's front-end range, given as the bit pattern of
    /// the native double: one native call.
    pub fn set_range(&self, drv: &mut Driver, range: u64) -> (r: Result<(), Error>)
        requires
            old(drv).wf(),
            (*self.input.device).usable(*old(drv)),
        ensures
            final(drv).wf(),
            old(drv).issued_one(
                *final(drv),
                Call::AnalogInChannelRangeSet(self.input.device.handle, self.ix, range),
            ),
            r is Ok <==> !old(drv).fails_next(),
            r matches Err(e) ==> reports_script_failure(e, *old(drv)),
    {
        let ok = drv.note(Call::AnalogInChannelRangeSet(self.input.device.handle, self.ix, range));
        handle_dwf_errors(drv, ok)
    }

    /// Transfer `available` newly available samples to the end of `dest`,
    /// preserving its prior contents and their order: one native call.
    /// The caller must have learned `available` from a status or
    /// record-status poll; the call does not itself bound-check against
    /// what the driver has ready.
    pub fn fetch_samples(&self, drv: &mut Driver, dest: &mut Vec<u64>, available: i32) -> (r:
        Result<(), Error>)
        requires
            old(drv).wf(),
            (*self.input.device).usable(*old(drv)),
            0 <= available,
            available as int <= old(drv).samples@.len(),
        ensures
            final(drv).wf(),
            final(drv).log@ == old(drv).log@.push(
                Call::AnalogInStatusData(self.input.device.handle, self.ix, available),
            ),
            final(drv).devices == old(drv).devices,
            final(drv).version == old(drv).version,
            final(drv).next_handle == old(drv).next_handle,
            final(drv).fail_at == old(drv).fail_at,
            final(drv).fail_code == old(drv).fail_code,
            final(drv).fail_message == old(drv).fail_message,
            final(drv).acq_state == old(drv).acq_state,
            final(drv).samples_left == old(drv).samples_left,
            final(drv).record_available == old(drv).record_available,
            final(drv).record_lost == old(drv).record_lost,
            final(drv).record_corrupted == old(drv).record_corrupted,
            r is Ok <==> !old(drv).fails_next(),
            r is Ok ==> final(dest)@ == old(dest)@ + old(drv).samples@.take(available as int)
                && final(drv).samples@ == old(drv).samples@.skip(available as int)
                && final(drv).last_error_code == old(drv).last_error_code
                && final(drv).last_error_message == old(drv).last_error_message,
            r matches Err(e) ==> reports_script_failure(e, *old(drv)) && final(dest)@ == old(
                dest,
            )@ && final(drv).samples@ == old(drv).samples@,
    {
        let ok = drv.note(Call::AnalogInStatusData(self.input.device.handle, self.ix, available));
        if !ok {
            return Err(get_last_error(drv));
        }
        let mut i: i32 = 0;
        while i < available
            invariant
                0 <= i <= available,
                available as int <= old(drv).samples@.len(),
                drv.wf(),
                drv.log@ == old(drv).log@.push(
                    Call::AnalogInStatusData(self.input.device.handle, self.ix, available),
                ),
                drv.devices == old(drv).devices,
                drv.version == old(drv).version,
                drv.next_handle == old(drv).next_handle,
                drv.fail_at == old(drv).fail_at,
                drv.fail_code == old(drv).fail_code,
                drv.fail_message == old(drv).fail_message,
                drv.acq_state == old(drv).acq_state,
                drv.samples_left == old(drv).samples_left,
                drv.record_available == old(drv).record_available,
                drv.record_lost == old(drv).record_lost,
                drv.record_corrupted == old(drv).record_corrupted,
                drv.last_error_code == old(drv).last_error_code,
                drv.last_error_message == old(drv).last_error_message,
                drv.samples@ == old(drv).samples@.skip(i as int),
                dest@ == old(dest)@ + old(drv).samples@.take(i as int),
            decreases available - i,
        {
            let s = drv.samples.remove(0);
            dest.push(s);
            proof {
                assert(old(drv).samples@.skip(i as int).remove(0) =~= old(drv).samples@.skip(
                    i + 1,
                ));
                assert(old(drv).samples@.take(i as int).push(
                    old(drv).samples@.skip(i as int)[0],
                ) =~= old(drv).samples@.take(i + 1));
            }
            i = i + 1;
        }
        Ok(())
    }
}

impl Device {
    /// The analog input capability of this device: no native call.
    pub fn analog_input(&self) -> (r: AnalogIn<'_>)
        ensures
            r.device == self,
    {
        AnalogIn { device: self }
    }
}

} // verus!
