//! Analog output: one generator channel per [`AnalogOut`], one
//! function-generator node per [`AnalogOutNode`], both non-owning views
//! borrowed from their parent.

use vstd::prelude::*;
use crate::device::Device;
use crate::driver::{Driver, Call, NodeSetter};
use crate::errors::{Error, handle_dwf_errors, get_last_error, reports_script_failure};
use crate::native::{FUNC_DC, FUNC_SINE, FUNC_SQUARE, FUNC_TRIANGLE, FUNC_RAMP_UP, FUNC_RAMP_DOWN,
    TRIGSRC_NONE, TRIGSRC_PC, TRIGSRC_DETECTOR_ANALOG_IN, TRIGSRC_DETECTOR_DIGITAL_IN,
    TRIGSRC_ANALOG_IN, TRIGSRC_DIGITAL_IN, TRIGSRC_DIGITAL_OUT, TRIGSRC_ANALOG_OUT_1,
    TRIGSRC_ANALOG_OUT_2, TRIGSRC_ANALOG_OUT_3, TRIGSRC_ANALOG_OUT_4, TRIGSRC_EXTERNAL_1,
    TRIGSRC_EXTERNAL_2, TRIGSRC_EXTERNAL_3, TRIGSRC_EXTERNAL_4, TRIGSRC_HIGH, TRIGSRC_LOW,
    IDLE_DISABLE, IDLE_OFFSET, IDLE_INITIAL};

verus! {

/// The source that triggers generation, mirroring the native
/// trigger-source code space one for one.
#[derive(Clone, Copy, PartialEq, Eq, Structural, Debug)]
pub enum TriggerSource {
    NoTrigger,
    PC,
    DetectorAnalogIn,
    DetectorDigitalIn,
    AnalogIn,
    DigitalIn,
    DigitalOut,
    AnalogOut1,
    AnalogOut2,
    AnalogOut3,
    AnalogOut4,
    External1,
    External2,
    External3,
    External4,
    High,
    Low,
}

/// The native code that stands for `t`.
pub open spec fn spec_trigsrc_code(t: TriggerSource) -> i32 {
    match t {
        TriggerSource::NoTrigger => TRIGSRC_NONE,
        TriggerSource::PC => TRIGSRC_PC,
        TriggerSource::DetectorAnalogIn => TRIGSRC_DETECTOR_ANALOG_IN,
        TriggerSource::DetectorDigitalIn => TRIGSRC_DETECTOR_DIGITAL_IN,
        TriggerSource::AnalogIn => TRIGSRC_ANALOG_IN,
        TriggerSource::DigitalIn => TRIGSRC_DIGITAL_IN,
        TriggerSource::DigitalOut => TRIGSRC_DIGITAL_OUT,
        TriggerSource::AnalogOut1 => TRIGSRC_ANALOG_OUT_1,
        TriggerSource::AnalogOut2 => TRIGSRC_ANALOG_OUT_2,
        TriggerSource::AnalogOut3 => TRIGSRC_ANALOG_OUT_3,
        TriggerSource::AnalogOut4 => TRIGSRC_ANALOG_OUT_4,
        TriggerSource::External1 => TRIGSRC_EXTERNAL_1,
        TriggerSource::External2 => TRIGSRC_EXTERNAL_2,
        TriggerSource::External3 => TRIGSRC_EXTERNAL_3,
        TriggerSource::External4 => TRIGSRC_EXTERNAL_4,
        TriggerSource::High => TRIGSRC_HIGH,
        TriggerSource::Low => TRIGSRC_LOW,
    }
}

/// The trigger source a native code stands for, if any.
pub open spec fn spec_trigsrc_of_code(code: i32) -> Option<TriggerSource> {
    if code == TRIGSRC_NONE {
        Some(TriggerSource::NoTrigger)
    } else if code == TRIGSRC_PC {
        Some(TriggerSource::PC)
    } else if code == TRIGSRC_DETECTOR_ANALOG_IN {
        Some(TriggerSource::DetectorAnalogIn)
    } else if code == TRIGSRC_DETECTOR_DIGITAL_IN {
        Some(TriggerSource::DetectorDigitalIn)
    } else if code == TRIGSRC_ANALOG_IN {
        Some(TriggerSource::AnalogIn)
    } else if code == TRIGSRC_DIGITAL_IN {
        Some(TriggerSource::DigitalIn)
    } else if code == TRIGSRC_DIGITAL_OUT {
        Some(TriggerSource::DigitalOut)
    } else if code == TRIGSRC_ANALOG_OUT_1 {
        Some(TriggerSource::AnalogOut1)
    } else if code == TRIGSRC_ANALOG_OUT_2 {
        Some(TriggerSource::AnalogOut2)
    } else if code == TRIGSRC_ANALOG_OUT_3 {
        Some(TriggerSource::AnalogOut3)
    } else if code == TRIGSRC_ANALOG_OUT_4 {
        Some(TriggerSource::AnalogOut4)
    } else if code == TRIGSRC_EXTERNAL_1 {
        Some(TriggerSource::External1)
    } else if code == TRIGSRC_EXTERNAL_2 {
        Some(TriggerSource::External2)
    } else if code == TRIGSRC_EXTERNAL_3 {
        Some(TriggerSource::External3)
    } else if code == TRIGSRC_EXTERNAL_4 {
        Some(TriggerSource::External4)
    } else if code == TRIGSRC_HIGH {
        Some(TriggerSource::High)
    } else if code == TRIGSRC_LOW {
        Some(TriggerSource::Low)
    } else {
        None
    }
}

impl TriggerSource {
    /// The native trigger-source code.
    pub fn code(self) -> (c: i32)
        ensures
            c == spec_trigsrc_code(self),
    {
        match self {
            TriggerSource::NoTrigger => TRIGSRC_NONE,
            TriggerSource::PC => TRIGSRC_PC,
            TriggerSource::DetectorAnalogIn => TRIGSRC_DETECTOR_ANALOG_IN,
            TriggerSource::DetectorDigitalIn => TRIGSRC_DETECTOR_DIGITAL_IN,
            TriggerSource::AnalogIn => TRIGSRC_ANALOG_IN,
            TriggerSource::DigitalIn => TRIGSRC_DIGITAL_IN,
            TriggerSource::DigitalOut => TRIGSRC_DIGITAL_OUT,
            TriggerSource::AnalogOut1 => TRIGSRC_ANALOG_OUT_1,
            TriggerSource::AnalogOut2 => TRIGSRC_ANALOG_OUT_2,
            TriggerSource::AnalogOut3 => TRIGSRC_ANALOG_OUT_3,
            TriggerSource::AnalogOut4 => TRIGSRC_ANALOG_OUT_4,
            TriggerSource::External1 => TRIGSRC_EXTERNAL_1,
            TriggerSource::External2 => TRIGSRC_EXTERNAL_2,
            TriggerSource::External3 => TRIGSRC_EXTERNAL_3,
            TriggerSource::External4 => TRIGSRC_EXTERNAL_4,
            TriggerSource::High => TRIGSRC_HIGH,
            TriggerSource::Low => TRIGSRC_LOW,
        }
    }

    /// The trigger source a native code stands for; `None` for a code
    /// outside the documented space.
    pub fn from_code(code: i32) -> (t: Option<TriggerSource>)
        ensures
            t == spec_trigsrc_of_code(code),
    {
        if code == TRIGSRC_NONE {
            Some(TriggerSource::NoTrigger)
        } else if code == TRIGSRC_PC {
            Some(TriggerSource::PC)
        } else if code == TRIGSRC_DETECTOR_ANALOG_IN {
            Some(TriggerSource::DetectorAnalogIn)
        } else if code == TRIGSRC_DETECTOR_DIGITAL_IN {
            Some(TriggerSource::DetectorDigitalIn)
        } else if code == TRIGSRC_ANALOG_IN {
            Some(TriggerSource::AnalogIn)
        } else if code == TRIGSRC_DIGITAL_IN {
            Some(TriggerSource::DigitalIn)
        } else if code == TRIGSRC_DIGITAL_OUT {
            Some(TriggerSource::DigitalOut)
        } else if code == TRIGSRC_ANALOG_OUT_1 {
            Some(TriggerSource::AnalogOut1)
        } else if code == TRIGSRC_ANALOG_OUT_2 {
            Some(TriggerSource::AnalogOut2)
        } else if code == TRIGSRC_ANALOG_OUT_3 {
            Some(TriggerSource::AnalogOut3)
        } else if code == TRIGSRC_ANALOG_OUT_4 {
            Some(TriggerSource::AnalogOut4)
        } else if code == TRIGSRC_EXTERNAL_1 {
            Some(TriggerSource::External1)
        } else if code == TRIGSRC_EXTERNAL_2 {
            Some(TriggerSource::External2)
        } else if code == TRIGSRC_EXTERNAL_3 {
            Some(TriggerSource::External3)
        } else if code == TRIGSRC_EXTERNAL_4 {
            Some(TriggerSource::External4)
        } else if code == TRIGSRC_HIGH {
            Some(TriggerSource::High)
        } else if code == TRIGSRC_LOW {
            Some(TriggerSource::Low)
        } else {
            None
        }
    }
}

/// Every trigger source round-trips through its native code.
pub proof fn lemma_trigsrc_round_trip()
    ensures
        forall|t: TriggerSource| #[trigger] spec_trigsrc_of_code(spec_trigsrc_code(t)) == Some(t),
{
}

/// What the generator emits while idle, mirroring the native idle-mode
/// code space one for one.
#[derive(Clone, Copy, PartialEq, Eq, Structural, Debug)]
pub enum AnalogOutIdleMode {
    Disable,
    Offset,
    Initial,
}

/// The native code that stands for `m`.
pub open spec fn spec_idle_code(m: AnalogOutIdleMode) -> i32 {
    match m {
        AnalogOutIdleMode::Disable => IDLE_DISABLE,
        AnalogOutIdleMode::Offset => IDLE_OFFSET,
        AnalogOutIdleMode::Initial => IDLE_INITIAL,
    }
}

/// The idle mode a native code stands for, if any.
pub open spec fn spec_idle_of_code(code: i32) -> Option<AnalogOutIdleMode> {
    if code == IDLE_DISABLE {
        Some(AnalogOutIdleMode::Disable)
    } else if code == IDLE_OFFSET {
        Some(AnalogOutIdleMode::Offset)
    } else if code == IDLE_INITIAL {
        Some(AnalogOutIdleMode::Initial)
    } else {
        None
    }
}

impl AnalogOutIdleMode {
    /// The native idle-mode code.
    pub fn code(self) -> (c: i32)
        ensures
            c == spec_idle_code(self),
    {
        match self {
            AnalogOutIdleMode::Disable => IDLE_DISABLE,
            AnalogOutIdleMode::Offset => IDLE_OFFSET,
            AnalogOutIdleMode::Initial => IDLE_INITIAL,
        }
    }

    /// The idle mode a native code stands for; `None` for a code outside
    /// the documented space.
    pub fn from_code(code: i32) -> (m: Option<AnalogOutIdleMode>)
        ensures
            m == spec_idle_of_code(code),
    {
        if code == IDLE_DISABLE {
            Some(AnalogOutIdleMode::Disable)
        } else if code == IDLE_OFFSET {
            Some(AnalogOutIdleMode::Offset)
        } else if code == IDLE_INITIAL {
            Some(AnalogOutIdleMode::Initial)
        } else {
            None
        }
    }
}

/// Every idle mode round-trips through its native code.
pub proof fn lemma_idle_mode_round_trip()
    ensures
        forall|m: AnalogOutIdleMode| #[trigger] spec_idle_of_code(spec_idle_code(m)) == Some(m),
{
}

/// The waveform a generator node produces. The numeric parameters carry
/// the bit pattern of the native double value, which this layer passes
/// through uninterpreted; the constant variant carries only the offset.
#[derive(Clone, Copy, PartialEq, Eq, Structural, Debug)]
pub enum AnalogOutFunction {
    Const { offset: u64 },
    RampUp { frequency: u64, amplitude: u64, offset: u64, symmetry: u64, phase_deg: u64 },
    RampDown { frequency: u64, amplitude: u64, offset: u64, symmetry: u64, phase_deg: u64 },
    Sine { frequency: u64, amplitude: u64, offset: u64, symmetry: u64, phase_deg: u64 },
    Square { frequency: u64, amplitude: u64, offset: u64, symmetry: u64, phase_deg: u64 },
    Triangle { frequency: u64, amplitude: u64, offset: u64, symmetry: u64, phase_deg: u64 },
}

/// The fixed sequence of node setter calls that applies `func`: the shape
/// first, then exactly the parameter setters meaningful for that shape,
/// in the order frequency, amplitude, offset, symmetry, phase. The
/// constant variant takes only the shape and the offset.
pub open spec fn spec_setter_plan(func: AnalogOutFunction) -> Seq<NodeSetter> {
    match func {
        AnalogOutFunction::Const { offset } => seq![
            NodeSetter::Shape(FUNC_DC),
            NodeSetter::Offset(offset),
        ],
        AnalogOutFunction::RampUp { frequency, amplitude, offset, symmetry, phase_deg } => seq![
            NodeSetter::Shape(FUNC_RAMP_UP),
            NodeSetter::Frequency(frequency),
            NodeSetter::Amplitude(amplitude),
            NodeSetter::Offset(offset),
            NodeSetter::Symmetry(symmetry),
            NodeSetter::Phase(phase_deg),
        ],
        AnalogOutFunction::RampDown { frequency, amplitude, offset, symmetry, phase_deg } => seq![
            NodeSetter::Shape(FUNC_RAMP_DOWN),
            NodeSetter::Frequency(frequency),
            NodeSetter::Amplitude(amplitude),
            NodeSetter::Offset(offset),
            NodeSetter::Symmetry(symmetry),
            NodeSetter::Phase(phase_deg),
        ],
        AnalogOutFunction::Sine { frequency, amplitude, offset, symmetry, phase_deg } => seq![
            NodeSetter::Shape(FUNC_SINE),
            NodeSetter::Frequency(frequency),
            NodeSetter::Amplitude(amplitude),
            NodeSetter::Offset(offset),
            NodeSetter::Symmetry(symmetry),
            NodeSetter::Phase(phase_deg),
        ],
        AnalogOutFunction::Square { frequency, amplitude, offset, symmetry, phase_deg } => seq![
            NodeSetter::Shape(FUNC_SQUARE),
            NodeSetter::Frequency(frequency),
            NodeSetter::Amplitude(amplitude),
            NodeSetter::Offset(offset),
            NodeSetter::Symmetry(symmetry),
            NodeSetter::Phase(phase_deg),
        ],
        AnalogOutFunction::Triangle { frequency, amplitude, offset, symmetry, phase_deg } => seq![
            NodeSetter::Shape(FUNC_TRIANGLE),
            NodeSetter::Frequency(frequency),
            NodeSetter::Amplitude(amplitude),
            NodeSetter::Offset(offset),
            NodeSetter::Symmetry(symmetry),
            NodeSetter::Phase(phase_deg),
        ],
    }
}

/// The constant variant plans exactly two setter calls (shape, offset);
/// every waveform variant plans exactly six (shape, frequency, amplitude,
/// offset, symmetry, phase).
pub proof fn lemma_setter_plan_lengths(func: AnalogOutFunction)
    ensures
        (func matches AnalogOutFunction::Const { .. }) ==> spec_setter_plan(func).len() == 2,
        !(func matches AnalogOutFunction::Const { .. }) ==> spec_setter_plan(func).len() == 6,
{
}

/// The setter plan of `func`, as executable data. The real-hardware
/// boundary applies the same plan, so the dispatch lives here once.
pub fn setter_plan(func: &AnalogOutFunction) -> (plan: Vec<NodeSetter>)
    ensures
        plan@ == spec_setter_plan(*func),
{
    let mut plan: Vec<NodeSetter> = Vec::new();
    match *func {
        AnalogOutFunction::Const { offset } => {
            plan.push(NodeSetter::Shape(FUNC_DC));
            plan.push(NodeSetter::Offset(offset));
        },
        AnalogOutFunction::RampUp { frequency, amplitude, offset, symmetry, phase_deg } => {
            plan.push(NodeSetter::Shape(FUNC_RAMP_UP));
            plan.push(NodeSetter::Frequency(frequency));
            plan.push(NodeSetter::Amplitude(amplitude));
            plan.push(NodeSetter::Offset(offset));
            plan.push(NodeSetter::Symmetry(symmetry));
            plan.push(NodeSetter::Phase(phase_deg));
        },
        AnalogOutFunction::RampDown { frequency, amplitude, offset, symmetry, phase_deg } => {
            plan.push(NodeSetter::Shape(FUNC_RAMP_DOWN));
            plan.push(NodeSetter::Frequency(frequency));
            plan.push(NodeSetter::Amplitude(amplitude));
            plan.push(NodeSetter::Offset(offset));
            plan.push(NodeSetter::Symmetry(symmetry));
            plan.push(NodeSetter::Phase(phase_deg));
        },
        AnalogOutFunction::Sine { frequency, amplitude, offset, symmetry, phase_deg } => {
            plan.push(NodeSetter::Shape(FUNC_SINE));
            plan.push(NodeSetter::Frequency(frequency));
            plan.push(NodeSetter::Amplitude(amplitude));
            plan.push(NodeSetter::Offset(offset));
            plan.push(NodeSetter::Symmetry(symmetry));
            plan.push(NodeSetter::Phase(phase_deg));
        },
        AnalogOutFunction::Square { frequency, amplitude, offset, symmetry, phase_deg } => {
            plan.push(NodeSetter::Shape(FUNC_SQUARE));
            plan.push(NodeSetter::Frequency(frequency));
            plan.push(NodeSetter::Amplitude(amplitude));
            plan.push(NodeSetter::Offset(offset));
            plan.push(NodeSetter::Symmetry(symmetry));
            plan.push(NodeSetter::Phase(phase_deg));
        },
        AnalogOutFunction::Triangle { frequency, amplitude, offset, symmetry, phase_deg } => {
            plan.push(NodeSetter::Shape(FUNC_TRIANGLE));
            plan.push(NodeSetter::Frequency(frequency));
            plan.push(NodeSetter::Amplitude(amplitude));
            plan.push(NodeSetter::Offset(offset));
            plan.push(NodeSetter::Symmetry(symmetry));
            plan.push(NodeSetter::Phase(phase_deg));
        },
    }
    proof {
        assert(plan@ =~= spec_setter_plan(*func));
    }
    plan
}

/// The node setter calls of `plan` on node (`h`, `ch`, `node`).
pub open spec fn node_calls(h: usize, ch: i32, node: i32, plan: Seq<NodeSetter>) -> Seq<Call> {
    plan.map_values(|s: NodeSetter| Call::AnalogOutNodeSet(h, ch, node, s))
}

/// One generator channel of an open device: a non-owning view.
pub struct AnalogOut<'a> {
    pub device: &'a Device,
    pub ix: i32,
}

/// One function-generator node of a generator channel: a non-owning view.
pub struct AnalogOutNode<'a> {
    pub out: &'a AnalogOut<'a>,
    pub ix: i32,
}

impl<'a> AnalogOutNode<'a> {
    /// Apply a waveform function to this node: the shape call first, then
    /// the parameter setters of the shape, in fixed order. Each call is
    /// independently fallible; the operation stops at the first failing
    /// call, leaving the calls before it applied — there is no rollback.
    pub fn set_function(&self, drv: &mut Driver, func: AnalogOutFunction) -> (r: Result<
        (),
        Error,
    >)
        requires
            old(drv).wf(),
            (*self.out.device).usable(*old(drv)),
        ensures
            final(drv).wf(),
            old(drv).same_core(*final(drv)),
            ({
                let plan = node_calls(
                    self.out.device.handle,
                    self.out.ix,
                    self.ix,
                    spec_setter_plan(func),
                );
                &&& (r is Ok <==> !old(drv).fails_within(plan.len() as int))
                &&& (r is Ok ==> final(drv).log@ == old(drv).log@ + plan
                    && final(drv).last_error_code == old(drv).last_error_code
                    && final(drv).last_error_message == old(drv).last_error_message)
                &&& (forall|k: int|
                    0 <= k < plan.len() && #[trigger] old(drv).fails_at_index(
                        old(drv).log@.len() + k,
                    ) ==> final(drv).log@ == old(drv).log@ + plan.take(k + 1))
                &&& (r matches Err(e) ==> reports_script_failure(e, *old(drv)))
            }),
    {
        let plan = setter_plan(&func);
        let n = plan.len();
        let mut k: usize = 0;
        while k < n
            invariant
                n == plan@.len(),
                plan@ == spec_setter_plan(func),
                k <= n,
                drv.wf(),
                old(drv).same_core(*drv),
                self.out.device.handle < drv.next_handle,
                drv.log@ == old(drv).log@ + node_calls(
                    self.out.device.handle,
                    self.out.ix,
                    self.ix,
                    plan@.take(k as int),
                ),
                forall|j: int|
                    0 <= j < k ==> !#[trigger] old(drv).fails_at_index(old(drv).log@.len() + j),
                drv.last_error_code == old(drv).last_error_code,
                drv.last_error_message == old(drv).last_error_message,
            decreases n - k,
        {
            let s = plan[k];
            let ok = drv.note(
                Call::AnalogOutNodeSet(self.out.device.handle, self.out.ix, self.ix, s),
            );
            if !ok {
                proof {
                    assert(drv.log@ =~= old(drv).log@ + node_calls(
                        self.out.device.handle,
                        self.out.ix,
                        self.ix,
                        plan@.take(k + 1),
                    ));
                }
                return Err(get_last_error(drv));
            }
            k = k + 1;
            proof {
                assert(drv.log@ =~= old(drv).log@ + node_calls(
                    self.out.device.handle,
                    self.out.ix,
                    self.ix,
                    plan@.take(k as int),
                ));
            }
        }
        proof {
            assert(plan@.take(n as int) =~= plan@);
            if old(drv).fails_within(n as int) {
                let f = old(drv).fail_at->Some_0;
                assert(old(drv).fails_at_index(
                    old(drv).log@.len() + (f - old(drv).log@.len()),
                ));
            }
        }
        Ok(())
    }

    /// Arm or disarm this node independently of its function: one native
    /// call.
    pub fn set_enabled(&self, drv: &mut Driver, enabled: bool) -> (r: Result<(), Error>)
        requires
            old(drv).wf(),
            (*self.out.device).usable(*old(drv)),
        ensures
            final(drv).wf(),
            old(drv).issued_one(
                *final(drv),
                Call::AnalogOutNodeEnableSet(self.out.device.handle, self.out.ix, self.ix, enabled),
            ),
            r is Ok <==> !old(drv).fails_next(),
            r matches Err(e) ==> reports_script_failure(e, *old(drv)),
    {
        let ok = drv.note(
            Call::AnalogOutNodeEnableSet(self.out.device.handle, self.out.ix, self.ix, enabled),
        );
        handle_dwf_errors(drv, ok)
    }
}

impl<'a> AnalogOut<'a> {
    /// The function-generator node `ix` of this channel: no native call.
    pub fn node(&self, ix: u32) -> (r: AnalogOutNode<'_>)
        ensures
            r.out == self,
            r.ix == ix as i32,
    {
        AnalogOutNode { out: self, ix: #[verifier::truncate] (ix as i32) }
    }

    /// How long generation runs once started, in whole nanoseconds of the
    /// given duration: one native call.
    pub fn set_duration(&self, drv: &mut Driver, duration: time::Duration) -> (r: Result<
        (),
        Error,
    >)
        requires
            old(drv).wf(),
            (*self.device).usable(*old(drv)),
        ensures
            final(drv).wf(),
            old(drv).issued_one(
                *final(drv),
                Call::AnalogOutRunSet(
                    self.device.handle,
                    self.ix,
                    spec_whole_nanoseconds(duration),
                ),
            ),
            r is Ok <==> !old(drv).fails_next(),
            r matches Err(e) ==> reports_script_failure(e, *old(drv)),
    {
        let ns = duration.whole_nanoseconds();
        self.set_duration_ns(drv, ns)
    }

    /// How long generation runs once started, given directly in
    /// nanoseconds: one native call.
    pub fn set_duration_ns(&self, drv: &mut Driver, ns: i128) -> (r: Result<(), Error>)
        requires
            old(drv).wf(),
            (*self.device).usable(*old(drv)),
        ensures
            final(drv).wf(),
            old(drv).issued_one(*final(drv), Call::AnalogOutRunSet(self.device.handle, self.ix, ns)),
            r is Ok <==> !old(drv).fails_next(),
            r matches Err(e) ==> reports_script_failure(e, *old(drv)),
    {
        let ok = drv.note(Call::AnalogOutRunSet(self.device.handle, self.ix, ns));
        handle_dwf_errors(drv, ok)
    }

    /// How many times the generator repeats its run: one native call.
    pub fn set_repeat_count(&self, drv: &mut Driver, repeat_cnt: i32) -> (r: Result<(), Error>)
        requires
            old(drv).wf(),
            (*self.device).usable(*old(drv)),
        ensures
            final(drv).wf(),
            old(drv).issued_one(
                *final(drv),
                Call::AnalogOutRepeatSet(self.device.handle, self.ix, repeat_cnt),
            ),
            r is Ok <==> !old(drv).fails_next(),
            r matches Err(e) ==> reports_script_failure(e, *old(drv)),
    {
        let ok = drv.note(Call::AnalogOutRepeatSet(self.device.handle, self.ix, repeat_cnt));
        handle_dwf_errors(drv, ok)
    }

    /// What triggers generation: one native call carrying the source's
    /// native code.
    pub fn set_trigger_source(&self, drv: &mut Driver, src: TriggerSource) -> (r: Result<
        (),
        Error,
    >)
        requires
            old(drv).wf(),
            (*self.device).usable(*old(drv)),
        ensures
            final(drv).wf(),
            old(drv).issued_one(
                *final(drv),
                Call::AnalogOutTriggerSourceSet(
                    self.device.handle,
                    self.ix,
                    spec_trigsrc_code(src),
                ),
            ),
            r is Ok <==> !old(drv).fails_next(),
            r matches Err(e) ==> reports_script_failure(e, *old(drv)),
    {
        let code = src.code();
        let ok = drv.note(Call::AnalogOutTriggerSourceSet(self.device.handle, self.ix, code));
        handle_dwf_errors(drv, ok)
    }

    /// What the generator emits while idle: one native call carrying the
    /// mode's native code.
    pub fn set_idle_mode(&self, drv: &mut Driver, mode: AnalogOutIdleMode) -> (r: Result<
        (),
        Error,
    >)
        requires
            old(drv).wf(),
            (*self.device).usable(*old(drv)),
        ensures
            final(drv).wf(),
            old(drv).issued_one(
                *final(drv),
                Call::AnalogOutIdleSet(self.device.handle, self.ix, spec_idle_code(mode)),
            ),
            r is Ok <==> !old(drv).fails_next(),
            r matches Err(e) ==> reports_script_failure(e, *old(drv)),
    {
        let code = mode.code();
        let ok = drv.note(Call::AnalogOutIdleSet(self.device.handle, self.ix, code));
        handle_dwf_errors(drv, ok)
    }

    /// Commit the pending configuration and begin generation: the
    /// configure call with the start flag set.
    pub fn start(&self, drv: &mut Driver) -> (r: Result<(), Error>)
        requires
            old(drv).wf(),
            (*self.device).usable(*old(drv)),
        ensures
            final(drv).wf(),
            old(drv).issued_one(
                *final(drv),
                Call::AnalogOutConfigure(self.device.handle, self.ix, true),
            ),
            r is Ok <==> !old(drv).fails_next(),
            r matches Err(e) ==> reports_script_failure(e, *old(drv)),
    {
        let ok = drv.note(Call::AnalogOutConfigure(self.device.handle, self.ix, true));
        handle_dwf_errors(drv, ok)
    }

    /// Halt generation: the configure call with the start flag cleared.
    pub fn stop(&self, drv: &mut Driver) -> (r: Result<(), Error>)
        requires
            old(drv).wf(),
            (*self.device).usable(*old(drv)),
        ensures
            final(drv).wf(),
            old(drv).issued_one(
                *final(drv),
                Call::AnalogOutConfigure(self.device.handle, self.ix, false),
            ),
            r is Ok <==> !old(drv).fails_next(),
            r matches Err(e) ==> reports_script_failure(e, *old(drv)),
    {
        let ok = drv.note(Call::AnalogOutConfigure(self.device.handle, self.ix, false));
        handle_dwf_errors(drv, ok)
    }
}

impl Device {
    /// The generator channel `ix` of this device: no native call.
    pub fn analog_out(&self, ix: u32) -> (r: AnalogOut<'_>)
        ensures
            r.device == self,
            r.ix == ix as i32,
    {
        AnalogOut { device: self, ix: #[verifier::truncate] (ix as i32) }
    }
}

// The run duration crosses the native boundary as a count of nanoseconds
// taken from the `time` crate's duration type, which is opaque here.
#[verifier::external_type_specification]
#[verifier::external_body]
pub struct ExSignedDuration(time::SignedDuration);

/// The total number of nanoseconds of a duration. It is a function of the
/// duration alone (whole seconds times a billion, plus the sub-second
/// nanoseconds, exact in an i128), so the result can carry a name here.
pub uninterp spec fn spec_whole_nanoseconds(d: time::SignedDuration) -> i128;

/// Relies on time::SignedDuration::whole_nanoseconds: the total number of
/// nanoseconds of the duration, exact, always representable in an i128.
pub assume_specification[ time::SignedDuration::whole_nanoseconds ](d: time::SignedDuration) -> (r:
    i128)
    ensures
        r == spec_whole_nanoseconds(d),
;

} // verus!
