//! Analog I/O: a three-level borrow chain mirroring the native
//! channel/node addressing scheme. Channels and nodes are pure
//! index-capturing views; only the device-wide enable and the node value
//! setter issue native calls.

use vstd::prelude::*;
use crate::device::Device;
use crate::driver::{Driver, Call};
use crate::errors::{Error, handle_dwf_errors, reports_script_failure};

verus! {

/// The analog I/O capability of an open device: a non-owning view.
pub struct AnalogIO<'a> {
    pub device: &'a Device,
}

/// One analog I/O channel: a non-owning view.
pub struct AnalogIOChannel<'a> {
    pub io: &'a AnalogIO<'a>,
    pub ix: i32,
}

/// One node of an analog I/O channel: a non-owning view.
pub struct AnalogIOChannelNode<'a> {
    pub channel: &'a AnalogIOChannel<'a>,
    pub ix: i32,
}

impl<'a> AnalogIO<'a> {
    /// Device-wide analog I/O enable: one native call.
    pub fn set_enabled(&self, drv: &mut Driver, enabled: bool) -> (r: Result<(), Error>)
        requires
            old(drv).wf(),
            (*self.device).usable(*old(drv)),
        ensures
            final(drv).wf(),
            old(drv).issued_one(
                *final(drv),
                Call::AnalogIoEnableSet(self.device.handle, enabled),
            ),
            r is Ok <==> !old(drv).fails_next(),
            r matches Err(e) ==> reports_script_failure(e, *old(drv)),
    {
        let ok = drv.note(Call::AnalogIoEnableSet(self.device.handle, enabled));
        handle_dwf_errors(drv, ok)
    }

    /// The analog I/O channel `ix`: no native call.
    pub fn channel(&self, ix: i32) -> (r: AnalogIOChannel<'_>)
        ensures
            r.io == self,
            r.ix == ix,
    {
        AnalogIOChannel { io: self, ix }
    }
}

impl<'a> AnalogIOChannel<'a> {
    /// The node `ix` of this channel: no native call.
    pub fn node(&self, ix: i32) -> (r: AnalogIOChannelNode<'_>)
        ensures
            r.channel == self,
            r.ix == ix,
    {
        AnalogIOChannelNode { channel: self, ix }
    }
}

impl<'a> AnalogIOChannelNode<'a> {
    /// Set this node's value, given as the bit pattern of the native
    /// double: one native call.
    pub fn set_value(&self, drv: &mut Driver, value: u64) -> (r: Result<(), Error>)
        requires
            old(drv).wf(),
            (*self.channel.io.device).usable(*old(drv)),
        ensures
            final(drv).wf(),
            old(drv).issued_one(
                *final(drv),
                Call::AnalogIoChannelNodeSet(
                    self.channel.io.device.handle,
                    self.channel.ix,
                    self.ix,
                    value,
                ),
            ),
            r is Ok <==> !old(drv).fails_next(),
            r matches Err(e) ==> reports_script_failure(e, *old(drv)),
    {
        let ok = drv.note(
            Call::AnalogIoChannelNodeSet(
                self.channel.io.device.handle,
                self.channel.ix,
                self.ix,
                value,
            ),
        );
        handle_dwf_errors(drv, ok)
    }
}

impl Device {
    /// The analog I/O capability of this device: no native call.
    pub fn analog_io(&self) -> (r: AnalogIO<'_>)
        ensures
            r.device == self,
    {
        AnalogIO { device: self }
    }
}

} // verus!
