//! The device handle: the sole resource-owning entity of the layer.
//!
//! A [`Device`] wraps one handle obtained from a successful open of a
//! (device, configuration) pair. The handle is valid from construction
//! until release; release happens at most once, however often
//! [`Device::release`] is called, and its native result is ignored, since
//! releasing a resource must never fail cleanup.

use vstd::prelude::*;
use crate::driver::{Driver, Call, close_calls, lemma_fresh_handle_never_closed,
    lemma_close_calls_push, handle_bounded};
use crate::errors::{Error, handle_dwf_errors, get_last_error, reports_script_failure};
use crate::enumeration::DeviceConfigInfo;

verus! {

/// An open device session. Capability accessors borrow it for their whole
/// life, so none can outlive the session it belongs to. Release needs the
/// driver at hand, so it is an explicit call here; the hardware boundary,
/// which owns no driver value, closes its handle when the session drops.
#[derive(Debug)]
pub struct Device {
    /// The native handle of the session.
    pub handle: usize,
    /// Whether the session has already been released.
    pub released: bool,
}

impl Device {
    /// The handle was handed out by `drv`.
    pub open spec fn issued_by(self, drv: Driver) -> bool {
        self.handle < drv.next_handle
    }

    /// The session may still be used: it was handed out by `drv` and has
    /// not been released.
    pub open spec fn usable(self, drv: Driver) -> bool {
        &&& !self.released
        &&& self.issued_by(drv)
    }

    /// Switch automatic reconfiguration on or off: one native call.
    pub fn set_auto_configure(&self, drv: &mut Driver, enabled: bool) -> (r: Result<(), Error>)
        requires
            old(drv).wf(),
            self.usable(*old(drv)),
        ensures
            final(drv).wf(),
            old(drv).issued_one(*final(drv), Call::DeviceAutoConfigureSet(self.handle, enabled)),
            r is Ok <==> !old(drv).fails_next(),
            r matches Err(e) ==> reports_script_failure(e, *old(drv)),
    {
        let ok = drv.note(Call::DeviceAutoConfigureSet(self.handle, enabled));
        handle_dwf_errors(drv, ok)
    }

    /// Reset the device to its default configuration: one native call.
    pub fn reset(&self, drv: &mut Driver) -> (r: Result<(), Error>)
        requires
            old(drv).wf(),
            self.usable(*old(drv)),
        ensures
            final(drv).wf(),
            old(drv).issued_one(*final(drv), Call::DeviceReset(self.handle)),
            r is Ok <==> !old(drv).fails_next(),
            r matches Err(e) ==> reports_script_failure(e, *old(drv)),
    {
        let ok = drv.note(Call::DeviceReset(self.handle));
        handle_dwf_errors(drv, ok)
    }

    /// Enable or disable the device: one native call.
    pub fn set_enabled(&self, drv: &mut Driver, enabled: bool) -> (r: Result<(), Error>)
        requires
            old(drv).wf(),
            self.usable(*old(drv)),
        ensures
            final(drv).wf(),
            old(drv).issued_one(*final(drv), Call::DeviceEnableSet(self.handle, enabled)),
            r is Ok <==> !old(drv).fails_next(),
            r matches Err(e) ==> reports_script_failure(e, *old(drv)),
    {
        let ok = drv.note(Call::DeviceEnableSet(self.handle, enabled));
        handle_dwf_errors(drv, ok)
    }

    /// Release the device session. The first call issues the native close;
    /// any further call does nothing at all, so the underlying handle is
    /// never closed twice. The close's native result is ignored.
    pub fn release(&mut self, drv: &mut Driver)
        requires
            old(drv).wf(),
            old(self).issued_by(*old(drv)),
        ensures
            final(drv).wf(),
            final(self).handle == old(self).handle,
            final(self).released,
            old(self).released ==> *final(drv) == *old(drv),
            !old(self).released ==> old(drv).issued_one(
                *final(drv),
                Call::DeviceClose(old(self).handle),
            ),
            close_calls(final(drv).log@, old(self).handle) == close_calls(
                old(drv).log@,
                old(self).handle,
            ) + if old(self).released {
                0nat
            } else {
                1nat
            },
    {
        if !self.released {
            let _ok = drv.note(Call::DeviceClose(self.handle));
            self.released = true;
            proof {
                lemma_close_calls_push(
                    old(drv).log@,
                    Call::DeviceClose(old(self).handle),
                    old(self).handle,
                );
            }
        }
    }
}

impl DeviceConfigInfo {
    /// Attempt to open the native device session for this (device,
    /// configuration) pair: a single native call, at most one attempt. On
    /// success the returned [`Device`] wraps a handle never handed out
    /// before (in particular, never closed); on failure the classified
    /// error is returned.
    pub fn open(&self, drv: &mut Driver) -> (r: Result<Device, Error>)
        requires
            old(drv).wf(),
            old(drv).next_handle < usize::MAX,
        ensures
            final(drv).wf(),
            final(drv).log@ == old(drv).log@.push(
                Call::DeviceConfigOpen(self.device_ix, self.config_ix),
            ),
            final(drv).devices == old(drv).devices,
            final(drv).version == old(drv).version,
            final(drv).fail_at == old(drv).fail_at,
            final(drv).fail_code == old(drv).fail_code,
            final(drv).fail_message == old(drv).fail_message,
            final(drv).acq_state == old(drv).acq_state,
            final(drv).samples_left == old(drv).samples_left,
            final(drv).record_available == old(drv).record_available,
            final(drv).record_lost == old(drv).record_lost,
            final(drv).record_corrupted == old(drv).record_corrupted,
            final(drv).samples == old(drv).samples,
            r is Ok <==> !old(drv).fails_next(),
            r matches Ok(dev) ==> dev.handle == old(drv).next_handle && !dev.released
                && dev.usable(*final(drv)) && final(drv).next_handle == old(drv).next_handle + 1
                && close_calls(final(drv).log@, dev.handle) == 0 && final(drv).last_error_code
                == old(drv).last_error_code && final(drv).last_error_message == old(
                drv,
            ).last_error_message,
            r matches Err(e) ==> reports_script_failure(e, *old(drv)) && final(drv).next_handle
                == old(drv).next_handle && final(drv).last_error_code == old(drv).fail_code
                && final(drv).last_error_message@ == old(drv).fail_message@,
    {
        let ok = drv.note(Call::DeviceConfigOpen(self.device_ix, self.config_ix));
        if !ok {
            return Err(get_last_error(drv));
        }
        let handle = drv.next_handle;
        drv.next_handle = drv.next_handle + 1;
        proof {
            assert forall|i: int| 0 <= i < drv.log@.len() implies handle_bounded(
                #[trigger] drv.log@[i],
                drv.next_handle,
            ) by {
                assert(handle_bounded(drv.log@[i], handle));
            }
            lemma_fresh_handle_never_closed(drv.log@, handle, handle);
        }
        Ok(Device { handle: handle, released: false })
    }
}

/// The version string of the driver library, queried with one native call
/// whose native result the original interface ignores.
pub fn get_version(drv: &mut Driver) -> (r: String)
    requires
        old(drv).wf(),
    ensures
        final(drv).wf(),
        old(drv).issued_one(*final(drv), Call::GetVersion),
        r@ == old(drv).version@,
{
    let _ok = drv.note(Call::GetVersion);
    drv.version.clone()
}

} // verus!
