//! A safe, typed accessor layer over a measurement-device driver: device
//! enumeration, scoped device handles, analog output waveform generators,
//! analog input acquisition, and a classified error model.
//!
//! The crate is written against a driver state value ([`driver::Driver`]),
//! an in-process simulation of the vendor's native function table. Every
//! operation states in its contract exactly which native calls it issues,
//! in what order, and what it returns for every outcome of those calls.

pub mod native;
pub mod errors;
pub mod driver;
pub mod enumeration;
pub mod device;
pub mod analog_out;
pub mod analog_io;
pub mod analog_in;

pub use crate::analog_in::{AnalogAcquisitionStatus, AnalogIn, AnalogInChannel};
pub use crate::analog_io::{AnalogIO, AnalogIOChannel, AnalogIOChannelNode};
pub use crate::analog_out::{
    AnalogOut, AnalogOutFunction, AnalogOutIdleMode, AnalogOutNode, TriggerSource,
};
pub use crate::device::{get_version, Device};
pub use crate::enumeration::{devices, DeviceConfigInfo, DeviceInfo, DeviceInfoList};
pub use crate::errors::{Error, ErrorKind};
pub use crate::native::to_c_bool;
