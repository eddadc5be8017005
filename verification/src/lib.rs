//! Runtime access to CP210x USB-to-UART bridge controllers: device
//! enumeration, handle acquisition, and a small set of vendor-specific
//! control transfers (part number query, receiver timeout get/set, string
//! descriptor retrieval).
//!
//! The USB host stack itself is delegated to the `rusb` transport; this
//! crate holds the device classifier, the control-request codec and the
//! error mapper, all verified.

pub mod classify;
pub mod codec;
pub mod constants;
pub mod cp210x_runtime;
pub mod errors;
pub mod transport;

pub use crate::cp210x_runtime::Cp210xRuntime;
pub use crate::errors::{CP210xError, UsbError};
