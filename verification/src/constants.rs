//! Fixed constants of the CP210x family: part number tags and the shared
//! control-transfer timeout.

use vstd::prelude::*;

verus! {

pub const CP2101_PARTNUM: u8 = 0x01;

pub const CP2102_PARTNUM: u8 = 0x02;

pub const CP2103_PARTNUM: u8 = 0x03;

pub const CP2104_PARTNUM: u8 = 0x04;

pub const CP2105_PARTNUM: u8 = 0x05;

pub const CP2108_PARTNUM: u8 = 0x08;

pub const CP210X_PARTNUM_CP2102N_QFN28: u8 = 0x20;

pub const CP210X_PARTNUM_CP2102N_QFN24: u8 = 0x21;

pub const CP210X_PARTNUM_CP2102N_QFN20: u8 = 0x22;

/// Every control transfer shares one 7-second timeout.
pub const DEFAULT_TIMEOUT_SECS: u64 = 7;

/// The device-level class code that defers classification to the interfaces.
pub const USB_CLASS_PER_INTERFACE: u8 = 0x00;

/// The interface class code reserved for vendor-specific protocols.
pub const USB_CLASS_VENDOR_SPEC: u8 = 0xFF;

} // verus!
