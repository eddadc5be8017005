//! The device classifier: a pure predicate over descriptor data that
//! decides whether an enumerated USB device is a CP210x part, without
//! opening it.

use vstd::prelude::*;

use crate::constants::USB_CLASS_PER_INTERFACE;
use crate::constants::USB_CLASS_VENDOR_SPEC;

verus! {

/// The fields the classifier reads from a device descriptor.
#[derive(Debug, Copy, Clone, Eq, PartialEq)]
pub struct DeviceFingerprint {
    /// The device-level class code (`bDeviceClass`).
    pub class_code: u8,
    /// The string-descriptor index of the manufacturer string, if declared.
    pub manufacturer_string_index: Option<u8>,
    /// The string-descriptor index of the product string, if declared.
    pub product_string_index: Option<u8>,
    /// The string-descriptor index of the serial-number string, if declared.
    pub serial_number_string_index: Option<u8>,
}

/// The fields the classifier reads from configuration descriptor 0.
#[derive(Debug, Copy, Clone, Eq, PartialEq)]
pub struct ConfigFingerprint {
    /// The number of interfaces the configuration declares.
    pub num_interfaces: u8,
    /// The class code of the first alternate setting of the first
    /// interface, if the configuration has one.
    pub first_interface_class: Option<u8>,
}

/// The CP210x descriptor convention: the device defers its class to the
/// interfaces, and declares manufacturer string 1, product string 2 and a
/// serial-number string at index 3 or above.
pub open spec fn spec_device_fingerprint_matches(d: DeviceFingerprint) -> bool {
    &&& d.class_code == USB_CLASS_PER_INTERFACE
    &&& d.manufacturer_string_index == Some(1u8)
    &&& d.product_string_index == Some(2u8)
    &&& match d.serial_number_string_index {
        Some(i) => i >= 3,
        None => false,
    }
}

/// The configuration side of the convention: at least one interface, and
/// the first interface's first alternate setting carries the
/// vendor-specific class.
pub open spec fn spec_config_fingerprint_matches(c: ConfigFingerprint) -> bool {
    &&& c.num_interfaces >= 1
    &&& c.first_interface_class == Some(USB_CLASS_VENDOR_SPEC)
}

/// The whole classifier over possibly unreadable descriptors: an
/// unreadable device or configuration descriptor never matches.
pub open spec fn spec_is_cp210x(
    device: Option<DeviceFingerprint>,
    config: Option<ConfigFingerprint>,
) -> bool {
    match device {
        None => false,
        Some(d) => spec_device_fingerprint_matches(d) && match config {
            None => false,
            Some(c) => spec_config_fingerprint_matches(c),
        },
    }
}

/// Decides whether a device descriptor carries the CP210x fingerprint.
pub fn device_fingerprint_matches(d: &DeviceFingerprint) -> (r: bool)
    ensures
        r == spec_device_fingerprint_matches(*d),
{
    if d.class_code != USB_CLASS_PER_INTERFACE {
        return false;
    }
    match d.manufacturer_string_index {
        Some(i) => if i != 1 {
            return false;
        },
        None => {
            return false;
        },
    }
    match d.product_string_index {
        Some(i) => if i != 2 {
            return false;
        },
        None => {
            return false;
        },
    }
    match d.serial_number_string_index {
        Some(i) => i >= 3,
        None => false,
    }
}

/// Decides whether a configuration descriptor carries the CP210x
/// fingerprint.
pub fn config_fingerprint_matches(c: &ConfigFingerprint) -> (r: bool)
    ensures
        r == spec_config_fingerprint_matches(*c),
{
    if c.num_interfaces < 1 {
        return false;
    }
    match c.first_interface_class {
        Some(class) => class == USB_CLASS_VENDOR_SPEC,
        None => false,
    }
}

/// The classifier as a pure function over descriptor data, independently
/// testable with synthetic descriptors: `None` stands for a descriptor
/// that could not be read.
pub fn classify_device(
    device: Option<DeviceFingerprint>,
    config: Option<ConfigFingerprint>,
) -> (r: bool)
    ensures
        r == spec_is_cp210x(device, config),
{
    match device {
        None => false,
        Some(d) => if !device_fingerprint_matches(&d) {
            false
        } else {
            match config {
                None => false,
                Some(c) => config_fingerprint_matches(&c),
            }
        },
    }
}

/// A device whose first interface does not report the vendor-specific
/// class — or whose configuration descriptor cannot be read — is never
/// classified as a CP210x part, whatever its device descriptor says.
pub proof fn lemma_non_vendor_interface_never_matches(
    device: Option<DeviceFingerprint>,
    config: Option<ConfigFingerprint>,
)
    requires
        match config {
            Some(c) => c.first_interface_class != Some(USB_CLASS_VENDOR_SPEC),
            None => true,
        },
    ensures
        !spec_is_cp210x(device, config),
{
}

} // verus!
