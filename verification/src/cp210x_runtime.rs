//! The runtime context: owns the USB transport context and is the entry
//! point for enumeration, opening a device, and the vendor-specific
//! control operations.

use vstd::prelude::*;

use crate::classify::config_fingerprint_matches;
use crate::classify::device_fingerprint_matches;
use crate::classify::ConfigFingerprint;
use crate::classify::DeviceFingerprint;
use crate::codec::require_cp2102n;
use crate::codec::request_type;
use crate::codec::Direction;
use crate::codec::Recipient;
use crate::codec::RequestType;
use crate::constants::DEFAULT_TIMEOUT_SECS;
use crate::errors::map_usb_error;
use crate::errors::spec_is_mapped_error;
use crate::errors::spec_map_usb_error;
use crate::errors::CP210xError;
use crate::errors::UsbError;
use crate::transport;
use crate::transport::UsbDevice;
use crate::transport::UsbDeviceHandle;

verus! {

/// The number of `true` entries of a sequence of match flags.
pub open spec fn count_matches(flags: Seq<bool>) -> nat
    decreases flags.len(),
{
    if flags.len() == 0 {
        0
    } else {
        count_matches(flags.drop_last()) + if flags.last() {
            1nat
        } else {
            0nat
        }
    }
}

/// Counting matches over a longer prefix never yields fewer.
pub proof fn lemma_count_matches_take_monotone(flags: Seq<bool>, i: int, j: int)
    requires
        0 <= i <= j <= flags.len(),
    ensures
        count_matches(flags.take(i)) <= count_matches(flags.take(j)),
    decreases j - i,
{
    if i < j {
        lemma_count_matches_take_monotone(flags, i, j - 1);
        assert(flags.take(j).drop_last() =~= flags.take(j - 1));
    }
}

/// A position that holds a match has fewer matches before it than the
/// whole sequence holds. So an index at or past the total match count
/// can select no position, and `select_nth_match` must answer `None`.
pub proof fn lemma_match_position_bounds_prefix_count(flags: Seq<bool>, p: int)
    requires
        0 <= p < flags.len(),
        flags[p],
    ensures
        count_matches(flags.take(p)) < count_matches(flags),
{
    assert(flags.take(p + 1).drop_last() =~= flags.take(p));
    assert(flags.take(p + 1).last() == flags[p]);
    lemma_count_matches_take_monotone(flags, p + 1, flags.len() as int);
    assert(flags.take(flags.len() as int) =~= flags);
}

/// Counts the matches of a flag vector, exactly as `count_matches`
/// states.
pub fn count_true(flags: &Vec<bool>) -> (n: usize)
    ensures
        n == count_matches(flags@),
{
    let mut n: usize = 0;
    let mut i: usize = 0;
    while i < flags.len()
        invariant
            i <= flags@.len(),
            n <= i,
            n == count_matches(flags@.take(i as int)),
        decreases flags@.len() - i,
    {
        proof {
            assert(flags@.take(i as int + 1).drop_last() =~= flags@.take(i as int));
        }
        if flags[i] {
            n = n + 1;
        }
        i = i + 1;
    }
    proof {
        assert(flags@.take(flags@.len() as int) =~= flags@);
    }
    n
}

/// Selects the position of match number `index`, in enumeration order,
/// among a sequence of match flags: the returned position holds a match
/// and exactly `index` matches precede it. Returns `None` exactly when
/// the sequence holds no more than `index` matches.
pub fn select_nth_match(flags: &Vec<bool>, index: usize) -> (r: Option<usize>)
    ensures
        match r {
            Some(p) => {
                &&& p < flags@.len()
                &&& flags@[p as int]
                &&& count_matches(flags@.take(p as int)) == index
            },
            None => count_matches(flags@) <= index,
        },
{
    let mut i: usize = 0;
    let mut seen: usize = 0;
    while i < flags.len()
        invariant
            i <= flags@.len(),
            seen <= index,
            count_matches(flags@.take(i as int)) == seen,
        decreases flags@.len() - i,
    {
        proof {
            assert(flags@.take(i as int + 1).drop_last() =~= flags@.take(i as int));
        }
        if flags[i] {
            if seen == index {
                return Some(i);
            }
            seen = seen + 1;
        }
        i = i + 1;
    }
    proof {
        assert(flags@.take(flags@.len() as int) =~= flags@);
    }
    None
}

/// Selects the language for a Unicode string read: the first supported
/// language of the device's list. A device that reports zero supported
/// languages cannot serve such a read — that is a reported
/// `CommandFailed`, never a panic.
pub fn first_language(langs: &Vec<rusb::Language>) -> (r: Result<&rusb::Language, CP210xError>)
    ensures
        r matches Err(e) ==> e == CP210xError::CommandFailed && langs@.len() == 0,
        r matches Ok(l) ==> langs@.len() > 0 && *l == langs@[0],
{
    if langs.len() == 0 {
        Err(CP210xError::CommandFailed)
    } else {
        Ok(&langs[0])
    }
}

/// CP210x runtime: owns one live USB subsystem context, created once and
/// released when the runtime is dropped.
pub struct Cp210xRuntime {
    context: rusb::Context,
}

impl Cp210xRuntime {
    /// Initialize the CP210x runtime with a new context. A failure is
    /// always a transport failure mapped through the fixed error table.
    pub fn new() -> (r: Result<Cp210xRuntime, CP210xError>)
        ensures
            r matches Err(e) ==> spec_is_mapped_error(e),
    {
        match transport::context_new() {
            Ok(context) => Ok(Cp210xRuntime { context: context }),
            Err(e) => Err(map_usb_error(transport::usb_error_kind(&e))),
        }
    }

    /// Determines if the device is a CP210x device: reads fresh
    /// descriptors and applies the pure classifier; any read failure
    /// classifies the device as a non-match rather than erroring.
    fn is_cp210x(&self, device: &UsbDevice) -> bool {
        let descriptor = match transport::device_descriptor(device) {
            Ok(d) => d,
            Err(_) => {
                return false;
            },
        };
        let fingerprint = DeviceFingerprint {
            class_code: transport::descriptor_class_code(&descriptor),
            manufacturer_string_index: transport::descriptor_manufacturer_string_index(
                &descriptor,
            ),
            product_string_index: transport::descriptor_product_string_index(&descriptor),
            serial_number_string_index: transport::descriptor_serial_number_string_index(
                &descriptor,
            ),
        };
        if !device_fingerprint_matches(&fingerprint) {
            return false;
        }
        let config = match transport::config_descriptor(device, 0) {
            Ok(c) => c,
            Err(_) => {
                return false;
            },
        };
        let config_fingerprint = ConfigFingerprint {
            num_interfaces: transport::config_num_interfaces(&config),
            first_interface_class: transport::first_interface_class(&config),
        };
        config_fingerprint_matches(&config_fingerprint)
    }

    /// Classifies every device of an enumeration snapshot, in order: one
    /// match flag per device.
    fn classify_all(&self, devices: &Vec<UsbDevice>) -> (flags: Vec<bool>)
        ensures
            flags@.len() == devices@.len(),
    {
        let mut flags: Vec<bool> = Vec::new();
        let mut i: usize = 0;
        while i < devices.len()
            invariant
                flags@.len() == i,
                i <= devices@.len(),
            decreases devices@.len() - i,
        {
            let is_match = self.is_cp210x(&devices[i]);
            flags.push(is_match);
            i = i + 1;
        }
        flags
    }

    /// Determines the number of CP210x devices connected to the system:
    /// one fresh enumeration snapshot, classified device by device, with
    /// the matches counted by the verified counter. A match count beyond
    /// the one-byte result is reported as an error, and every error is
    /// one the fixed mapping table can produce.
    pub fn cp210x_rt_get_num_devices(&self) -> (r: Result<u8, CP210xError>)
        ensures
            r matches Err(e) ==> spec_is_mapped_error(e),
    {
        let devices = match transport::list_devices(&self.context) {
            Ok(d) => d,
            Err(e) => {
                return Err(map_usb_error(transport::usb_error_kind(&e)));
            },
        };
        let flags = self.classify_all(&devices);
        let num_devices = count_true(&flags);
        if num_devices > 0xFF {
            proof {
                assert(CP210xError::Other == spec_map_usb_error(UsbError::OtherFailure));
            }
            return Err(CP210xError::Other);
        }
        Ok(num_devices as u8)
    }

    /// Opens and returns a handle to a device using a device index
    /// determined by the number returned from cp210x_rt_get_num_devices().
    /// An index at or past the number of matches in the fresh enumeration
    /// snapshot yields `DeviceNotFound`, never a panic; an enumeration or
    /// open failure yields `CommandFailed`.
    pub fn cp210x_rt_open(&self, device_index: usize) -> (r: Result<UsbDeviceHandle, CP210xError>)
        ensures
            r matches Err(e) ==> e == CP210xError::CommandFailed || e
                == CP210xError::DeviceNotFound,
    {
        let devices = match transport::list_devices(&self.context) {
            Ok(d) => d,
            Err(_) => {
                return Err(CP210xError::CommandFailed);
            },
        };
        let flags = self.classify_all(&devices);
        match select_nth_match(&flags, device_index) {
            Some(p) => match transport::open_device(&devices[p]) {
                Ok(handle) => Ok(handle),
                Err(_) => Err(CP210xError::CommandFailed),
            },
            None => Err(CP210xError::DeviceNotFound),
        }
    }

    /// Gets the part number of the current device: one IN vendor control
    /// transfer whose single response byte is the part-number tag. Any
    /// transfer failure is reported as `DeviceIoFailed`.
    pub fn cp210x_rt_get_part_number(&self, handle: &UsbDeviceHandle) -> (r: Result<
        u8,
        CP210xError,
    >)
        ensures
            r matches Err(e) ==> e == CP210xError::DeviceIoFailed,
    {
        let bm_request_type = request_type(Direction::In, RequestType::Vendor, Recipient::Device);
        let mut part_num: Vec<u8> = Vec::new();
        part_num.push(0);
        match transport::read_control(
            handle,
            bm_request_type,
            0xFF,
            0x370B,
            0x0000,
            &mut part_num,
            DEFAULT_TIMEOUT_SECS,
        ) {
            Ok(_) => Ok(part_num[0]),
            Err(_) => Err(CP210xError::DeviceIoFailed),
        }
    }

    /// Reads and returns the Receiver Max Timeout directly from the
    /// device. The part number is queried fresh on every call and held to
    /// the verified gate: a part outside the CP2102N sub-family reports
    /// `FunctionNotSupported` before the transfer is attempted.
    pub fn cp210x_rt_get_receiver_max_timeout(&self, handle: &UsbDeviceHandle) -> (r: Result<
        u16,
        CP210xError,
    >)
        ensures
            r matches Err(e) ==> e == CP210xError::FunctionNotSupported || e
                == CP210xError::DeviceIoFailed || e == CP210xError::CommandFailed,
    {
        let part_num = match self.cp210x_rt_get_part_number(handle) {
            Ok(p) => p,
            Err(e) => {
                return Err(e);
            },
        };
        match require_cp2102n(part_num) {
            Ok(_) => (),
            Err(e) => {
                return Err(e);
            },
        }
        let bm_request_type = request_type(Direction::In, RequestType::Vendor, Recipient::Device);
        let mut max_timeout: Vec<u8> = Vec::new();
        max_timeout.push(0);
        max_timeout.push(0);
        match transport::read_control(
            handle,
            bm_request_type,
            0x18,
            0x0000,
            0x0000,
            &mut max_timeout,
            DEFAULT_TIMEOUT_SECS,
        ) {
            Ok(_) => Ok(transport::u16_from_native_bytes(max_timeout[0], max_timeout[1])),
            Err(_) => Err(CP210xError::CommandFailed),
        }
    }

    /// Sets the Receiver Max Timeout directly on the device: the timeout
    /// value rides in the `value` field of the setup packet and the
    /// payload is empty. Echoes the requested value on success. The part
    /// number is queried fresh on every call and held to the verified
    /// gate: a part outside the CP2102N sub-family reports
    /// `FunctionNotSupported` before the transfer is attempted.
    pub fn cp210x_rt_set_receiver_max_timeout(
        &self,
        handle: &UsbDeviceHandle,
        max_timeout: u16,
    ) -> (r: Result<u16, CP210xError>)
        ensures
            r matches Ok(v) ==> v == max_timeout,
            r matches Err(e) ==> e == CP210xError::FunctionNotSupported || e
                == CP210xError::DeviceIoFailed || e == CP210xError::CommandFailed,
    {
        let part_num = match self.cp210x_rt_get_part_number(handle) {
            Ok(p) => p,
            Err(e) => {
                return Err(e);
            },
        };
        match require_cp2102n(part_num) {
            Ok(_) => (),
            Err(e) => {
                return Err(e);
            },
        }
        let bm_request_type = request_type(Direction::Out, RequestType::Vendor, Recipient::Device);
        match transport::write_control_empty(
            handle,
            bm_request_type,
            0x17,
            max_timeout,
            0x0000,
            DEFAULT_TIMEOUT_SECS,
        ) {
            Ok(_) => Ok(max_timeout),
            Err(_) => Err(CP210xError::CommandFailed),
        }
    }

    /// Gets the product string of the current device, ASCII-coerced or in
    /// the first supported language. A device that reports no supported
    /// language cannot serve the Unicode path: that surfaces as
    /// `CommandFailed`, never a panic. Every error is one the fixed
    /// mapping table can produce, so the reserved slots never appear.
    pub fn cp210x_rt_get_device_product_string(
        &self,
        handle: &UsbDeviceHandle,
        convert_to_ascii: bool,
    ) -> (r: Result<String, CP210xError>)
        ensures
            r matches Err(e) ==> spec_is_mapped_error(e) && e != CP210xError::InvalidHandle && e
                != CP210xError::FileError,
    {
        let device = transport::device_of_handle(handle);
        let device_desc = match transport::device_descriptor(&device) {
            Ok(d) => d,
            Err(e) => {
                return Err(map_usb_error(transport::usb_error_kind(&e)));
            },
        };
        let languages = match transport::read_languages(handle, DEFAULT_TIMEOUT_SECS) {
            Ok(l) => l,
            Err(e) => {
                return Err(map_usb_error(transport::usb_error_kind(&e)));
            },
        };
        if convert_to_ascii {
            return match transport::read_product_string_ascii(handle, &device_desc) {
                Ok(s) => Ok(s),
                Err(e) => Err(map_usb_error(transport::usb_error_kind(&e))),
            };
        }
        let language = match first_language(&languages) {
            Ok(l) => l,
            Err(e) => {
                proof {
                    assert(CP210xError::CommandFailed == spec_map_usb_error(UsbError::Timeout));
                }
                return Err(e);
            },
        };
        match transport::read_product_string(handle, language, &device_desc, DEFAULT_TIMEOUT_SECS) {
            Ok(s) => Ok(s),
            Err(e) => Err(map_usb_error(transport::usb_error_kind(&e))),
        }
    }

    /// Gets the serial-number string of the current device, ASCII-coerced
    /// or in the first supported language. A device that reports no
    /// supported language cannot serve the Unicode path: that surfaces as
    /// `CommandFailed`, never a panic. Every error is one the fixed
    /// mapping table can produce, so the reserved slots never appear.
    pub fn cp210x_rt_get_device_serial_string(
        &self,
        handle: &UsbDeviceHandle,
        convert_to_ascii: bool,
    ) -> (r: Result<String, CP210xError>)
        ensures
            r matches Err(e) ==> spec_is_mapped_error(e) && e != CP210xError::InvalidHandle && e
                != CP210xError::FileError,
    {
        let device = transport::device_of_handle(handle);
        let device_desc = match transport::device_descriptor(&device) {
            Ok(d) => d,
            Err(e) => {
                return Err(map_usb_error(transport::usb_error_kind(&e)));
            },
        };
        let languages = match transport::read_languages(handle, DEFAULT_TIMEOUT_SECS) {
            Ok(l) => l,
            Err(e) => {
                return Err(map_usb_error(transport::usb_error_kind(&e)));
            },
        };
        if convert_to_ascii {
            return match transport::read_serial_number_string_ascii(handle, &device_desc) {
                Ok(s) => Ok(s),
                Err(e) => Err(map_usb_error(transport::usb_error_kind(&e))),
            };
        }
        let language = match first_language(&languages) {
            Ok(l) => l,
            Err(e) => {
                proof {
                    assert(CP210xError::CommandFailed == spec_map_usb_error(UsbError::Timeout));
                }
                return Err(e);
            },
        };
        match transport::read_serial_number_string(
            handle,
            language,
            &device_desc,
            DEFAULT_TIMEOUT_SECS,
        ) {
            Ok(s) => Ok(s),
            Err(e) => Err(map_usb_error(transport::usb_error_kind(&e))),
        }
    }
}

} // verus!
