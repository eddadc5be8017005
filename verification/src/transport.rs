//! The trusted boundary to the `rusb` USB transport: type declarations for
//! the transport's opaque values, and one thin wrapper per transport call
//! the library makes. Everything else in the crate is verified against the
//! contracts stated here.

use vstd::prelude::*;

use crate::errors::UsbError;

verus! {

#[verifier::external_type_specification]
#[verifier::external_body]
pub struct ExContext(rusb::Context);

/// A reference to one enumerated USB device. The transport's own device
/// type cannot be declared to the verifier (its generics are bounded by an
/// outside trait), so it rides in an opaque field here.
#[verifier::external_body]
pub struct UsbDevice {
    device: rusb::Device<rusb::Context>,
}

/// An open handle to one USB device, exclusively owned by the caller. The
/// transport's own handle type cannot be declared to the verifier (its
/// generics are bounded by an outside trait), so it rides in an opaque
/// field here.
#[verifier::external_body]
pub struct UsbDeviceHandle {
    handle: rusb::DeviceHandle<rusb::Context>,
}

#[verifier::external_type_specification]
#[verifier::external_body]
pub struct ExDeviceDescriptor(rusb::DeviceDescriptor);

#[verifier::external_type_specification]
#[verifier::external_body]
pub struct ExConfigDescriptor(rusb::ConfigDescriptor);

#[verifier::external_type_specification]
#[verifier::external_body]
pub struct ExLanguage(rusb::Language);

#[verifier::external_type_specification]
#[verifier::external_body]
pub struct ExError(rusb::Error);

/// Relies on `rusb::Error` being a fieldless enum: reports which transport
/// failure a value is, one variant for one variant.
#[verifier::external_body]
pub(crate) fn usb_error_kind(e: &rusb::Error) -> UsbError {
    match e {
        rusb::Error::Io => UsbError::Io,
        rusb::Error::InvalidParam => UsbError::InvalidParam,
        rusb::Error::Access => UsbError::Access,
        rusb::Error::NoDevice => UsbError::NoDevice,
        rusb::Error::NotFound => UsbError::NotFound,
        rusb::Error::Busy => UsbError::Busy,
        rusb::Error::Timeout => UsbError::Timeout,
        rusb::Error::Overflow => UsbError::Overflow,
        rusb::Error::Pipe => UsbError::Pipe,
        rusb::Error::Interrupted => UsbError::Interrupted,
        rusb::Error::NoMem => UsbError::NoMem,
        rusb::Error::NotSupported => UsbError::NotSupported,
        rusb::Error::BadDescriptor => UsbError::BadDescriptor,
        rusb::Error::Other => UsbError::OtherFailure, }
}

/// Relies on `rusb::Context::new`: initializes a fresh libusb context.
#[verifier::external_body]
pub(crate) fn context_new() -> Result<rusb::Context, rusb::Error> {
    rusb::Context::new()
}

/// Relies on `rusb::DeviceList::new_with_context` and
/// `rusb::DeviceList::iter`: takes one enumeration snapshot of the attached
/// USB devices and hands it out as a vector.
#[verifier::external_body]
pub(crate) fn list_devices(context: &rusb::Context) -> Result<Vec<UsbDevice>, rusb::Error> {
    let list = rusb::DeviceList::new_with_context(context.clone())?;
    Ok(list.iter().map(|device| UsbDevice { device }).collect())
}

/// Relies on `rusb::Device::device_descriptor`: reads the device
/// descriptor.
#[verifier::external_body]
pub(crate) fn device_descriptor(
    device: &UsbDevice,
) -> Result<rusb::DeviceDescriptor, rusb::Error> {
    device.device.device_descriptor()
}

/// Relies on `rusb::DeviceDescriptor::class_code`: the `bDeviceClass`
/// field.
#[verifier::external_body]
pub(crate) fn descriptor_class_code(descriptor: &rusb::DeviceDescriptor) -> u8 {
    descriptor.class_code()
}

/// Relies on `rusb::DeviceDescriptor::manufacturer_string_index`: the
/// `iManufacturer` field, `None` when the device declares none.
#[verifier::external_body]
pub(crate) fn descriptor_manufacturer_string_index(
    descriptor: &rusb::DeviceDescriptor,
) -> Option<u8> {
    descriptor.manufacturer_string_index()
}

/// Relies on `rusb::DeviceDescriptor::product_string_index`: the
/// `iProduct` field, `None` when the device declares none.
#[verifier::external_body]
pub(crate) fn descriptor_product_string_index(
    descriptor: &rusb::DeviceDescriptor,
) -> Option<u8> {
    descriptor.product_string_index()
}

/// Relies on `rusb::DeviceDescriptor::serial_number_string_index`: the
/// `iSerialNumber` field, `None` when the device declares none.
#[verifier::external_body]
pub(crate) fn descriptor_serial_number_string_index(
    descriptor: &rusb::DeviceDescriptor,
) -> Option<u8> {
    descriptor.serial_number_string_index()
}

/// Relies on `rusb::Device::config_descriptor`: reads the configuration
/// descriptor with the given index.
#[verifier::external_body]
pub(crate) fn config_descriptor(
    device: &UsbDevice,
    config_index: u8,
) -> Result<rusb::ConfigDescriptor, rusb::Error> {
    device.device.config_descriptor(config_index)
}

/// Relies on `rusb::ConfigDescriptor::num_interfaces`: the
/// `bNumInterfaces` field.
#[verifier::external_body]
pub(crate) fn config_num_interfaces(config: &rusb::ConfigDescriptor) -> u8 {
    config.num_interfaces()
}

/// Relies on `rusb::ConfigDescriptor::interfaces`,
/// `rusb::Interface::descriptors` and
/// `rusb::InterfaceDescriptor::class_code`: the class code of the first
/// alternate setting of the first interface, if the configuration has one.
#[verifier::external_body]
pub(crate) fn first_interface_class(config: &rusb::ConfigDescriptor) -> Option<u8> {
    match config.interfaces().next() {
        Some(interface) => interface.descriptors().next().map(|d| d.class_code()),
        None => None,
    }
}

/// Relies on `rusb::Device::open`: obtains an open handle to the device.
#[verifier::external_body]
pub(crate) fn open_device(device: &UsbDevice) -> Result<UsbDeviceHandle, rusb::Error> {
    device.device.open().map(|handle| UsbDeviceHandle { handle })
}

/// Relies on `rusb::DeviceHandle::device`: the device a handle refers to.
#[verifier::external_body]
pub(crate) fn device_of_handle(handle: &UsbDeviceHandle) -> UsbDevice {
    UsbDevice { device: handle.handle.device() }
}

/// Relies on `rusb::DeviceHandle::read_control`: issues one synchronous IN
/// control transfer with a timeout in seconds. The transport fills at most
/// `buf.len()` bytes and reports how many it read.
#[verifier::external_body]
pub(crate) fn read_control(
    handle: &UsbDeviceHandle,
    request_type: u8,
    request: u8,
    value: u16,
    index: u16,
    buf: &mut Vec<u8>,
    timeout_secs: u64,
) -> (r: Result<usize, rusb::Error>)
    ensures
        final(buf)@.len() == old(buf)@.len(),
        r matches Ok(n) ==> n <= final(buf)@.len(),
{
    let timeout = std::time::Duration::new(timeout_secs, 0);
    handle.handle.read_control(request_type, request, value, index, buf.as_mut_slice(), timeout)
}

/// Relies on `u16::from_ne_bytes`: assembles a 16-bit value from two
/// bytes in the machine's native byte order — one of the two byte orders,
/// fixed for the whole process.
#[verifier::external_body]
pub(crate) fn u16_from_native_bytes(b0: u8, b1: u8) -> (r: u16)
    ensures
        r == b0 as u16 + 256 * (b1 as u16) || r == b1 as u16 + 256 * (b0 as u16),
{
    u16::from_ne_bytes([b0, b1])
}

/// Relies on `rusb::DeviceHandle::write_control`: issues one synchronous
/// OUT control transfer with an empty payload and a timeout in seconds.
#[verifier::external_body]
pub(crate) fn write_control_empty(
    handle: &UsbDeviceHandle,
    request_type: u8,
    request: u8,
    value: u16,
    index: u16,
    timeout_secs: u64,
) -> Result<usize, rusb::Error> {
    let timeout = std::time::Duration::new(timeout_secs, 0);
    handle.handle.write_control(request_type, request, value, index, &[], timeout)
}

/// Relies on `rusb::DeviceHandle::read_languages`: the list of languages
/// the device's string descriptors support, read with a timeout in
/// seconds.
#[verifier::external_body]
pub(crate) fn read_languages(
    handle: &UsbDeviceHandle,
    timeout_secs: u64,
) -> Result<Vec<rusb::Language>, rusb::Error> {
    handle.handle.read_languages(std::time::Duration::new(timeout_secs, 0))
}

/// Relies on `rusb::DeviceHandle::read_product_string_ascii`: the device's
/// product string, coerced to ASCII.
#[verifier::external_body]
pub(crate) fn read_product_string_ascii(
    handle: &UsbDeviceHandle,
    descriptor: &rusb::DeviceDescriptor,
) -> Result<String, rusb::Error> {
    handle.handle.read_product_string_ascii(descriptor)
}

/// Relies on `rusb::DeviceHandle::read_product_string`: the device's
/// product string in the given language, read with a timeout in seconds.
#[verifier::external_body]
pub(crate) fn read_product_string(
    handle: &UsbDeviceHandle,
    language: &rusb::Language,
    descriptor: &rusb::DeviceDescriptor,
    timeout_secs: u64,
) -> Result<String, rusb::Error> {
    handle.handle.read_product_string(*language, descriptor, std::time::Duration::new(timeout_secs, 0))
}

/// Relies on `rusb::DeviceHandle::read_serial_number_string_ascii`: the
/// device's serial-number string, coerced to ASCII.
#[verifier::external_body]
pub(crate) fn read_serial_number_string_ascii(
    handle: &UsbDeviceHandle,
    descriptor: &rusb::DeviceDescriptor,
) -> Result<String, rusb::Error> {
    handle.handle.read_serial_number_string_ascii(descriptor)
}

/// Relies on `rusb::DeviceHandle::read_serial_number_string`: the device's
/// serial-number string in the given language, read with a timeout in
/// seconds.
#[verifier::external_body]
pub(crate) fn read_serial_number_string(
    handle: &UsbDeviceHandle,
    language: &rusb::Language,
    descriptor: &rusb::DeviceDescriptor,
    timeout_secs: u64,
) -> Result<String, rusb::Error> {
    handle.handle.read_serial_number_string(
        *language,
        descriptor,
        std::time::Duration::new(timeout_secs, 0),
    )
}

} // verus!
