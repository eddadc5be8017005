use slabruntime::errors::map_usb_error;
use slabruntime::CP210xError;
use slabruntime::UsbError;

#[test]
fn io_failures_map_to_device_io_failed() {
    assert_eq!(map_usb_error(UsbError::Io), CP210xError::DeviceIoFailed);
}

#[test]
fn invalid_param_maps_to_invalid_parameter() {
    assert_eq!(
        map_usb_error(UsbError::InvalidParam),
        CP210xError::InvalidParameter
    );
}

#[test]
fn access_denied_maps_to_invalid_access_type() {
    assert_eq!(
        map_usb_error(UsbError::Access),
        CP210xError::InvalidAccessType
    );
}

#[test]
fn missing_devices_map_to_device_not_found() {
    assert_eq!(map_usb_error(UsbError::NoDevice), CP210xError::DeviceNotFound);
    assert_eq!(map_usb_error(UsbError::NotFound), CP210xError::DeviceNotFound);
}

#[test]
fn timeout_maps_to_command_failed() {
    assert_eq!(map_usb_error(UsbError::Timeout), CP210xError::CommandFailed);
}

#[test]
fn bad_descriptor_maps_to_command_failed() {
    assert_eq!(
        map_usb_error(UsbError::BadDescriptor),
        CP210xError::CommandFailed
    );
}

#[test]
fn data_failures_map_to_global_data_error() {
    assert_eq!(
        map_usb_error(UsbError::Overflow),
        CP210xError::GlobalDataError
    );
    assert_eq!(map_usb_error(UsbError::Pipe), CP210xError::GlobalDataError);
    assert_eq!(
        map_usb_error(UsbError::Interrupted),
        CP210xError::GlobalDataError
    );
    assert_eq!(map_usb_error(UsbError::NoMem), CP210xError::GlobalDataError);
}

#[test]
fn unsupported_maps_to_function_not_supported() {
    assert_eq!(
        map_usb_error(UsbError::NotSupported),
        CP210xError::FunctionNotSupported
    );
}

#[test]
fn busy_and_other_map_to_other() {
    assert_eq!(map_usb_error(UsbError::Busy), CP210xError::Other);
    assert_eq!(map_usb_error(UsbError::OtherFailure), CP210xError::Other);
}

#[test]
fn descriptions_are_the_fixed_texts() {
    assert_eq!(CP210xError::InvalidHandle.description(), "Invalid Handle");
    assert_eq!(
        CP210xError::InvalidParameter.description(),
        "Invalid Parameter"
    );
    assert_eq!(
        CP210xError::DeviceIoFailed.description(),
        "Device Input/Output Failed"
    );
    assert_eq!(
        CP210xError::FunctionNotSupported.description(),
        "Function not supported or unimplemented on this platform"
    );
    assert_eq!(
        CP210xError::GlobalDataError.description(),
        "Data error (Corrupted or Unretrievable)"
    );
    assert_eq!(
        CP210xError::FileError.description(),
        "File not found or Inaccessible"
    );
    assert_eq!(CP210xError::CommandFailed.description(), "Command Failed");
    assert_eq!(
        CP210xError::InvalidAccessType.description(),
        "Invalid access (it may have been insufficient permissions)"
    );
    assert_eq!(CP210xError::DeviceNotFound.description(), "Device not found");
    assert_eq!(CP210xError::Other.description(), "Other error");
}
