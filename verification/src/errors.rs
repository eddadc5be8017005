//! The closed error taxonomy of the library, and the fixed table that maps
//! every transport-level failure into it.

use vstd::prelude::*;

verus! {

/// Error returned by the library.
///
/// `InvalidHandle` and `FileError` are reserved slots kept for parity with
/// the vendor SDK's error set; no operation of this crate produces them
/// today.
#[derive(Debug, Copy, Clone, Eq, PartialEq, Structural)]
pub enum CP210xError {
    /// Invalid handle
    InvalidHandle,
    /// Invalid parameter
    InvalidParameter,
    /// Device I/O failed
    DeviceIoFailed,
    /// Function not supported or unimplemented on this platform
    FunctionNotSupported,
    /// Global data error
    GlobalDataError,
    /// File error
    FileError,
    /// Command failed
    CommandFailed,
    /// Invalid access (it may have been insufficient permissions)
    InvalidAccessType,
    /// Device not found
    DeviceNotFound,
    /// Other error
    Other,
}

/// A transport-level failure, one variant for each failure the USB
/// transport reports.
#[derive(Debug, Copy, Clone, Eq, PartialEq, Structural)]
pub enum UsbError {
    /// Input/output error
    Io,
    /// Invalid parameter
    InvalidParam,
    /// Access denied
    Access,
    /// No such device
    NoDevice,
    /// Entity not found
    NotFound,
    /// Resource busy
    Busy,
    /// Operation timed out
    Timeout,
    /// Overflow
    Overflow,
    /// Pipe error
    Pipe,
    /// System call interrupted
    Interrupted,
    /// Insufficient memory
    NoMem,
    /// Operation not supported on this platform
    NotSupported,
    /// The device returned a malformed descriptor
    BadDescriptor,
    /// Other error
    OtherFailure,
}

/// The fixed mapping from transport failures to the library's taxonomy.
pub open spec fn spec_map_usb_error(e: UsbError) -> CP210xError {
    match e {
        UsbError::Io => CP210xError::DeviceIoFailed,
        UsbError::InvalidParam => CP210xError::InvalidParameter,
        UsbError::Access => CP210xError::InvalidAccessType,
        UsbError::NoDevice => CP210xError::DeviceNotFound,
        UsbError::NotFound => CP210xError::DeviceNotFound,
        UsbError::Busy => CP210xError::Other,
        UsbError::Timeout => CP210xError::CommandFailed,
        UsbError::Overflow => CP210xError::GlobalDataError,
        UsbError::Pipe => CP210xError::GlobalDataError,
        UsbError::Interrupted => CP210xError::GlobalDataError,
        UsbError::NoMem => CP210xError::GlobalDataError,
        UsbError::NotSupported => CP210xError::FunctionNotSupported,
        UsbError::BadDescriptor => CP210xError::CommandFailed,
        UsbError::OtherFailure => CP210xError::Other,
    }
}

/// Translates a transport-level failure into the library's error taxonomy,
/// exactly as `spec_map_usb_error` states.
pub fn map_usb_error(e: UsbError) -> (r: CP210xError)
    ensures
        r == spec_map_usb_error(e),
        spec_is_mapped_error(r),
{
    match e {
        UsbError::Io => CP210xError::DeviceIoFailed,
        UsbError::InvalidParam => CP210xError::InvalidParameter,
        UsbError::Access => CP210xError::InvalidAccessType,
        UsbError::NoDevice => CP210xError::DeviceNotFound,
        UsbError::NotFound => CP210xError::DeviceNotFound,
        UsbError::Busy => CP210xError::Other,
        UsbError::Timeout => CP210xError::CommandFailed,
        UsbError::Overflow => CP210xError::GlobalDataError,
        UsbError::Pipe => CP210xError::GlobalDataError,
        UsbError::Interrupted => CP210xError::GlobalDataError,
        UsbError::NoMem => CP210xError::GlobalDataError,
        UsbError::NotSupported => CP210xError::FunctionNotSupported,
        UsbError::BadDescriptor => CP210xError::CommandFailed,
        UsbError::OtherFailure => CP210xError::Other,
    }
}

/// Whether an error is one the fixed transport mapping can produce.
/// `InvalidHandle` and `FileError` never are: they are the reserved slots.
pub open spec fn spec_is_mapped_error(e: CP210xError) -> bool {
    exists|u: UsbError| e == spec_map_usb_error(u)
}

/// The fixed mapping never produces the reserved slots `InvalidHandle`
/// and `FileError`: they stay intentionally unreachable.
pub proof fn lemma_mapped_error_not_reserved(e: CP210xError)
    requires
        spec_is_mapped_error(e),
    ensures
        e != CP210xError::InvalidHandle,
        e != CP210xError::FileError,
{
    let u = choose|u: UsbError| e == spec_map_usb_error(u);
    assert(e == spec_map_usb_error(u));
}

/// The fixed human-readable description of each error.
pub open spec fn spec_description(e: CP210xError) -> Seq<char> {
    match e {
        CP210xError::InvalidHandle => "Invalid Handle"@,
        CP210xError::InvalidParameter => "Invalid Parameter"@,
        CP210xError::DeviceIoFailed => "Device Input/Output Failed"@,
        CP210xError::FunctionNotSupported => "Function not supported or unimplemented on this platform"@,
        CP210xError::GlobalDataError => "Data error (Corrupted or Unretrievable)"@,
        CP210xError::FileError => "File not found or Inaccessible"@,
        CP210xError::CommandFailed => "Command Failed"@,
        CP210xError::InvalidAccessType => "Invalid access (it may have been insufficient permissions)"@,
        CP210xError::DeviceNotFound => "Device not found"@,
        CP210xError::Other => "Other error"@,
    }
}

impl CP210xError {
    /// The fixed, human-readable description of this error, for display.
    pub fn description(&self) -> (r: String)
        ensures
            r@ == spec_description(*self),
    {
        match self {
            CP210xError::InvalidHandle => String::from_str("Invalid Handle"),
            CP210xError::InvalidParameter => String::from_str("Invalid Parameter"),
            CP210xError::DeviceIoFailed => String::from_str("Device Input/Output Failed"),
            CP210xError::FunctionNotSupported => String::from_str("Function not supported or unimplemented on this platform"),
            CP210xError::GlobalDataError => String::from_str("Data error (Corrupted or Unretrievable)"),
            CP210xError::FileError => String::from_str("File not found or Inaccessible"),
            CP210xError::CommandFailed => String::from_str("Command Failed"),
            CP210xError::InvalidAccessType => String::from_str("Invalid access (it may have been insufficient permissions)"),
            CP210xError::DeviceNotFound => String::from_str("Device not found"),
            CP210xError::Other => String::from_str("Other error"),
        }
    }
}

} // verus!
