//! The control-request codec: building the `bmRequestType` field of a
//! control-transfer setup packet, and the part-number decisions that gate
//! the CP2102N-only operations.

use vstd::prelude::*;

use crate::constants::CP2101_PARTNUM;
use crate::constants::CP2102_PARTNUM;
use crate::constants::CP2103_PARTNUM;
use crate::constants::CP2104_PARTNUM;
use crate::constants::CP2105_PARTNUM;
use crate::constants::CP2108_PARTNUM;
use crate::constants::CP210X_PARTNUM_CP2102N_QFN20;
use crate::constants::CP210X_PARTNUM_CP2102N_QFN24;
use crate::constants::CP210X_PARTNUM_CP2102N_QFN28;
use crate::errors::CP210xError;

verus! {

/// The direction of a control transfer.
#[derive(Debug, Copy, Clone, Eq, PartialEq, Structural)]
pub enum Direction {
    /// Device to host.
    In,
    /// Host to device.
    Out,
}

/// Who defines the semantics of a control request.
#[derive(Debug, Copy, Clone, Eq, PartialEq, Structural)]
pub enum RequestType {
    Standard,
    Class,
    Vendor,
    Reserved,
}

/// The recipient of a control request.
#[derive(Debug, Copy, Clone, Eq, PartialEq, Structural)]
pub enum Recipient {
    Device,
    Interface,
    Endpoint,
    Other,
}

/// The direction bit of `bmRequestType` (bit 7).
pub open spec fn spec_direction_bits(direction: Direction) -> u8 {
    match direction {
        Direction::Out => 0x00,
        Direction::In => 0x80,
    }
}

/// The request-type bits of `bmRequestType` (bits 5..6).
pub open spec fn spec_request_type_bits(request_type: RequestType) -> u8 {
    match request_type {
        RequestType::Standard => 0x00,
        RequestType::Class => 0x20,
        RequestType::Vendor => 0x40,
        RequestType::Reserved => 0x60,
    }
}

/// The recipient bits of `bmRequestType` (bits 0..4).
pub open spec fn spec_recipient_bits(recipient: Recipient) -> u8 {
    match recipient {
        Recipient::Device => 0x00,
        Recipient::Interface => 0x01,
        Recipient::Endpoint => 0x02,
        Recipient::Other => 0x03,
    }
}

/// Builds the `bmRequestType` field of a control-transfer setup packet: a
/// bit field holding the transfer direction, who defines the request, and
/// its recipient.
pub fn request_type(direction: Direction, kind: RequestType, recipient: Recipient) -> (r: u8)
    ensures
        r == spec_direction_bits(direction) | spec_request_type_bits(kind)
            | spec_recipient_bits(recipient),
{
    let mut value: u8 = match direction {
        Direction::Out => 0x00,
        Direction::In => 0x80,
    };
    value = value | (match kind {
        RequestType::Standard => 0x00u8,
        RequestType::Class => 0x20u8,
        RequestType::Vendor => 0x40u8,
        RequestType::Reserved => 0x60u8,
    });
    value = value | (match recipient {
        Recipient::Device => 0x00u8,
        Recipient::Interface => 0x01u8,
        Recipient::Endpoint => 0x02u8,
        Recipient::Other => 0x03u8,
    });
    value
}

/// The three QFN sub-variants of the CP2102N are the only parts that carry
/// the receiver-max-timeout feature.
pub open spec fn spec_is_cp2102n_part(part: u8) -> bool {
    ||| part == CP210X_PARTNUM_CP2102N_QFN20
    ||| part == CP210X_PARTNUM_CP2102N_QFN24
    ||| part == CP210X_PARTNUM_CP2102N_QFN28
}

/// Decides whether a part-number byte names a CP2102N sub-variant. Any
/// byte outside the three QFN tags fails closed.
pub fn part_is_cp2102n(part: u8) -> (r: bool)
    ensures
        r == spec_is_cp2102n_part(part),
{
    part == CP210X_PARTNUM_CP2102N_QFN20 || part == CP210X_PARTNUM_CP2102N_QFN24
        || part == CP210X_PARTNUM_CP2102N_QFN28
}

/// The feature gate for CP2102N-only operations: accepts exactly the
/// three QFN sub-variants and reports `FunctionNotSupported` for every
/// other part byte, so a gated operation fails fast, before its transfer
/// is attempted.
pub fn require_cp2102n(part: u8) -> (r: Result<(), CP210xError>)
    ensures
        r is Ok <==> spec_is_cp2102n_part(part),
        r matches Err(e) ==> e == CP210xError::FunctionNotSupported,
{
    if part_is_cp2102n(part) {
        Ok(())
    } else {
        Err(CP210xError::FunctionNotSupported)
    }
}

/// The fixed set of part-number tags this library recognizes.
pub open spec fn spec_is_known_part(part: u8) -> bool {
    ||| part == CP2101_PARTNUM
    ||| part == CP2102_PARTNUM
    ||| part == CP2103_PARTNUM
    ||| part == CP2104_PARTNUM
    ||| part == CP2105_PARTNUM
    ||| part == CP2108_PARTNUM
    ||| part == CP210X_PARTNUM_CP2102N_QFN28
    ||| part == CP210X_PARTNUM_CP2102N_QFN24
    ||| part == CP210X_PARTNUM_CP2102N_QFN20
}

/// Decides whether a part-number byte is one of the recognized CP210x
/// tags.
pub fn is_known_part(part: u8) -> (r: bool)
    ensures
        r == spec_is_known_part(part),
{
    part == CP2101_PARTNUM || part == CP2102_PARTNUM || part == CP2103_PARTNUM
        || part == CP2104_PARTNUM || part == CP2105_PARTNUM || part == CP2108_PARTNUM
        || part == CP210X_PARTNUM_CP2102N_QFN28 || part == CP210X_PARTNUM_CP2102N_QFN24
        || part == CP210X_PARTNUM_CP2102N_QFN20
}

/// Every CP2102N sub-variant is one of the recognized CP210x part numbers,
/// so the feature gate accepts only recognized parts.
pub proof fn lemma_cp2102n_part_is_known(part: u8)
    requires
        spec_is_cp2102n_part(part),
    ensures
        spec_is_known_part(part),
{
}

} // verus!
