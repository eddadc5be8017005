use slabruntime::codec::is_known_part;
use slabruntime::codec::require_cp2102n;
use slabruntime::codec::part_is_cp2102n;
use slabruntime::codec::request_type;
use slabruntime::codec::Direction;
use slabruntime::codec::Recipient;
use slabruntime::codec::RequestType;

#[test]
fn vendor_in_request_type_is_0xc0() {
    assert_eq!(
        request_type(Direction::In, RequestType::Vendor, Recipient::Device),
        0xC0
    );
}

#[test]
fn vendor_out_request_type_is_0x40() {
    assert_eq!(
        request_type(Direction::Out, RequestType::Vendor, Recipient::Device),
        0x40
    );
}

#[test]
fn standard_in_device_request_type_is_0x80() {
    assert_eq!(
        request_type(Direction::In, RequestType::Standard, Recipient::Device),
        0x80
    );
}

#[test]
fn class_out_interface_request_type_is_0x21() {
    assert_eq!(
        request_type(Direction::Out, RequestType::Class, Recipient::Interface),
        0x21
    );
}

#[test]
fn reserved_out_endpoint_request_type_is_0x62() {
    assert_eq!(
        request_type(Direction::Out, RequestType::Reserved, Recipient::Endpoint),
        0x62
    );
}

#[test]
fn cp2102n_parts_are_exactly_the_three_qfn_tags() {
    assert!(part_is_cp2102n(0x20));
    assert!(part_is_cp2102n(0x21));
    assert!(part_is_cp2102n(0x22));
    for part in 0..=0xFFu8 {
        if part != 0x20 && part != 0x21 && part != 0x22 {
            assert!(!part_is_cp2102n(part));
        }
    }
}

#[test]
fn known_parts_are_exactly_the_nine_tags() {
    let known = [0x01u8, 0x02, 0x03, 0x04, 0x05, 0x08, 0x20, 0x21, 0x22];
    for part in known {
        assert!(is_known_part(part));
    }
    for part in 0..=0xFFu8 {
        if !known.contains(&part) {
            assert!(!is_known_part(part));
        }
    }
}

#[test]
fn every_cp2102n_part_is_a_known_part() {
    for part in 0..=0xFFu8 {
        if part_is_cp2102n(part) {
            assert!(is_known_part(part));
        }
    }
}

#[test]
fn gate_accepts_exactly_the_cp2102n_parts() {
    assert_eq!(require_cp2102n(0x20), Ok(()));
    assert_eq!(require_cp2102n(0x21), Ok(()));
    assert_eq!(require_cp2102n(0x22), Ok(()));
}

#[test]
fn gate_rejects_every_other_part_with_function_not_supported() {
    for part in 0..=0xFFu8 {
        if part != 0x20 && part != 0x21 && part != 0x22 {
            assert_eq!(
                require_cp2102n(part),
                Err(slabruntime::CP210xError::FunctionNotSupported)
            );
        }
    }
}
