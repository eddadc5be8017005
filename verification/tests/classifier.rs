use slabruntime::classify::classify_device;
use slabruntime::classify::config_fingerprint_matches;
use slabruntime::classify::device_fingerprint_matches;
use slabruntime::classify::ConfigFingerprint;
use slabruntime::classify::DeviceFingerprint;

fn matching_device() -> DeviceFingerprint {
    DeviceFingerprint {
        class_code: 0x00,
        manufacturer_string_index: Some(1),
        product_string_index: Some(2),
        serial_number_string_index: Some(3),
    }
}

fn matching_config() -> ConfigFingerprint {
    ConfigFingerprint {
        num_interfaces: 1,
        first_interface_class: Some(0xFF),
    }
}

#[test]
fn synthetic_cp210x_descriptor_matches() {
    assert!(classify_device(Some(matching_device()), Some(matching_config())));
}

#[test]
fn serial_index_above_three_still_matches() {
    let mut d = matching_device();
    d.serial_number_string_index = Some(200);
    assert!(classify_device(Some(d), Some(matching_config())));
}

#[test]
fn nonzero_device_class_flips_to_non_match() {
    let mut d = matching_device();
    d.class_code = 0x02;
    assert!(!classify_device(Some(d), Some(matching_config())));
}

#[test]
fn wrong_manufacturer_index_flips_to_non_match() {
    let mut d = matching_device();
    d.manufacturer_string_index = Some(2);
    assert!(!classify_device(Some(d), Some(matching_config())));
}

#[test]
fn absent_manufacturer_index_flips_to_non_match() {
    let mut d = matching_device();
    d.manufacturer_string_index = None;
    assert!(!classify_device(Some(d), Some(matching_config())));
}

#[test]
fn wrong_product_index_flips_to_non_match() {
    let mut d = matching_device();
    d.product_string_index = Some(1);
    assert!(!classify_device(Some(d), Some(matching_config())));
}

#[test]
fn absent_product_index_flips_to_non_match() {
    let mut d = matching_device();
    d.product_string_index = None;
    assert!(!classify_device(Some(d), Some(matching_config())));
}

#[test]
fn low_serial_index_flips_to_non_match() {
    let mut d = matching_device();
    d.serial_number_string_index = Some(2);
    assert!(!classify_device(Some(d), Some(matching_config())));
}

#[test]
fn absent_serial_index_flips_to_non_match() {
    let mut d = matching_device();
    d.serial_number_string_index = None;
    assert!(!classify_device(Some(d), Some(matching_config())));
}

#[test]
fn zero_interfaces_flips_to_non_match() {
    let mut c = matching_config();
    c.num_interfaces = 0;
    assert!(!classify_device(Some(matching_device()), Some(c)));
}

#[test]
fn non_vendor_interface_class_never_matches() {
    let mut c = matching_config();
    c.first_interface_class = Some(0x02);
    assert!(!classify_device(Some(matching_device()), Some(c)));
    c.first_interface_class = Some(0x00);
    assert!(!classify_device(Some(matching_device()), Some(c)));
    c.first_interface_class = None;
    assert!(!classify_device(Some(matching_device()), Some(c)));
}

#[test]
fn unreadable_device_descriptor_never_matches() {
    assert!(!classify_device(None, Some(matching_config())));
    assert!(!classify_device(None, None));
}

#[test]
fn unreadable_config_descriptor_never_matches() {
    assert!(!classify_device(Some(matching_device()), None));
}

#[test]
fn fingerprint_halves_agree_with_whole() {
    let d = matching_device();
    let c = matching_config();
    assert!(device_fingerprint_matches(&d));
    assert!(config_fingerprint_matches(&c));
    assert!(classify_device(Some(d), Some(c)));
}
