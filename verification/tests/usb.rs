use fightstick::usb::config_descriptor;
use fightstick::usb::device_descriptor;
use fightstick::usb::keyboard_endpoint_descriptor;
use fightstick::usb::keyboard_hid_descriptor;
use fightstick::usb::keyboard_interface_descriptor;
use fightstick::usb::EndpointDescriptor;
use fightstick::usb::HIDDescriptor;
use fightstick::usb_sys::is_initialized;
use fightstick::usb_sys::USBState;

#[test]
fn test_device_descriptor_equivalent() {
    let expected: Vec<u8> = vec![18, 1, 0, 2, 0, 0, 0, 32, 237, 254, 1, 0, 0, 1, 0, 0, 0, 1];
    let serialized = device_descriptor().serialize();
    assert_eq!(serialized, expected);
}

#[test]
fn test_config_descriptor_equivalent() {
    let expected: Vec<u8> = vec![10, 2, 37, 0, 1, 1, 0, 192, 50, 0];
    let serialized = config_descriptor().serialize();
    assert_eq!(serialized, expected);
}

#[test]
fn test_interface_descriptor_equivalent() {
    let expected: Vec<u8> = vec![9, 4, 0, 0, 1, 3, 1, 1, 0];
    let serialized = keyboard_interface_descriptor().serialize();
    assert_eq!(serialized, expected);
}

#[test]
fn test_endpoint_descriptor_equivalent() {
    let expected: Vec<u8> = vec![8, 5, 131, 3, 8, 0, 1, 0];
    let serialized = keyboard_endpoint_descriptor().serialize();
    assert_eq!(serialized, expected);
}

#[test]
fn test_hid_descriptor_equivalent() {
    let expected: Vec<u8> = vec![10, 33, 17, 1, 0, 1, 34, 0, 63, 0];
    let serialized = keyboard_hid_descriptor().serialize();
    assert_eq!(serialized, expected);
}

#[test]
fn test_multibyte_fields_are_little_endian() {
    let endpoint = EndpointDescriptor {
        endpoint_address: 0x81,
        attributes: 0x03,
        max_packet_size: 0x1234,
        interval: 10,
    };
    assert_eq!(endpoint.serialize(), vec![8, 5, 0x81, 3, 0x34, 0x12, 10, 0]);

    let hid = HIDDescriptor {
        hid_version: 0x0111,
        country_code: 0x21,
        num_child_descriptors: 2,
        child_descriptor_type: 0x22,
        child_descriptor_length: 0x0201,
    };
    assert_eq!(hid.serialize(), vec![10, 33, 0x11, 0x01, 0x21, 2, 0x22, 0, 0x01, 0x02]);
}

#[test]
fn test_is_initialized_only_when_attached() {
    assert!(is_initialized(USBState::Attached));
    assert!(!is_initialized(USBState::Disconnected));
    assert!(!is_initialized(USBState::Unknown));
}
