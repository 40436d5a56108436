//! The transport stack's view of the device: the descriptor images it
//! serves verbatim, with the two header bytes as explicit fields, and
//! the configuration and state values exchanged with it. The transport
//! itself (enumeration, endpoints, interrupts) lives outside this crate;
//! these are the plain values that cross that boundary.

use vstd::prelude::*;

verus! {

/// A device descriptor image, header fields included.
pub struct DeviceDescriptor {
    pub length: u8,
    pub descriptor_type: u8,
    pub usb_version: u16,
    pub device_class: u8,
    pub device_subclass: u8,
    pub device_protocol: u8,
    pub max_packet_size: u8,
    pub vendor_id: u16,
    pub product_id: u16,
    pub device_version: u16,
    pub manufacturer_string_index: u8,
    pub product_string_index: u8,
    pub serial_number_string_index: u8,
    pub num_configurations: u8,
}

/// A configuration descriptor image, header fields included.
pub struct ConfigurationDescriptor {
    pub length: u8,
    pub descriptor_type: u8,
    pub total_length: u16,
    pub num_interfaces: u8,
    pub configuration_value: u8,
    pub configuration_string_index: u8,
    pub attributes: u8,
    pub max_power: u8,
}

/// An interface descriptor image, header fields included.
pub struct InterfaceDescriptor {
    pub length: u8,
    pub descriptor_type: u8,
    pub interface_number: u8,
    pub alternate_setting: u8,
    pub num_endpoints: u8,
    pub interface_class: u8,
    pub interface_subclass: u8,
    pub interface_protocol: u8,
    pub interface_string_index: u8,
}

/// An endpoint descriptor image, header fields included.
pub struct EndpointDescriptor {
    pub length: u8,
    pub descriptor_type: u8,
    pub endpoint_address: u8,
    pub attributes: u8,
    pub max_packet_size: u16,
    pub interval: u8,
}

/// A string descriptor image: UTF-16 code units after the header.
pub struct StringDescriptor {
    pub length: u8,
    pub descriptor_type: u8,
    pub string: Vec<u16>,
}

/// A HID descriptor image, header fields included.
pub struct HIDDescriptor {
    pub length: u8,
    pub descriptor_type: u8,
    pub hid_version: u16,
    pub country_code: u8,
    pub num_child_descriptors: u8,
    pub child_descriptor_type: u8,
    pub child_descriptor_length: u16,
}

/// Everything the transport stack is handed at startup: the descriptors
/// it answers control requests from, and the persona's report
/// descriptor bytes.
pub struct USBConfig {
    pub device_descriptor: DeviceDescriptor,
    pub configuration_descriptors: Vec<ConfigurationDescriptor>,
    pub interface_descriptors: Vec<InterfaceDescriptor>,
    pub endpoint_descriptors: Vec<EndpointDescriptor>,
    pub hid_descriptors: Vec<HIDDescriptor>,
    pub report_descriptor: Vec<u8>,
}

/// Where the transport stands with the host.
#[derive(Clone, Copy, PartialEq, Eq, Structural, Debug)]
pub enum USBState {
    Unknown,
    Disconnected,
    Attached,
}

/// Whether the transport has finished enumerating: polling may start
/// only once the host has attached the device.
pub fn is_initialized(state: USBState) -> (b: bool)
    ensures
        b == (state is Attached),
{
    match state {
        USBState::Attached => true,
        _ => false,
    }
}

} // verus!
