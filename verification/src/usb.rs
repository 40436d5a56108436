//! The USB descriptors the device advertises, and their binary form.
//!
//! Each descriptor serializes to a length byte, a descriptor-type byte,
//! then its fields in declaration order with multi-byte fields
//! little-endian. The image mirrors the in-memory structure the
//! transport stack consumes: two-byte fields sit at even offsets and an
//! image holding any is padded to an even length, every padding byte
//! zero. The leading length byte counts the whole image, fields, padding
//! and the two header bytes together.

use vstd::prelude::*;

verus! {

/// Serialized size of a device descriptor, header bytes included.
pub const DEVICE_DESCRIPTOR_LENGTH: u8 = 18;

/// Serialized size of a configuration descriptor, header bytes included.
pub const CONFIGURATION_DESCRIPTOR_LENGTH: u8 = 10;

/// Serialized size of an interface descriptor, header bytes included.
pub const INTERFACE_DESCRIPTOR_LENGTH: u8 = 9;

/// Serialized size of an endpoint descriptor, header bytes included.
pub const ENDPOINT_DESCRIPTOR_LENGTH: u8 = 8;

/// Serialized size of a HID descriptor, header bytes included.
pub const HID_DESCRIPTOR_LENGTH: u8 = 10;

/// The low byte of a little-endian 16-bit field.
pub open spec fn spec_le_lo(x: u16) -> u8 {
    (x & 0x00ff) as u8
}

/// The high byte of a little-endian 16-bit field.
pub open spec fn spec_le_hi(x: u16) -> u8 {
    ((x & 0xff00) >> 8) as u8
}

/// The low byte of `x`.
fn le_lo(x: u16) -> (b: u8)
    ensures
        b == spec_le_lo(x),
{
    (x & 0x00ff) as u8
}

/// The high byte of `x`.
fn le_hi(x: u16) -> (b: u8)
    ensures
        b == spec_le_hi(x),
{
    ((x & 0xff00) >> 8) as u8
}

/// The device descriptor: how the device identifies itself to the host.
pub struct DeviceDescriptor {
    pub usb_version: u16,
    pub device_class: u8,
    pub device_subclass: u8,
    pub device_protocol: u8,
    pub max_packet_size: u8,
    pub vendor_id: u16,
    pub product_id: u16,
    pub device_version: u16,
    pub manufacturer_string_index: u8,
    pub product_string_index: u8,
    pub serial_number_string_index: u8,
    pub num_configurations: u8,
}

impl DeviceDescriptor {
    /// The descriptor's wire image: every 16-bit field already sits at
    /// an even offset, so no padding is needed.
    pub open spec fn spec_serialize(self) -> Seq<u8> {
        seq![
            DEVICE_DESCRIPTOR_LENGTH,
            0x01,
            spec_le_lo(self.usb_version),
            spec_le_hi(self.usb_version),
            self.device_class,
            self.device_subclass,
            self.device_protocol,
            self.max_packet_size,
            spec_le_lo(self.vendor_id),
            spec_le_hi(self.vendor_id),
            spec_le_lo(self.product_id),
            spec_le_hi(self.product_id),
            spec_le_lo(self.device_version),
            spec_le_hi(self.device_version),
            self.manufacturer_string_index,
            self.product_string_index,
            self.serial_number_string_index,
            self.num_configurations,
        ]
    }

    /// The 18 bytes sent in answer to a device-descriptor request.
    pub fn serialize(&self) -> (r: Vec<u8>)
        ensures
            r@ == self.spec_serialize(),
    {
        let mut r: Vec<u8> = Vec::new();
        r.push(DEVICE_DESCRIPTOR_LENGTH);
        r.push(0x01);
        r.push(le_lo(self.usb_version));
        r.push(le_hi(self.usb_version));
        r.push(self.device_class);
        r.push(self.device_subclass);
        r.push(self.device_protocol);
        r.push(self.max_packet_size);
        r.push(le_lo(self.vendor_id));
        r.push(le_hi(self.vendor_id));
        r.push(le_lo(self.product_id));
        r.push(le_hi(self.product_id));
        r.push(le_lo(self.device_version));
        r.push(le_hi(self.device_version));
        r.push(self.manufacturer_string_index);
        r.push(self.product_string_index);
        r.push(self.serial_number_string_index);
        r.push(self.num_configurations);
        proof {
            assert(r@ =~= self.spec_serialize());
        }
        r
    }
}

/// The configuration descriptor: one bus-powered configuration and the
/// total size of the configuration hierarchy that follows it.
pub struct ConfigurationDescriptor {
    pub total_length: u16,
    pub num_interfaces: u8,
    pub configuration_value: u8,
    pub configuration_string_index: u8,
    pub attributes: u8,
    pub max_power: u8,
}

impl ConfigurationDescriptor {
    /// The descriptor's wire image: six field bytes after the 16-bit
    /// total length, then one zero byte padding the image to its even
    /// ten-byte size.
    pub open spec fn spec_serialize(self) -> Seq<u8> {
        seq![
            CONFIGURATION_DESCRIPTOR_LENGTH,
            0x02,
            spec_le_lo(self.total_length),
            spec_le_hi(self.total_length),
            self.num_interfaces,
            self.configuration_value,
            self.configuration_string_index,
            self.attributes,
            self.max_power,
            0,
        ]
    }

    /// The 10 bytes sent in answer to a configuration-descriptor request.
    pub fn serialize(&self) -> (r: Vec<u8>)
        ensures
            r@ == self.spec_serialize(),
    {
        let mut r: Vec<u8> = Vec::new();
        r.push(CONFIGURATION_DESCRIPTOR_LENGTH);
        r.push(0x02);
        r.push(le_lo(self.total_length));
        r.push(le_hi(self.total_length));
        r.push(self.num_interfaces);
        r.push(self.configuration_value);
        r.push(self.configuration_string_index);
        r.push(self.attributes);
        r.push(self.max_power);
        r.push(0);
        proof {
            assert(r@ =~= self.spec_serialize());
        }
        r
    }
}

/// The interface descriptor: the one HID interface of a configuration.
pub struct InterfaceDescriptor {
    pub interface_number: u8,
    pub alternate_setting: u8,
    pub num_endpoints: u8,
    pub interface_class: u8,
    pub interface_subclass: u8,
    pub interface_protocol: u8,
    pub interface_string_index: u8,
}

impl InterfaceDescriptor {
    /// The descriptor's wire image: all fields single bytes, no padding.
    pub open spec fn spec_serialize(self) -> Seq<u8> {
        seq![
            INTERFACE_DESCRIPTOR_LENGTH,
            0x04,
            self.interface_number,
            self.alternate_setting,
            self.num_endpoints,
            self.interface_class,
            self.interface_subclass,
            self.interface_protocol,
            self.interface_string_index,
        ]
    }

    /// The 9 bytes of the interface descriptor inside the configuration
    /// hierarchy.
    pub fn serialize(&self) -> (r: Vec<u8>)
        ensures
            r@ == self.spec_serialize(),
    {
        let mut r: Vec<u8> = Vec::new();
        r.push(INTERFACE_DESCRIPTOR_LENGTH);
        r.push(0x04);
        r.push(self.interface_number);
        r.push(self.alternate_setting);
        r.push(self.num_endpoints);
        r.push(self.interface_class);
        r.push(self.interface_subclass);
        r.push(self.interface_protocol);
        r.push(self.interface_string_index);
        proof {
            assert(r@ =~= self.spec_serialize());
        }
        r
    }
}

/// The endpoint descriptor: the interrupt-in endpoint reports leave by.
pub struct EndpointDescriptor {
    pub endpoint_address: u8,
    pub attributes: u8,
    pub max_packet_size: u16,
    pub interval: u8,
}

impl EndpointDescriptor {
    /// The descriptor's wire image: the 16-bit packet size sits at its
    /// even offset, and one zero byte pads the image to its even
    /// eight-byte size.
    pub open spec fn spec_serialize(self) -> Seq<u8> {
        seq![
            ENDPOINT_DESCRIPTOR_LENGTH,
            0x05,
            self.endpoint_address,
            self.attributes,
            spec_le_lo(self.max_packet_size),
            spec_le_hi(self.max_packet_size),
            self.interval,
            0,
        ]
    }

    /// The 8 bytes of the endpoint descriptor inside the configuration
    /// hierarchy.
    pub fn serialize(&self) -> (r: Vec<u8>)
        ensures
            r@ == self.spec_serialize(),
    {
        let mut r: Vec<u8> = Vec::new();
        r.push(ENDPOINT_DESCRIPTOR_LENGTH);
        r.push(0x05);
        r.push(self.endpoint_address);
        r.push(self.attributes);
        r.push(le_lo(self.max_packet_size));
        r.push(le_hi(self.max_packet_size));
        r.push(self.interval);
        r.push(0);
        proof {
            assert(r@ =~= self.spec_serialize());
        }
        r
    }
}

/// The HID class descriptor: names the report descriptor that follows.
pub struct HIDDescriptor {
    pub hid_version: u16,
    pub country_code: u8,
    pub num_child_descriptors: u8,
    pub child_descriptor_type: u8,
    pub child_descriptor_length: u16,
}

impl HIDDescriptor {
    /// The descriptor's wire image: one zero byte pads the child
    /// descriptor length out to its even offset.
    pub open spec fn spec_serialize(self) -> Seq<u8> {
        seq![
            HID_DESCRIPTOR_LENGTH,
            0x21,
            spec_le_lo(self.hid_version),
            spec_le_hi(self.hid_version),
            self.country_code,
            self.num_child_descriptors,
            self.child_descriptor_type,
            0,
            spec_le_lo(self.child_descriptor_length),
            spec_le_hi(self.child_descriptor_length),
        ]
    }

    /// The 10 bytes of the HID descriptor inside the configuration
    /// hierarchy.
    pub fn serialize(&self) -> (r: Vec<u8>)
        ensures
            r@ == self.spec_serialize(),
    {
        let mut r: Vec<u8> = Vec::new();
        r.push(HID_DESCRIPTOR_LENGTH);
        r.push(0x21);
        r.push(le_lo(self.hid_version));
        r.push(le_hi(self.hid_version));
        r.push(self.country_code);
        r.push(self.num_child_descriptors);
        r.push(self.child_descriptor_type);
        r.push(0);
        r.push(le_lo(self.child_descriptor_length));
        r.push(le_hi(self.child_descriptor_length));
        proof {
            assert(r@ =~= self.spec_serialize());
        }
        r
    }
}

/// The device identity this build advertises: the development fixture's
/// vendor and product, a 32-byte control endpoint, one configuration.
pub fn device_descriptor() -> (d: DeviceDescriptor)
    ensures
        d.usb_version == 0x0200,
        d.device_class == 0,
        d.device_subclass == 0,
        d.device_protocol == 0,
        d.max_packet_size == 32,
        d.vendor_id == 0xfeed,
        d.product_id == 0x0001,
        d.device_version == 0x0100,
        d.manufacturer_string_index == 0,
        d.product_string_index == 0,
        d.serial_number_string_index == 0,
        d.num_configurations == 1,
{
    DeviceDescriptor {
        usb_version: 0x0200,
        device_class: 0,
        device_subclass: 0,
        device_protocol: 0,
        max_packet_size: 32,
        vendor_id: 0xfeed,
        product_id: 0x0001,
        device_version: 0x0100,
        manufacturer_string_index: 0,
        product_string_index: 0,
        serial_number_string_index: 0,
        num_configurations: 1,
    }
}

/// The single bus-powered configuration: its total length covers the
/// configuration, interface, endpoint and HID descriptors that answer a
/// configuration request together.
pub fn config_descriptor() -> (d: ConfigurationDescriptor)
    ensures
        d.total_length == CONFIGURATION_DESCRIPTOR_LENGTH as u16 + INTERFACE_DESCRIPTOR_LENGTH
            as u16 + ENDPOINT_DESCRIPTOR_LENGTH as u16 + HID_DESCRIPTOR_LENGTH as u16,
        d.num_interfaces == 1,
        d.configuration_value == 1,
        d.configuration_string_index == 0,
        d.attributes == 0xC0,
        d.max_power == 50,
{
    ConfigurationDescriptor {
        total_length: CONFIGURATION_DESCRIPTOR_LENGTH as u16 + INTERFACE_DESCRIPTOR_LENGTH as u16
            + ENDPOINT_DESCRIPTOR_LENGTH as u16 + HID_DESCRIPTOR_LENGTH as u16,
        num_interfaces: 1,
        configuration_value: 1,
        configuration_string_index: 0,
        attributes: 0xC0,
        max_power: 50,
    }
}

/// The keyboard persona's interface: HID class, boot subclass, keyboard
/// protocol, one interrupt endpoint.
pub fn keyboard_interface_descriptor() -> (d: InterfaceDescriptor)
    ensures
        d.interface_number == 0,
        d.alternate_setting == 0,
        d.num_endpoints == 1,
        d.interface_class == 0x03,
        d.interface_subclass == 0x01,
        d.interface_protocol == 0x01,
        d.interface_string_index == 0,
{
    InterfaceDescriptor {
        interface_number: 0,
        alternate_setting: 0,
        num_endpoints: 1,
        interface_class: 0x03,  // HID
        interface_subclass: 0x01,  // boot subclass: this is a keyboard
        interface_protocol: 0x01,  // keyboard protocol
        interface_string_index: 0,
    }
}

/// The keyboard persona's interrupt-in endpoint: endpoint 3, polled
/// every frame, 8-byte reports.
pub fn keyboard_endpoint_descriptor() -> (d: EndpointDescriptor)
    ensures
        d.endpoint_address == 0x83,
        d.attributes == 0x03,
        d.max_packet_size == 8,
        d.interval == 0x01,
{
    EndpointDescriptor {
        endpoint_address: 0x83,  // endpoint 3, direction in
        attributes: 0x03,  // interrupt
        max_packet_size: 8,
        interval: 0x01,
    }
}

/// The keyboard persona's HID descriptor: one child, the 63-byte boot
/// keyboard report descriptor.
pub fn keyboard_hid_descriptor() -> (d: HIDDescriptor)
    ensures
        d.hid_version == 0x0111,
        d.country_code == 0,
        d.num_child_descriptors == 1,
        d.child_descriptor_type == 0x22,
        d.child_descriptor_length == 63,
{
    HIDDescriptor {
        hid_version: 0x0111,
        country_code: 0,
        num_child_descriptors: 1,
        child_descriptor_type: 0x22,  // report descriptor
        child_descriptor_length: 63,
    }
}

} // verus!
