#![allow(non_snake_case)]

use schismatic::descriptors::ConfigurationAttributes;
use schismatic::descriptors::ConfigurationDescriptor;
use schismatic::descriptors::DeviceDescriptor;
use schismatic::descriptors::EndpointDescriptor;
use schismatic::descriptors::InterfaceDescriptor;
use schismatic::descriptors::MaxPower;
use schismatic::descriptors::libusb_device_descriptor;
use schismatic::endpoint::EndpointAddress;
use schismatic::endpoint::EndpointAttributes;
use schismatic::picoboot::PicobootInterface;
use schismatic::picoboot::device_descriptor_matches;
use schismatic::picoboot::find_interface;

fn endpoint(address: u8, attributes: u8) -> EndpointDescriptor {
    EndpointDescriptor {
        endpoint_address: EndpointAddress::from(address),
        attributes: EndpointAttributes(attributes),
        max_packet_size: 64,
        interval: 0,
    }
}

fn interface(
    number: u8,
    class: u8,
    sub_class: u8,
    protocol: u8,
    endpoints: Vec<EndpointDescriptor>,
) -> InterfaceDescriptor {
    InterfaceDescriptor {
        interface_number: number,
        alternate_setting: 0,
        interface_class: class,
        interface_sub_class: sub_class,
        interface_protocol: protocol,
        interface: None,
        endpoints,
    }
}

fn configuration(interfaces: Vec<InterfaceDescriptor>) -> ConfigurationDescriptor {
    ConfigurationDescriptor {
        configuration_value: 1,
        configuration: None,
        attributes: ConfigurationAttributes(0x80),
        max_power: MaxPower(50),
        interfaces,
    }
}

fn picoboot_device(vendor_id: u16, product_id: u16) -> DeviceDescriptor {
    let raw = libusb_device_descriptor {
        bLength: 18,
        bDescriptorType: 1,
        bcdUSB: 0x0200,
        bDeviceClass: 0,
        bDeviceSubClass: 0,
        bDeviceProtocol: 0,
        bMaxPacketSize0: 64,
        idVendor: vendor_id,
        idProduct: product_id,
        bcdDevice: 0x0100,
        iManufacturer: 0,
        iProduct: 0,
        iSerialNumber: 0,
        bNumConfigurations: 1,
    };
    DeviceDescriptor::from_ffi(&raw)
}

#[test]
fn device_matches_only_the_picoboot_vendor_and_product() {
    assert!(device_descriptor_matches(&picoboot_device(0x2e8a, 0x0003)));
    assert!(!device_descriptor_matches(&picoboot_device(0x2e8a, 0x0004)));
    assert!(!device_descriptor_matches(&picoboot_device(0x1234, 0x0003)));
}

#[test]
fn empty_configuration_has_no_picoboot_interface() {
    assert_eq!(find_interface(&configuration(vec![])), None);
}

#[test]
fn wrong_class_is_skipped() {
    let config = configuration(vec![interface(
        0,
        0x0a,
        0,
        0,
        vec![endpoint(0x81, 2), endpoint(0x02, 2)],
    )]);
    assert_eq!(find_interface(&config), None);
}

#[test]
fn matching_interface_is_found() {
    let config = configuration(vec![interface(
        2,
        0xff,
        0,
        0,
        vec![endpoint(0x83, 2), endpoint(0x04, 2)],
    )]);
    assert_eq!(
        find_interface(&config),
        Some(PicobootInterface {
            interface_number: 2,
            alternate_setting: 0,
            in_endpoint: EndpointAddress::from(0x83u8),
            out_endpoint: EndpointAddress::from(0x04u8),
        })
    );
}

#[test]
fn last_bulk_endpoint_of_each_direction_wins() {
    let config = configuration(vec![interface(
        0,
        0xff,
        0,
        0,
        vec![
            endpoint(0x81, 2),
            endpoint(0x01, 2),
            endpoint(0x82, 2),
            endpoint(0x02, 2),
        ],
    )]);
    let found = find_interface(&config).unwrap();
    assert_eq!(found.in_endpoint, EndpointAddress::from(0x82u8));
    assert_eq!(found.out_endpoint, EndpointAddress::from(0x02u8));
}

#[test]
fn non_bulk_endpoints_are_ignored() {
    // interrupt-in plus bulk-out is not enough: no bulk-in endpoint
    let config = configuration(vec![interface(
        0,
        0xff,
        0,
        0,
        vec![endpoint(0x81, 3), endpoint(0x02, 2)],
    )]);
    assert_eq!(find_interface(&config), None);
}

#[test]
fn first_suitable_interface_wins() {
    let unsuitable = interface(0, 0xff, 0, 0, vec![endpoint(0x81, 2)]);
    let first_suitable = interface(1, 0xff, 0, 0, vec![endpoint(0x82, 2), endpoint(0x03, 2)]);
    let later_suitable = interface(2, 0xff, 0, 0, vec![endpoint(0x84, 2), endpoint(0x05, 2)]);
    let config = configuration(vec![unsuitable, first_suitable, later_suitable]);
    assert_eq!(find_interface(&config).unwrap().interface_number, 1);
}

#[test]
fn wrong_sub_class_or_protocol_is_skipped() {
    let wrong_sub = interface(0, 0xff, 1, 0, vec![endpoint(0x81, 2), endpoint(0x02, 2)]);
    let wrong_protocol = interface(1, 0xff, 0, 7, vec![endpoint(0x81, 2), endpoint(0x02, 2)]);
    let config = configuration(vec![wrong_sub, wrong_protocol]);
    assert_eq!(find_interface(&config), None);
}
