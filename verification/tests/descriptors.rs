#![allow(non_snake_case)]

use schismatic::descriptors::ConfigurationAttributes;
use schismatic::descriptors::ConfigurationDescriptor;
use schismatic::descriptors::DeviceDescriptor;
use schismatic::descriptors::EndpointDescriptor;
use schismatic::descriptors::InterfaceDescriptor;
use schismatic::descriptors::MaxPower;
use schismatic::descriptors::StringDescriptorIndex;
use schismatic::descriptors::libusb_config_descriptor;
use schismatic::descriptors::libusb_device_descriptor;
use schismatic::descriptors::libusb_endpoint_descriptor;
use schismatic::descriptors::libusb_interface;
use schismatic::descriptors::libusb_interface_descriptor;
use schismatic::endpoint::EndpointAddress;
use schismatic::endpoint::EndpointAttributes;

fn raw_endpoint(address: u8, attributes: u8) -> libusb_endpoint_descriptor {
    libusb_endpoint_descriptor {
        bLength: 7,
        bDescriptorType: 5,
        bEndpointAddress: address,
        bmAttributes: attributes,
        wMaxPacketSize: 64,
        bInterval: 0,
        bRefresh: 0,
        bSynchAddress: 0,
    }
}

fn raw_interface_descriptor(
    number: u8,
    alternate: u8,
    endpoints: Vec<libusb_endpoint_descriptor>,
) -> libusb_interface_descriptor {
    libusb_interface_descriptor {
        bLength: 9,
        bDescriptorType: 4,
        bInterfaceNumber: number,
        bAlternateSetting: alternate,
        bInterfaceClass: 0xff,
        bInterfaceSubClass: 0,
        bInterfaceProtocol: 0,
        iInterface: 0,
        endpoint: endpoints,
    }
}

#[test]
fn string_descriptor_index_zero_means_absent() {
    assert_eq!(StringDescriptorIndex::from_ffi(0), None);
    let index = StringDescriptorIndex::from_ffi(5).unwrap();
    assert_eq!(index.get(), 5);
}

#[test]
fn device_descriptor_from_ffi_copies_every_field() {
    let raw = libusb_device_descriptor {
        bLength: 18,
        bDescriptorType: 1,
        bcdUSB: 0x0200,
        bDeviceClass: 0xef,
        bDeviceSubClass: 2,
        bDeviceProtocol: 1,
        bMaxPacketSize0: 64,
        idVendor: 0x2e8a,
        idProduct: 0x0003,
        bcdDevice: 0x0100,
        iManufacturer: 1,
        iProduct: 2,
        iSerialNumber: 0,
        bNumConfigurations: 1,
    };
    let descriptor = DeviceDescriptor::from_ffi(&raw);
    assert_eq!(descriptor.bcd_usb, 0x0200);
    assert_eq!(descriptor.device_class, 0xef);
    assert_eq!(descriptor.device_sub_class, 2);
    assert_eq!(descriptor.device_protocol, 1);
    assert_eq!(descriptor.max_packet_size, 64);
    assert_eq!(descriptor.vendor_id, 0x2e8a);
    assert_eq!(descriptor.product_id, 0x0003);
    assert_eq!(descriptor.bcd_device, 0x0100);
    assert_eq!(descriptor.manufacturer, StringDescriptorIndex::from_ffi(1));
    assert_eq!(descriptor.product, StringDescriptorIndex::from_ffi(2));
    assert_eq!(descriptor.serial_number, None);
    assert_eq!(descriptor.num_configurations, 1);
}

#[test]
fn endpoint_descriptor_from_ffi_copies_address_and_attributes() {
    let raw = raw_endpoint(0x81, 0x02);
    let endpoint = EndpointDescriptor::from_ffi(&raw);
    assert_eq!(endpoint.endpoint_address, EndpointAddress::from(0x81u8));
    assert_eq!(endpoint.attributes, EndpointAttributes(0x02));
    assert_eq!(endpoint.max_packet_size, 64);
    assert_eq!(endpoint.interval, 0);
}

#[test]
fn interface_descriptor_from_ffi_converts_endpoints_in_order() {
    let raw = raw_interface_descriptor(
        3,
        1,
        vec![raw_endpoint(0x81, 2), raw_endpoint(0x02, 2)],
    );
    let interface = InterfaceDescriptor::from_ffi(&raw);
    assert_eq!(interface.interface_number, 3);
    assert_eq!(interface.alternate_setting, 1);
    assert_eq!(interface.interface_class, 0xff);
    assert_eq!(interface.interface, None);
    assert_eq!(interface.endpoints.len(), 2);
    assert_eq!(
        interface.endpoints[0].endpoint_address,
        EndpointAddress::from(0x81u8)
    );
    assert_eq!(
        interface.endpoints[1].endpoint_address,
        EndpointAddress::from(0x02u8)
    );
}

#[test]
fn configuration_descriptor_from_ffi_flattens_alternate_settings() {
    let raw = libusb_config_descriptor {
        bLength: 9,
        bDescriptorType: 2,
        wTotalLength: 60,
        bConfigurationValue: 1,
        iConfiguration: 4,
        bmAttributes: 0x80,
        MaxPower: 50,
        interface: vec![
            libusb_interface {
                altsetting: vec![
                    raw_interface_descriptor(0, 0, vec![]),
                    raw_interface_descriptor(0, 1, vec![raw_endpoint(0x81, 2)]),
                ],
            },
            libusb_interface { altsetting: vec![raw_interface_descriptor(1, 0, vec![])] },
        ],
    };
    let configuration = ConfigurationDescriptor::from_ffi(&raw);
    assert_eq!(configuration.configuration_value, 1);
    assert_eq!(configuration.configuration, StringDescriptorIndex::from_ffi(4));
    assert_eq!(configuration.attributes, ConfigurationAttributes(0x80));
    assert_eq!(configuration.max_power, MaxPower(50));
    // grouped (2 alternate settings) + (1 alternate setting) flatten to 3
    assert_eq!(configuration.interfaces.len(), 3);
    assert_eq!(configuration.interfaces[0].interface_number, 0);
    assert_eq!(configuration.interfaces[0].alternate_setting, 0);
    assert_eq!(configuration.interfaces[1].interface_number, 0);
    assert_eq!(configuration.interfaces[1].alternate_setting, 1);
    assert_eq!(configuration.interfaces[1].endpoints.len(), 1);
    assert_eq!(configuration.interfaces[2].interface_number, 1);
}

#[test]
fn empty_configuration_yields_no_interfaces() {
    let raw = libusb_config_descriptor {
        bLength: 9,
        bDescriptorType: 2,
        wTotalLength: 9,
        bConfigurationValue: 1,
        iConfiguration: 0,
        bmAttributes: 0,
        MaxPower: 0,
        interface: vec![],
    };
    let configuration = ConfigurationDescriptor::from_ffi(&raw);
    assert!(configuration.interfaces.is_empty());
    assert_eq!(configuration.configuration, None);
}
