#![allow(non_camel_case_types)]
#![allow(non_snake_case)]
//! Decoding the native driver's descriptor records into owned, structured
//! values. The `libusb_*` records mirror the native layout with each
//! (pointer, count) pair replaced by an owned vector: the surrounding
//! application copies the native memory into them before conversion. A
//! configuration's interfaces arrive grouped by interface with one record
//! per alternate setting; conversion flattens the grouping.

use vstd::prelude::*;

use crate::endpoint::EndpointAddress;
use crate::endpoint::EndpointAttributes;

verus! {

#[derive(Debug, Clone, Copy, PartialEq, Eq, Structural)]
pub struct libusb_device_descriptor {
    pub bLength: u8,
    pub bDescriptorType: u8,
    pub bcdUSB: u16,
    pub bDeviceClass: u8,
    pub bDeviceSubClass: u8,
    pub bDeviceProtocol: u8,
    pub bMaxPacketSize0: u8,
    pub idVendor: u16,
    pub idProduct: u16,
    pub bcdDevice: u16,
    pub iManufacturer: u8,
    pub iProduct: u8,
    pub iSerialNumber: u8,
    pub bNumConfigurations: u8,
}

#[derive(Debug, Clone, Copy, PartialEq, Eq, Structural)]
pub struct libusb_endpoint_descriptor {
    pub bLength: u8,
    pub bDescriptorType: u8,
    pub bEndpointAddress: u8,
    pub bmAttributes: u8,
    pub wMaxPacketSize: u16,
    pub bInterval: u8,
    pub bRefresh: u8,
    pub bSynchAddress: u8,
}

#[derive(Debug, Clone, PartialEq, Eq)]
pub struct libusb_interface_descriptor {
    pub bLength: u8,
    pub bDescriptorType: u8,
    pub bInterfaceNumber: u8,
    pub bAlternateSetting: u8,
    pub bInterfaceClass: u8,
    pub bInterfaceSubClass: u8,
    pub bInterfaceProtocol: u8,
    pub iInterface: u8,
    pub endpoint: Vec<libusb_endpoint_descriptor>,
}

#[derive(Debug, Clone, PartialEq, Eq)]
pub struct libusb_interface {
    pub altsetting: Vec<libusb_interface_descriptor>,
}

#[derive(Debug, Clone, PartialEq, Eq)]
pub struct libusb_config_descriptor {
    pub bLength: u8,
    pub bDescriptorType: u8,
    pub wTotalLength: u16,
    pub bConfigurationValue: u8,
    pub iConfiguration: u8,
    pub bmAttributes: u8,
    pub MaxPower: u8,
    pub interface: Vec<libusb_interface>,
}

/// A string-descriptor table index; index zero means "no string", so a
/// present index is never zero.
#[derive(Debug, Clone, Copy, PartialEq, Eq, Hash, Structural)]
pub struct StringDescriptorIndex(u8);

impl View for StringDescriptorIndex {
    type V = u8;

    closed spec fn view(&self) -> u8 {
        self.0
    }
}

impl StringDescriptorIndex {
    pub open spec fn wf(self) -> bool {
        self@ != 0
    }

    /// A zero index in a native record means the string is absent.
    pub fn from_ffi(index: u8) -> (r: Option<Self>)
        ensures
            index == 0 <==> r is None,
            r matches Some(s) ==> s@ == index && s.wf(),
    {
        if index == 0 {
            None
        } else {
            Some(StringDescriptorIndex(index))
        }
    }

    pub fn get(self) -> (r: u8)
        ensures
            r == self@,
    {
        self.0
    }
}

#[derive(Debug, Clone, Copy, PartialEq, Eq, Structural)]
pub struct ConfigurationAttributes(pub u8);

#[derive(Debug, Clone, Copy, PartialEq, Eq, Structural)]
pub struct MaxPower(pub u8);

#[derive(Debug, Clone, PartialEq, Eq)]
pub struct DeviceDescriptor {
    pub bcd_usb: u16,
    pub device_class: u8,
    pub device_sub_class: u8,
    pub device_protocol: u8,
    pub max_packet_size: u8,
    pub vendor_id: u16,
    pub product_id: u16,
    pub bcd_device: u16,
    pub manufacturer: Option<StringDescriptorIndex>,
    pub product: Option<StringDescriptorIndex>,
    pub serial_number: Option<StringDescriptorIndex>,
    pub num_configurations: u8,
}

#[derive(Debug, Clone, PartialEq, Eq)]
pub struct ConfigurationDescriptor {
    pub configuration_value: u8,
    pub configuration: Option<StringDescriptorIndex>,
    pub attributes: ConfigurationAttributes,
    pub max_power: MaxPower,
    pub interfaces: Vec<InterfaceDescriptor>,
}

#[derive(Debug, Clone, PartialEq, Eq)]
pub struct InterfaceDescriptor {
    pub interface_number: u8,
    pub alternate_setting: u8,
    pub interface_class: u8,
    pub interface_sub_class: u8,
    pub interface_protocol: u8,
    pub interface: Option<StringDescriptorIndex>,
    pub endpoints: Vec<EndpointDescriptor>,
}

#[derive(Debug, Clone, Copy, PartialEq, Eq, Structural)]
pub struct EndpointDescriptor {
    pub endpoint_address: EndpointAddress,
    pub attributes: EndpointAttributes,
    pub max_packet_size: u16,
    pub interval: u8,
}

/// What an optional string index decodes to: absent for zero.
pub open spec fn string_index_from_raw(conv: Option<StringDescriptorIndex>, index: u8) -> bool {
    &&& index == 0 <==> conv is None
    &&& conv matches Some(s) ==> s@ == index
}

/// The structured endpoint a raw endpoint record decodes to.
pub open spec fn endpoint_from_raw(d: libusb_endpoint_descriptor) -> EndpointDescriptor {
    EndpointDescriptor {
        endpoint_address: EndpointAddress(d.bEndpointAddress),
        attributes: EndpointAttributes(d.bmAttributes),
        max_packet_size: d.wMaxPacketSize,
        interval: d.bInterval,
    }
}

/// The structured endpoints a raw endpoint list decodes to, in order.
pub open spec fn endpoints_from_raw(raw: Seq<libusb_endpoint_descriptor>) -> Seq<
    EndpointDescriptor,
>
    decreases raw.len(),
{
    if raw.len() == 0 {
        Seq::empty()
    } else {
        endpoints_from_raw(raw.drop_last()).push(endpoint_from_raw(raw.last()))
    }
}

/// The decoded endpoint list has one entry per raw record, each decoded
/// from the record at the same position.
pub proof fn lemma_endpoints_from_raw(raw: Seq<libusb_endpoint_descriptor>)
    ensures
        endpoints_from_raw(raw).len() == raw.len(),
        forall|k: int|
            0 <= k < raw.len() ==> endpoints_from_raw(raw)[k] == endpoint_from_raw(raw[k]),
    decreases raw.len(),
{
    if raw.len() > 0 {
        lemma_endpoints_from_raw(raw.drop_last());
    }
}

/// What a raw interface record decodes to, field by field.
pub open spec fn interface_from_raw(conv: InterfaceDescriptor, d: libusb_interface_descriptor) -> bool {
    &&& conv.interface_number == d.bInterfaceNumber
    &&& conv.alternate_setting == d.bAlternateSetting
    &&& conv.interface_class == d.bInterfaceClass
    &&& conv.interface_sub_class == d.bInterfaceSubClass
    &&& conv.interface_protocol == d.bInterfaceProtocol
    &&& string_index_from_raw(conv.interface, d.iInterface)
    &&& conv.endpoints@ == endpoints_from_raw(d.endpoint@)
}

/// A configuration's raw interface records, every alternate setting of
/// every interface, in order.
pub open spec fn flattened_altsettings(raw: Seq<libusb_interface>) -> Seq<
    libusb_interface_descriptor,
>
    decreases raw.len(),
{
    if raw.len() == 0 {
        Seq::empty()
    } else {
        flattened_altsettings(raw.drop_last()) + raw.last().altsetting@
    }
}

/// What a configuration's grouped raw interface list decodes to: one
/// structured interface per alternate setting, in order.
pub open spec fn interfaces_from_raw(conv: Seq<InterfaceDescriptor>, raw: Seq<libusb_interface>) -> bool {
    let flat = flattened_altsettings(raw);
    &&& conv.len() == flat.len()
    &&& forall|k: int| 0 <= k < flat.len() ==> interface_from_raw(#[trigger] conv[k], flat[k])
}

impl DeviceDescriptor {
    pub fn from_ffi(descriptor: &libusb_device_descriptor) -> (r: Self)
        ensures
            r.bcd_usb == descriptor.bcdUSB,
            r.device_class == descriptor.bDeviceClass,
            r.device_sub_class == descriptor.bDeviceSubClass,
            r.device_protocol == descriptor.bDeviceProtocol,
            r.max_packet_size == descriptor.bMaxPacketSize0,
            r.vendor_id == descriptor.idVendor,
            r.product_id == descriptor.idProduct,
            r.bcd_device == descriptor.bcdDevice,
            string_index_from_raw(r.manufacturer, descriptor.iManufacturer),
            string_index_from_raw(r.product, descriptor.iProduct),
            string_index_from_raw(r.serial_number, descriptor.iSerialNumber),
            r.num_configurations == descriptor.bNumConfigurations,
    {
        DeviceDescriptor {
            bcd_usb: descriptor.bcdUSB,
            device_class: descriptor.bDeviceClass,
            device_sub_class: descriptor.bDeviceSubClass,
            device_protocol: descriptor.bDeviceProtocol,
            max_packet_size: descriptor.bMaxPacketSize0,
            vendor_id: descriptor.idVendor,
            product_id: descriptor.idProduct,
            bcd_device: descriptor.bcdDevice,
            manufacturer: StringDescriptorIndex::from_ffi(descriptor.iManufacturer),
            product: StringDescriptorIndex::from_ffi(descriptor.iProduct),
            serial_number: StringDescriptorIndex::from_ffi(descriptor.iSerialNumber),
            num_configurations: descriptor.bNumConfigurations,
        }
    }
}

impl EndpointDescriptor {
    pub fn from_ffi(descriptor: &libusb_endpoint_descriptor) -> (r: Self)
        ensures
            r == endpoint_from_raw(*descriptor),
    {
        EndpointDescriptor {
            endpoint_address: EndpointAddress(descriptor.bEndpointAddress),
            attributes: EndpointAttributes(descriptor.bmAttributes),
            max_packet_size: descriptor.wMaxPacketSize,
            interval: descriptor.bInterval,
        }
    }
}

impl InterfaceDescriptor {
    pub fn from_ffi(descriptor: &libusb_interface_descriptor) -> (r: Self)
        ensures
            interface_from_raw(r, *descriptor),
            r.endpoints@.len() == descriptor.endpoint@.len(),
            forall|k: int|
                0 <= k < descriptor.endpoint@.len() ==> #[trigger] r.endpoints@[k]
                    == endpoint_from_raw(descriptor.endpoint@[k]),
    {
        proof {
            lemma_endpoints_from_raw(descriptor.endpoint@);
        }
        let mut endpoints: Vec<EndpointDescriptor> = Vec::new();
        let mut i: usize = 0;
        while i < descriptor.endpoint.len()
            invariant
                i <= descriptor.endpoint@.len(),
                endpoints@ == endpoints_from_raw(descriptor.endpoint@.take(i as int)),
            decreases descriptor.endpoint@.len() - i,
        {
            endpoints.push(EndpointDescriptor::from_ffi(&descriptor.endpoint[i]));
            proof {
                let s = descriptor.endpoint@;
                assert(s.take(i + 1).drop_last() =~= s.take(i as int));
                assert(s.take(i + 1).last() == s[i as int]);
            }
            i = i + 1;
        }
        proof {
            assert(descriptor.endpoint@.take(descriptor.endpoint@.len() as int)
                =~= descriptor.endpoint@);
        }
        InterfaceDescriptor {
            interface_number: descriptor.bInterfaceNumber,
            alternate_setting: descriptor.bAlternateSetting,
            interface_class: descriptor.bInterfaceClass,
            interface_sub_class: descriptor.bInterfaceSubClass,
            interface_protocol: descriptor.bInterfaceProtocol,
            interface: StringDescriptorIndex::from_ffi(descriptor.iInterface),
            endpoints,
        }
    }
}

impl ConfigurationDescriptor {
    pub fn from_ffi(descriptor: &libusb_config_descriptor) -> (r: Self)
        ensures
            r.configuration_value == descriptor.bConfigurationValue,
            string_index_from_raw(r.configuration, descriptor.iConfiguration),
            r.attributes == ConfigurationAttributes(descriptor.bmAttributes),
            r.max_power == MaxPower(descriptor.MaxPower),
            interfaces_from_raw(r.interfaces@, descriptor.interface@),
    {
        let mut interfaces: Vec<InterfaceDescriptor> = Vec::new();
        let mut i: usize = 0;
        while i < descriptor.interface.len()
            invariant
                i <= descriptor.interface@.len(),
                interfaces@.len() == flattened_altsettings(
                    descriptor.interface@.take(i as int),
                ).len(),
                forall|k: int|
                    0 <= k < interfaces@.len() ==> interface_from_raw(
                        #[trigger] interfaces@[k],
                        flattened_altsettings(descriptor.interface@.take(i as int))[k],
                    ),
            decreases descriptor.interface@.len() - i,
        {
            let group = &descriptor.interface[i];
            let ghost taken = flattened_altsettings(descriptor.interface@.take(i as int));
            let mut j: usize = 0;
            while j < group.altsetting.len()
                invariant
                    j <= group.altsetting@.len(),
                    group == &descriptor.interface@[i as int],
                    i < descriptor.interface@.len(),
                    taken == flattened_altsettings(descriptor.interface@.take(i as int)),
                    interfaces@.len() == taken.len() + j,
                    forall|k: int|
                        0 <= k < taken.len() ==> interface_from_raw(
                            #[trigger] interfaces@[k],
                            taken[k],
                        ),
                    forall|k: int|
                        taken.len() <= k < interfaces@.len() ==> interface_from_raw(
                            #[trigger] interfaces@[k],
                            group.altsetting@[k - taken.len()],
                        ),
                decreases group.altsetting@.len() - j,
            {
                interfaces.push(InterfaceDescriptor::from_ffi(&group.altsetting[j]));
                j = j + 1;
            }
            proof {
                let s = descriptor.interface@;
                assert(s.take(i + 1).drop_last() =~= s.take(i as int));
                assert(s.take(i + 1).last() == s[i as int]);
                assert(flattened_altsettings(s.take(i + 1)) == taken + group.altsetting@);
                assert forall|k: int|
                    0 <= k < interfaces@.len() implies interface_from_raw(
                    #[trigger] interfaces@[k],
                    (taken + group.altsetting@)[k],
                ) by {
                    if k < taken.len() {
                    } else {
                    }
                }
            }
            i = i + 1;
        }
        proof {
            assert(descriptor.interface@.take(descriptor.interface@.len() as int)
                =~= descriptor.interface@);
        }
        ConfigurationDescriptor {
            configuration_value: descriptor.bConfigurationValue,
            configuration: StringDescriptorIndex::from_ffi(descriptor.iConfiguration),
            attributes: ConfigurationAttributes(descriptor.bmAttributes),
            max_power: MaxPower(descriptor.MaxPower),
            interfaces,
        }
    }
}

} // verus!
