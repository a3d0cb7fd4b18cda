//! Matching the picoboot device: a fixed vendor/product pair, and a search
//! of a configuration's interfaces for one with the picoboot class triple
//! that exposes a bulk-in and a bulk-out endpoint.

use vstd::prelude::*;

use crate::descriptors::ConfigurationDescriptor;
use crate::descriptors::DeviceDescriptor;
use crate::descriptors::EndpointDescriptor;
use crate::descriptors::InterfaceDescriptor;
use crate::endpoint::EndpointAddress;
use crate::endpoint::TransferDirection;
use crate::endpoint::TransferType;
use crate::endpoint::spec_direction;
use crate::endpoint::spec_transfer_type;

verus! {

pub const VENDOR_ID: u16 = 0x2e8a;
pub const PRODUCT_ID: u16 = 0x0003;
pub const INTERFACE_CLASS: u8 = 0xff;
pub const INTERFACE_SUB_CLASS: u8 = 0x00;
pub const INTERFACE_PROTOCOL: u8 = 0x00;

#[derive(Debug, Clone, Copy, PartialEq, Eq, Hash, Structural)]
pub struct PicobootInterface {
    pub interface_number: u8,
    pub alternate_setting: u8,
    pub in_endpoint: EndpointAddress,
    pub out_endpoint: EndpointAddress,
}

pub open spec fn is_bulk_in(e: EndpointDescriptor) -> bool {
    &&& spec_transfer_type(e.attributes@) == TransferType::Bulk
    &&& spec_direction(e.endpoint_address@) == TransferDirection::In
}

pub open spec fn is_bulk_out(e: EndpointDescriptor) -> bool {
    &&& spec_transfer_type(e.attributes@) == TransferType::Bulk
    &&& spec_direction(e.endpoint_address@) == TransferDirection::Out
}

/// The address of the last bulk endpoint with direction In, if any: a
/// forward scan that overwrites its candidate keeps the last one.
pub open spec fn last_bulk_in(endpoints: Seq<EndpointDescriptor>) -> Option<EndpointAddress>
    decreases endpoints.len(),
{
    if endpoints.len() == 0 {
        None
    } else if is_bulk_in(endpoints.last()) {
        Some(endpoints.last().endpoint_address)
    } else {
        last_bulk_in(endpoints.drop_last())
    }
}

/// The address of the last bulk endpoint with direction Out, if any.
pub open spec fn last_bulk_out(endpoints: Seq<EndpointDescriptor>) -> Option<EndpointAddress>
    decreases endpoints.len(),
{
    if endpoints.len() == 0 {
        None
    } else if is_bulk_out(endpoints.last()) {
        Some(endpoints.last().endpoint_address)
    } else {
        last_bulk_out(endpoints.drop_last())
    }
}

/// Whether an interface carries the picoboot class/subclass/protocol triple.
pub open spec fn class_matches(interface: InterfaceDescriptor) -> bool {
    &&& interface.interface_class == INTERFACE_CLASS
    &&& interface.interface_sub_class == INTERFACE_SUB_CLASS
    &&& interface.interface_protocol == INTERFACE_PROTOCOL
}

/// Whether an interface is the picoboot interface: the class triple
/// matches and both a bulk-in and a bulk-out endpoint are present.
pub open spec fn interface_suitable(interface: InterfaceDescriptor) -> bool {
    &&& class_matches(interface)
    &&& last_bulk_in(interface.endpoints@) is Some
    &&& last_bulk_out(interface.endpoints@) is Some
}

/// What a suitable interface yields: its numbers and the last bulk
/// endpoint of each direction.
pub open spec fn picoboot_of(interface: InterfaceDescriptor) -> PicobootInterface {
    PicobootInterface {
        interface_number: interface.interface_number,
        alternate_setting: interface.alternate_setting,
        in_endpoint: last_bulk_in(interface.endpoints@).unwrap(),
        out_endpoint: last_bulk_out(interface.endpoints@).unwrap(),
    }
}

/// The search's result: what the first suitable interface yields, or
/// nothing when no interface is suitable.
pub open spec fn find_spec(interfaces: Seq<InterfaceDescriptor>) -> Option<PicobootInterface>
    decreases interfaces.len(),
{
    if interfaces.len() == 0 {
        None
    } else if interface_suitable(interfaces.first()) {
        Some(picoboot_of(interfaces.first()))
    } else {
        find_spec(interfaces.drop_first())
    }
}

/// The search finds something exactly when some interface is suitable.
pub proof fn lemma_find_spec_some(interfaces: Seq<InterfaceDescriptor>)
    ensures
        find_spec(interfaces) is Some <==> exists|j: int|
            0 <= j < interfaces.len() && interface_suitable(#[trigger] interfaces[j]),
    decreases interfaces.len(),
{
    if interfaces.len() > 0 {
        lemma_find_spec_some(interfaces.drop_first());
        if interface_suitable(interfaces.first()) {
            assert(interface_suitable(interfaces[0]));
        } else if find_spec(interfaces.drop_first()) is Some {
            let j = choose|j: int|
                0 <= j < interfaces.drop_first().len() && interface_suitable(
                    #[trigger] interfaces.drop_first()[j],
                );
            assert(interface_suitable(interfaces[j + 1]));
        } else {
            assert forall|j: int|
                0 <= j < interfaces.len() implies !interface_suitable(
                #[trigger] interfaces[j],
            ) by {
                if j > 0 {
                    assert(interfaces.drop_first()[j - 1] == interfaces[j]);
                }
            }
        }
    }
}

/// Whether a device descriptor carries the picoboot vendor and product.
pub fn device_descriptor_matches(device_descriptor: &DeviceDescriptor) -> (r: bool)
    ensures
        r == (device_descriptor.vendor_id == VENDOR_ID && device_descriptor.product_id
            == PRODUCT_ID),
{
    device_descriptor.vendor_id == VENDOR_ID && device_descriptor.product_id == PRODUCT_ID
}

/// Searches a configuration for the picoboot interface: the first
/// interface with the picoboot class triple and both a bulk-in and a
/// bulk-out endpoint, yielding the last bulk endpoint of each direction.
pub fn find_interface(configuration: &ConfigurationDescriptor) -> (r: Option<PicobootInterface>)
    ensures
        r == find_spec(configuration.interfaces@),
        r is Some <==> exists|j: int|
            0 <= j < configuration.interfaces@.len() && interface_suitable(
                #[trigger] configuration.interfaces@[j],
            ),
{
    proof {
        lemma_find_spec_some(configuration.interfaces@);
    }
    let ghost all = configuration.interfaces@;
    proof {
        assert(all.skip(0) =~= all);
    }
    let mut i: usize = 0;
    while i < configuration.interfaces.len()
        invariant
            i <= all.len(),
            all == configuration.interfaces@,
            find_spec(all) == find_spec(all.skip(i as int)),
        decreases all.len() - i,
    {
        let interface = &configuration.interfaces[i];
        proof {
            assert(all.skip(i as int).first() == all[i as int]);
            assert(all.skip(i as int).drop_first() =~= all.skip(i + 1));
        }
        let suitable_class = interface.interface_class == INTERFACE_CLASS
            && interface.interface_sub_class == INTERFACE_SUB_CLASS && interface.interface_protocol
            == INTERFACE_PROTOCOL;
        if suitable_class {
            let mut in_endpoint: Option<EndpointAddress> = None;
            let mut out_endpoint: Option<EndpointAddress> = None;
            let ghost eps = interface.endpoints@;
            let mut j: usize = 0;
            while j < interface.endpoints.len()
                invariant
                    j <= eps.len(),
                    eps == interface.endpoints@,
                    in_endpoint == last_bulk_in(eps.take(j as int)),
                    out_endpoint == last_bulk_out(eps.take(j as int)),
                decreases eps.len() - j,
            {
                let endpoint = &interface.endpoints[j];
                proof {
                    assert(eps.take(j + 1).drop_last() =~= eps.take(j as int));
                    assert(eps.take(j + 1).last() == eps[j as int]);
                }
                if endpoint.attributes.transfer_type() == TransferType::Bulk {
                    match endpoint.endpoint_address.direction() {
                        TransferDirection::In => in_endpoint = Some(endpoint.endpoint_address),
                        TransferDirection::Out => out_endpoint = Some(endpoint.endpoint_address),
                    }
                }
                j = j + 1;
            }
            proof {
                assert(eps.take(eps.len() as int) =~= eps);
            }
            if let (Some(in_endpoint), Some(out_endpoint)) = (in_endpoint, out_endpoint) {
                return Some(
                    PicobootInterface {
                        interface_number: interface.interface_number,
                        alternate_setting: interface.alternate_setting,
                        in_endpoint,
                        out_endpoint,
                    },
                );
            }
        }
        i = i + 1;
    }
    proof {
        assert(all.skip(all.len() as int) =~= Seq::<InterfaceDescriptor>::empty());
    }
    None
}

} // verus!
