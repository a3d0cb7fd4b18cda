//! Endpoint addressing: a USB endpoint address is a single byte whose top
//! bit encodes the transfer direction and whose low seven bits encode the
//! endpoint number. An endpoint's attributes byte selects the transfer type
//! in its low two bits.

use vstd::prelude::*;

verus! {

#[derive(Debug, Clone, Copy, PartialEq, Eq, Hash, Structural)]
pub struct EndpointAddress(pub u8);

#[derive(Debug, Clone, Copy, PartialEq, Eq, Structural)]
pub enum TransferDirection {
    Out,
    In,
}

#[derive(Debug, Clone, Copy, PartialEq, Eq, Structural)]
pub enum TransferType {
    Control,
    Isochronous,
    Bulk,
    Interrupt,
}

#[derive(Debug, Clone, Copy, PartialEq, Eq, Hash, Structural)]
pub struct EndpointAttributes(pub u8);

pub const LIBUSB_TRANSFER_TYPE_CONTROL: u8 = 0;
pub const LIBUSB_TRANSFER_TYPE_ISOCHRONOUS: u8 = 1;
pub const LIBUSB_TRANSFER_TYPE_BULK: u8 = 2;
pub const LIBUSB_TRANSFER_TYPE_INTERRUPT: u8 = 3;

/// The endpoint number held in the low seven bits of an address byte.
pub open spec fn spec_number(address: u8) -> u8 {
    address & 0x7f
}

/// The direction encoded in the top bit of an address byte.
pub open spec fn spec_direction(address: u8) -> TransferDirection {
    if address >> 7 == 1 {
        TransferDirection::In
    } else {
        TransferDirection::Out
    }
}

/// The transfer type selected by the low two bits of an attributes byte.
pub open spec fn spec_transfer_type(attributes: u8) -> TransferType {
    if attributes & 0b11 == LIBUSB_TRANSFER_TYPE_CONTROL {
        TransferType::Control
    } else if attributes & 0b11 == LIBUSB_TRANSFER_TYPE_ISOCHRONOUS {
        TransferType::Isochronous
    } else if attributes & 0b11 == LIBUSB_TRANSFER_TYPE_BULK {
        TransferType::Bulk
    } else {
        TransferType::Interrupt
    }
}

impl View for EndpointAddress {
    type V = u8;

    open spec fn view(&self) -> u8 {
        self.0
    }
}

impl EndpointAddress {
    pub fn number(self) -> (r: u8)
        ensures
            r == spec_number(self@),
    {
        self.0 & 0x7f
    }

    pub fn direction(self) -> (r: TransferDirection)
        ensures
            r == spec_direction(self@),
    {
        let high: u8 = self.0 >> 7;
        proof {
            let a = self.0;
            assert(a >> 7 == 0 || a >> 7 == 1) by (bit_vector);
        }
        if high == 0 {
            TransferDirection::Out
        } else {
            TransferDirection::In
        }
    }

    pub fn value(self) -> (r: u8)
        ensures
            r == self@,
    {
        self.0
    }
}

impl From<u8> for EndpointAddress {
    fn from(other: u8) -> (r: Self)
        ensures
            r@ == other,
    {
        EndpointAddress(other)
    }
}

impl vstd::std_specs::convert::FromSpecImpl<u8> for EndpointAddress {
    open spec fn obeys_from_spec() -> bool {
        true
    }

    open spec fn from_spec(other: u8) -> Self {
        EndpointAddress(other)
    }
}

impl View for EndpointAttributes {
    type V = u8;

    open spec fn view(&self) -> u8 {
        self.0
    }
}

impl EndpointAttributes {
    pub fn transfer_type(self) -> (r: TransferType)
        ensures
            r == spec_transfer_type(self@),
    {
        let low: u8 = self.0 & 0b11;
        proof {
            let a = self.0;
            assert(a & 0b11 < 4) by (bit_vector);
        }
        if low == LIBUSB_TRANSFER_TYPE_CONTROL {
            TransferType::Control
        } else if low == LIBUSB_TRANSFER_TYPE_ISOCHRONOUS {
            TransferType::Isochronous
        } else if low == LIBUSB_TRANSFER_TYPE_BULK {
            TransferType::Bulk
        } else {
            TransferType::Interrupt
        }
    }
}

impl From<u8> for EndpointAttributes {
    fn from(other: u8) -> (r: Self)
        ensures
            r@ == other,
    {
        EndpointAttributes(other)
    }
}

impl vstd::std_specs::convert::FromSpecImpl<u8> for EndpointAttributes {
    open spec fn obeys_from_spec() -> bool {
        true
    }

    open spec fn from_spec(other: u8) -> Self {
        EndpointAttributes(other)
    }
}

} // verus!
