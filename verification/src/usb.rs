//! Plain USB vocabulary shared by the allocator, the state table and the
//! marshalling layer: transfer directions, transfer types, peripheral-visible
//! endpoint addresses and bus speed codes.

use vstd::prelude::*;

verus! {

/// Direction of an endpoint as seen from the host: `In` carries
/// device-to-host traffic, `Out` host-to-device traffic.
#[derive(Clone, Copy, Debug, PartialEq, Eq, Structural)]
pub enum Direction {
    Out,
    In,
}

/// USB transfer type of an endpoint.
#[derive(Clone, Copy, Debug, PartialEq, Eq, Structural)]
pub enum TransferType {
    Control,
    Isochronous,
    Bulk,
    Interrupt,
}

impl TransferType {
    /// Transfer-type code as it appears in the low two bits of the
    /// `bmAttributes` field of an endpoint descriptor.
    pub closed spec fn attributes_spec(self) -> u8 {
        match self {
            TransferType::Control => 0,
            TransferType::Isochronous => 1,
            TransferType::Bulk => 2,
            TransferType::Interrupt => 3,
        }
    }

    /// The `bmAttributes` byte of an endpoint descriptor for this type.
    pub fn attributes(self) -> (r: u8)
        ensures
            r == self.attributes_spec(),
    {
        match self {
            TransferType::Control => 0,
            TransferType::Isochronous => 1,
            TransferType::Bulk => 2,
            TransferType::Interrupt => 3,
        }
    }
}

/// Peripheral-visible endpoint address: an endpoint number below 16 plus a
/// direction. Number 0 is reserved for the control endpoint.
#[derive(Clone, Copy, Debug, PartialEq, Eq, Structural)]
pub struct EpAddress {
    pub dir: Direction,
    pub number: u8,
}

impl EpAddress {
    /// A USB endpoint number fits in four bits.
    pub open spec fn wf(self) -> bool {
        self.number < 16
    }

    /// The single-byte wire form: the endpoint number in the low bits and
    /// the direction in bit 7 (set for IN).
    pub closed spec fn byte_spec(self) -> u8 {
        if self.dir is In {
            (self.number + 0x80) as u8
        } else {
            self.number
        }
    }

    /// Encode the address into its descriptor byte.
    pub fn byte(self) -> (r: u8)
        requires
            self.wf(),
        ensures
            r == self.byte_spec(),
    {
        match self.dir {
            Direction::In => self.number + 0x80,
            Direction::Out => self.number,
        }
    }

    /// Decode a descriptor address byte: bit 7 is the direction, the low
    /// four bits are the endpoint number.
    pub fn from_byte(b: u8) -> (r: EpAddress)
        ensures
            r.number == b & 0x0fu8,
            r.dir is In <==> b & 0x80u8 != 0,
            r.wf(),
    {
        let number = b & 0x0f;
        proof {
            assert(b & 0x0fu8 < 16) by (bit_vector);
        }
        let dir = if b & 0x80 != 0 {
            Direction::In
        } else {
            Direction::Out
        };
        EpAddress { dir, number }
    }
}

/// Bus speed codes of the kernel interface, 0 (unknown) through 6
/// (super-speed-plus).
#[derive(Clone, Copy, Debug, PartialEq, Eq, Structural)]
pub enum UsbSpeed {
    Unknown,
    Low,
    Full,
    High,
    Wireless,
    Super,
    SuperPlus,
}

impl UsbSpeed {
    /// Numeric speed code carried in the initialization record.
    pub closed spec fn code_spec(self) -> u8 {
        match self {
            UsbSpeed::Unknown => 0,
            UsbSpeed::Low => 1,
            UsbSpeed::Full => 2,
            UsbSpeed::High => 3,
            UsbSpeed::Wireless => 4,
            UsbSpeed::Super => 5,
            UsbSpeed::SuperPlus => 6,
        }
    }

    /// Encode the speed as the kernel's numeric code.
    pub fn code(self) -> (r: u8)
        ensures
            r == self.code_spec(),
    {
        match self {
            UsbSpeed::Unknown => 0,
            UsbSpeed::Low => 1,
            UsbSpeed::Full => 2,
            UsbSpeed::High => 3,
            UsbSpeed::Wireless => 4,
            UsbSpeed::Super => 5,
            UsbSpeed::SuperPlus => 6,
        }
    }
}

} // verus!
