//! Wire records of the kernel's event and transfer interface, and the
//! mapping from kernel error codes to the bridge's transfer vocabulary.

use vstd::prelude::*;
use crate::bytes::{le16_bytes, le32_bytes, le32_of, push_u16_le, push_u32_le, read_u32_le};
use crate::errors::TransferError;
use crate::usb::{EpAddress, TransferType};

verus! {

/// Size of the header that precedes the payload of an event record and of
/// an endpoint I/O record.
pub const EVENT_HEADER_SIZE: usize = 8;

/// Kind of a kernel event record, by its numeric code: 1 reports a bus
/// connect, 2 a control-transfer setup; everything else is invalid.
#[derive(Clone, Copy, Debug, PartialEq, Eq, Structural)]
pub enum EventType {
    Invalid,
    Connect,
    Control,
}

impl EventType {
    /// The kind encoded by a numeric event code.
    pub closed spec fn from_code_spec(code: u32) -> EventType {
        if code == 1 {
            EventType::Connect
        } else if code == 2 {
            EventType::Control
        } else {
            EventType::Invalid
        }
    }

    /// Classify a numeric event code.
    pub fn from_code(code: u32) -> (r: EventType)
        ensures
            r == EventType::from_code_spec(code),
    {
        if code == 1 {
            EventType::Connect
        } else if code == 2 {
            EventType::Control
        } else {
            EventType::Invalid
        }
    }
}

/// One kernel event record: the numeric event code and the payload bytes
/// that followed the header (the setup packet, for a control event).
pub struct Event {
    pub event_type: u32,
    pub data: Vec<u8>,
}

impl Event {
    /// The payload length named by the header at the front of `b`.
    pub open spec fn header_length(b: Seq<u8>) -> u32 {
        le32_of(b[4], b[5], b[6], b[7])
    }

    /// Decode an event record: a header of two 32-bit fields (event code,
    /// payload length) followed by that many payload bytes. Returns `None`
    /// when the buffer is too short for the payload the header names.
    pub fn parse(b: &[u8]) -> (r: Option<Event>)
        requires
            b@.len() >= EVENT_HEADER_SIZE,
        ensures
            r is Some <==> EVENT_HEADER_SIZE + Event::header_length(b@) <= b@.len(),
            r matches Some(ev) ==> ev.event_type == le32_of(b@[0], b@[1], b@[2], b@[3])
                && ev.data@ == b@.subrange(
                EVENT_HEADER_SIZE as int,
                EVENT_HEADER_SIZE + Event::header_length(b@),
            ),
    {
        let blen: usize = b.len();
        let event_type = read_u32_le(b, 0);
        let length = read_u32_le(b, 4);
        if length as u64 > (blen - EVENT_HEADER_SIZE) as u64 {
            return None;
        }
        let length = length as usize;
        let mut data: Vec<u8> = Vec::new();
        let mut i: usize = 0;
        while i < length
            invariant
                0 <= i <= length,
                blen == b@.len(),
                EVENT_HEADER_SIZE + length <= blen,
                data@ =~= b@.subrange(EVENT_HEADER_SIZE as int, EVENT_HEADER_SIZE + i),
            decreases length - i,
        {
            data.push(b[EVENT_HEADER_SIZE + i]);
            i = i + 1;
        }
        Some(Event { event_type, data })
    }

    /// The kind of this event.
    pub fn kind(&self) -> (r: EventType)
        ensures
            r == EventType::from_code_spec(self.event_type),
    {
        EventType::from_code(self.event_type)
    }
}

/// One endpoint I/O record: the kernel handle (or 0 for the control
/// endpoint), the flag word, and the payload carried by the transfer.
pub struct EpIo {
    pub ep: u16,
    pub flags: u16,
    pub data: Vec<u8>,
}

impl EpIo {
    /// Serialize in the kernel's length-prefixed layout: handle, flags and
    /// payload length in the header, then the payload in place.
    pub fn to_bytes(&self) -> (r: Vec<u8>)
        requires
            self.data@.len() <= u32::MAX,
        ensures
            r@ == le16_bytes(self.ep) + le16_bytes(self.flags) + le32_bytes(
                self.data@.len() as u32,
            ) + self.data@,
            r@.len() == EVENT_HEADER_SIZE + self.data@.len(),
    {
        let mut out: Vec<u8> = Vec::new();
        push_u16_le(&mut out, self.ep);
        push_u16_le(&mut out, self.flags);
        push_u32_le(&mut out, self.data.len() as u32);
        let mut i: usize = 0;
        while i < self.data.len()
            invariant
                0 <= i <= self.data@.len(),
                out@ =~= le16_bytes(self.ep) + le16_bytes(self.flags) + le32_bytes(
                    self.data@.len() as u32,
                ) + self.data@.subrange(0, i as int),
            decreases self.data@.len() - i,
        {
            out.push(self.data[i]);
            i = i + 1;
        }
        proof {
            assert(out@ =~= le16_bytes(self.ep) + le16_bytes(self.flags) + le32_bytes(
                self.data@.len() as u32,
            ) + self.data@);
        }
        out
    }
}

/// Size of a standard USB endpoint descriptor.
pub const EP_DESCRIPTOR_SIZE: usize = 7;

/// Descriptor-type code of an endpoint descriptor.
pub const EP_DESCRIPTOR_TYPE: u8 = 5;

/// The standard endpoint descriptor for an endpoint enable request, built
/// from the requested parameters: length and type bytes, the address byte,
/// the transfer-type attributes, the little-endian max packet size, and
/// the polling interval.
pub fn descriptor_bytes(
    address: EpAddress,
    transfer_type: TransferType,
    max_packet: u16,
    interval: u8,
) -> (r: Vec<u8>)
    requires
        address.wf(),
    ensures
        r@ == seq![
            EP_DESCRIPTOR_SIZE as u8,
            EP_DESCRIPTOR_TYPE,
            address.byte_spec(),
            transfer_type.attributes_spec(),
        ] + le16_bytes(max_packet) + seq![interval],
        r@.len() == EP_DESCRIPTOR_SIZE,
{
    let mut out: Vec<u8> = Vec::new();
    out.push(EP_DESCRIPTOR_SIZE as u8);
    out.push(EP_DESCRIPTOR_TYPE);
    out.push(address.byte());
    out.push(transfer_type.attributes());
    push_u16_le(&mut out, max_packet);
    out.push(interval);
    proof {
        assert(out@ =~= seq![
            EP_DESCRIPTOR_SIZE as u8,
            EP_DESCRIPTOR_TYPE,
            address.byte_spec(),
            transfer_type.attributes_spec(),
        ] + le16_bytes(max_packet) + seq![interval]);
    }
    out
}

/// Kernel error code for "no data ready, try again".
pub const CODE_EAGAIN: i32 = 11;
/// Kernel error code for "device gone".
pub const CODE_ENODEV: i32 = 19;
/// Kernel error code for "broken pipe": the endpoint reported a protocol
/// stall.
pub const CODE_EPIPE: i32 = 32;
/// Kernel error code for "endpoint shut down": the endpoint is disabled.
pub const CODE_ESHUTDOWN: i32 = 108;

/// The transfer outcome a kernel error code stands for.
pub closed spec fn errno_outcome(code: i32) -> TransferError {
    if code == CODE_EAGAIN {
        TransferError::WouldBlock
    } else if code == CODE_EPIPE {
        TransferError::Stalled
    } else if code == CODE_ENODEV || code == CODE_ESHUTDOWN {
        TransferError::Disabled
    } else {
        TransferError::Channel
    }
}

/// Map a kernel error code from a transfer request into the bridge's
/// vocabulary: "no data ready" becomes `WouldBlock`, a reported protocol
/// stall becomes `Stalled`, a disabled or vanished endpoint becomes
/// `Disabled`, and anything else is a fatal `Channel` failure.
pub fn map_errno(code: i32) -> (r: TransferError)
    ensures
        r == errno_outcome(code),
        r == TransferError::WouldBlock <==> code == CODE_EAGAIN,
        r == TransferError::Stalled <==> code == CODE_EPIPE,
        r == TransferError::Disabled <==> code == CODE_ENODEV || code == CODE_ESHUTDOWN,
{
    if code == CODE_EAGAIN {
        TransferError::WouldBlock
    } else if code == CODE_EPIPE {
        TransferError::Stalled
    } else if code == CODE_ENODEV || code == CODE_ESHUTDOWN {
        TransferError::Disabled
    } else {
        TransferError::Channel
    }
}

/// Copy the first `n` bytes of a kernel-filled buffer: a short transfer is
/// a valid result, so only the count the kernel reported is handed on.
pub fn copy_prefix(src: &[u8], n: usize) -> (r: Vec<u8>)
    requires
        n <= src@.len(),
    ensures
        r@ == src@.subrange(0, n as int),
{
    let mut out: Vec<u8> = Vec::new();
    let mut i: usize = 0;
    while i < n
        invariant
            0 <= i <= n,
            n <= src@.len(),
            out@ =~= src@.subrange(0, i as int),
        decreases n - i,
    {
        out.push(src[i]);
        i = i + 1;
    }
    out
}

} // verus!
