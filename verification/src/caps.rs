//! Endpoint capability records reported by the controller.
//!
//! The kernel answers the capability query with a fixed-size array of raw
//! 32-byte records, one per endpoint slot the controller can expose. This
//! module decodes that array into [`EpInfo`] records and filters out the
//! unnamed (all-zero name) slots, yielding the read-only capability table
//! the allocator scans.

use vstd::prelude::*;
use crate::bytes::{le16_of, le32_of, read_u16_le, read_u32_le};

verus! {

/// Capability bitmask of one controller endpoint slot: which transfer types
/// and which directions the slot can serve.
#[derive(Clone, Copy, PartialEq, Eq, Structural)]
pub struct EpCaps(pub u32);

impl EpCaps {
    /// The slot can serve control transfers.
    pub fn type_control(self) -> (r: bool)
        ensures
            r == (self.0 & 0x1u32 != 0u32),
    {
        self.0 & 0x1 != 0
    }

    /// The slot can serve isochronous transfers.
    pub fn type_iso(self) -> (r: bool)
        ensures
            r == (self.0 & 0x2u32 != 0u32),
    {
        self.0 & 0x2 != 0
    }

    /// The slot can serve bulk transfers.
    pub fn type_bulk(self) -> (r: bool)
        ensures
            r == (self.0 & 0x4u32 != 0u32),
    {
        self.0 & 0x4 != 0
    }

    /// The slot can serve interrupt transfers.
    pub fn type_int(self) -> (r: bool)
        ensures
            r == (self.0 & 0x8u32 != 0u32),
    {
        self.0 & 0x8 != 0
    }

    /// The slot can carry device-to-host (IN) traffic.
    pub fn dir_in(self) -> (r: bool)
        ensures
            r == (self.0 & 0x10u32 != 0u32),
    {
        self.0 & 0x10 != 0
    }

    /// The slot can carry host-to-device (OUT) traffic.
    pub fn dir_out(self) -> (r: bool)
        ensures
            r == (self.0 & 0x20u32 != 0u32),
    {
        self.0 & 0x20 != 0
    }
}

/// Size in bytes of one raw endpoint record: a 16-byte name, the address
/// slot, the capability bitmask, and the limits block.
pub const EP_INFO_SIZE: usize = 32;

/// Length of the name field inside a raw endpoint record.
pub const EP_NAME_MAX: usize = 16;

/// Largest number of endpoint records the kernel reports.
pub const EPS_NUM_MAX: usize = 30;

/// Per-slot hardware limits: the largest packet the slot can carry and how
/// many streams it supports.
#[derive(Clone, Copy, Debug, PartialEq, Eq, Structural)]
pub struct EpLimits {
    pub maxpacket_limit: u16,
    pub max_streams: u16,
}

/// One decoded capability-table entry: a controller endpoint slot with its
/// name, kernel address slot, capability bitmask and limits.
pub struct EpInfo {
    pub name: Vec<u8>,
    pub addr: u32,
    pub caps: EpCaps,
    pub limits: EpLimits,
}

/// The name bytes of the raw record starting at `base`.
pub open spec fn raw_name(b: Seq<u8>, base: int) -> Seq<u8> {
    b.subrange(base, base + EP_NAME_MAX as int)
}

/// The address-slot field of the raw record starting at `base`.
pub open spec fn raw_addr(b: Seq<u8>, base: int) -> u32 {
    le32_of(b[base + 16], b[base + 17], b[base + 18], b[base + 19])
}

/// The capability bitmask of the raw record starting at `base`.
pub open spec fn raw_caps(b: Seq<u8>, base: int) -> u32 {
    le32_of(b[base + 20], b[base + 21], b[base + 22], b[base + 23])
}

/// The limits block of the raw record starting at `base`; the trailing four
/// reserved bytes of the record carry nothing.
pub open spec fn raw_limits(b: Seq<u8>, base: int) -> EpLimits {
    EpLimits {
        maxpacket_limit: le16_of(b[base + 24], b[base + 25]),
        max_streams: le16_of(b[base + 26], b[base + 27]),
    }
}

/// A raw record is named when any of its name bytes is non-zero; the kernel
/// marks empty slots with an all-zero name.
pub open spec fn raw_named(b: Seq<u8>, base: int) -> bool {
    exists|i: int| base <= i < base + EP_NAME_MAX && b[i] != 0u8
}

impl EpInfo {
    /// The name field has its fixed raw size.
    pub open spec fn wf(self) -> bool {
        self.name@.len() == EP_NAME_MAX
    }

    /// What decoding the raw record at `base` yields.
    pub open spec fn decodes(self, b: Seq<u8>, base: int) -> bool {
        &&& self.name@ == raw_name(b, base)
        &&& self.addr == raw_addr(b, base)
        &&& self.caps.0 == raw_caps(b, base)
        &&& self.limits == raw_limits(b, base)
    }

    /// Decode one raw 32-byte endpoint record starting at `base`.
    pub fn from_bytes(b: &[u8], base: usize) -> (r: EpInfo)
        requires
            base + EP_INFO_SIZE <= b@.len(),
        ensures
            r.decodes(b@, base as int),
            r.wf(),
    {
        let blen: usize = b.len();
        let mut name: Vec<u8> = Vec::new();
        let mut i: usize = 0;
        while i < EP_NAME_MAX
            invariant
                0 <= i <= EP_NAME_MAX,
                blen == b@.len(),
                base + EP_INFO_SIZE <= blen,
                name@ =~= b@.subrange(base as int, base + i),
            decreases EP_NAME_MAX - i,
        {
            name.push(b[base + i]);
            i = i + 1;
        }
        let addr = read_u32_le(b, base + 16);
        let caps = EpCaps(read_u32_le(b, base + 20));
        let maxpacket_limit = read_u16_le(b, base + 24);
        let max_streams = read_u16_le(b, base + 26);
        EpInfo { name, addr, caps, limits: EpLimits { maxpacket_limit, max_streams } }
    }

    /// Whether the record describes a real slot: at least one name byte is
    /// non-zero.
    pub fn is_named(&self) -> (r: bool)
        ensures
            r == exists|i: int| 0 <= i < self.name@.len() && self.name@[i] != 0u8,
    {
        let mut i: usize = 0;
        while i < self.name.len()
            invariant
                0 <= i <= self.name@.len(),
                forall|k: int| 0 <= k < i ==> self.name@[k] == 0u8,
            decreases self.name@.len() - i,
        {
            if self.name[i] != 0 {
                return true;
            }
            i = i + 1;
        }
        false
    }
}

/// Offsets of the named raw records among the first `n`, in table order.
/// Unnamed (all-zero name) slots are dropped, as they mark empty entries.
pub open spec fn named_bases(b: Seq<u8>, n: int) -> Seq<int>
    decreases n,
{
    if n <= 0 {
        Seq::empty()
    } else {
        let base = (n - 1) * EP_INFO_SIZE;
        if raw_named(b, base) {
            named_bases(b, n - 1) + seq![base]
        } else {
            named_bases(b, n - 1)
        }
    }
}

/// The decoded capability table: one entry per named slot the controller
/// exposes, in the kernel's table order. Read-only after the one fetch.
pub struct EpsInfo {
    pub eps: Vec<EpInfo>,
}

impl EpsInfo {
    /// Every entry carries a full-size name field.
    pub open spec fn wf(self) -> bool {
        forall|j: int| 0 <= j < self.eps@.len() ==> (#[trigger] self.eps@[j]).wf()
    }

    /// Decode the kernel's fixed-size capability answer: the named records
    /// among its slots, in order, each decoded in place.
    pub fn parse(b: &[u8]) -> (r: EpsInfo)
        requires
            b@.len() >= EPS_NUM_MAX * EP_INFO_SIZE,
        ensures
            r.eps@.len() == named_bases(b@, EPS_NUM_MAX as int).len(),
            forall|j: int| 0 <= j < r.eps@.len() ==> (#[trigger] r.eps@[j]).decodes(
                b@,
                named_bases(b@, EPS_NUM_MAX as int)[j],
            ),
            r.wf(),
            r.eps@.len() <= EPS_NUM_MAX,
    {
        let mut eps: Vec<EpInfo> = Vec::new();
        let mut i: usize = 0;
        while i < EPS_NUM_MAX
            invariant
                0 <= i <= EPS_NUM_MAX,
                b@.len() >= EPS_NUM_MAX * EP_INFO_SIZE,
                eps@.len() == named_bases(b@, i as int).len(),
                forall|j: int| 0 <= j < eps@.len() ==> (#[trigger] eps@[j]).decodes(
                    b@,
                    named_bases(b@, i as int)[j],
                ) && eps@[j].wf(),
            decreases EPS_NUM_MAX - i,
        {
            let ghost base = i as int * EP_INFO_SIZE as int;
            let entry = EpInfo::from_bytes(b, i * EP_INFO_SIZE);
            let named = entry.is_named();
            proof {
                if named {
                    let j = choose|j: int|
                        0 <= j < entry.name@.len() && entry.name@[j] != 0u8;
                    assert(b@[base + j] == entry.name@[j]);
                    assert(raw_named(b@, base));
                } else {
                    assert forall|k: int|
                        base <= k < base + EP_NAME_MAX implies b@[k] == 0u8 by {
                        assert(entry.name@[k - base] == b@[k]);
                    }
                    assert(!raw_named(b@, base));
                }
            }
            if named {
                eps.push(entry);
            }
            i = i + 1;
        }
        proof {
            lemma_named_bases_len(b@, EPS_NUM_MAX as int);
        }
        EpsInfo { eps }
    }
}

/// There are never more named records than records.
proof fn lemma_named_bases_len(b: Seq<u8>, n: int)
    ensures
        named_bases(b, n).len() <= (if n <= 0 {
            0int
        } else {
            n
        }),
    decreases n,
{
    if n > 0 {
        lemma_named_bases_len(b, n - 1);
    }
}

} // verus!
