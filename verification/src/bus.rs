//! The user-space mirror of the kernel-side endpoint state, with the three
//! pieces of policy the bridge owns: the first-fit endpoint allocator, the
//! endpoint state table (enable, halt), and the event dispatcher that folds
//! kernel events into poll results.
//!
//! Nothing here touches the kernel. Every operation that the kernel must
//! hear about returns the exact request to issue (a descriptor, a handle, a
//! halt action); the transport performs it and reports back. That keeps the
//! mirror consistent with the last request issued, which is all the
//! stateless kernel interface lets user space know.

use vstd::prelude::*;
use crate::caps::EpInfo;
use crate::caps::EpsInfo;
use crate::errors::AllocError;
use crate::errors::TransferError;
use crate::io::descriptor_bytes;
use crate::bytes::le16_bytes;
use crate::io::EP_DESCRIPTOR_SIZE;
use crate::io::EP_DESCRIPTOR_TYPE;
use crate::usb::Direction;
use crate::usb::EpAddress;
use crate::usb::TransferType;

verus! {

/// Endpoint numbers run from 1 to 15 in each direction; number 0 is the
/// control endpoint, so 16 addresses exist per direction in all.
pub const EP_NUM_LIMIT: u8 = 16;

/// One allocated endpoint: the peripheral-visible address, the capability
/// slot it owns exclusively, the parameters it was requested with, and the
/// kernel-side state last requested for it.
#[derive(Clone, Copy, Debug, PartialEq, Eq, Structural)]
pub struct AllocatedEndpoint {
    pub address: EpAddress,
    pub cap_index: usize,
    pub transfer_type: TransferType,
    pub max_packet: u16,
    pub interval: u8,
    /// Kernel handle returned by the enable request; meaningful only once
    /// `enabled` is set.
    pub handle: u32,
    pub enabled: bool,
    pub halted: bool,
}

/// One event handed to the dispatcher, classified into the peripheral
/// stack's vocabulary: a bus connect (reset), a control setup packet with
/// its payload, or the completion of a data-endpoint transfer. Consumed
/// exactly once.
pub enum BusEvent {
    BusConnect,
    ControlSetup(Vec<u8>),
    DataComplete { address: EpAddress, count: usize },
}

/// What one poll call reports: whether a reset happened, whether a setup
/// packet waits to be read, and the sets of endpoint numbers — one bit per
/// number — whose IN transfer completed or whose OUT data arrived since the
/// previous poll.
#[derive(Clone, Copy, Debug, PartialEq, Eq, Structural)]
pub struct PollResult {
    pub reset_occurred: bool,
    pub setup_available: bool,
    pub ready_in: u16,
    pub received_out: u16,
}

impl PollResult {
    /// Nothing happened since the previous poll.
    pub open spec fn is_empty_spec(self) -> bool {
        &&& !self.reset_occurred
        &&& !self.setup_available
        &&& self.ready_in == 0
        &&& self.received_out == 0
    }

    /// The empty poll result.
    pub fn empty() -> (r: PollResult)
        ensures
            r.is_empty_spec(),
    {
        PollResult { reset_occurred: false, setup_available: false, ready_in: 0, received_out: 0 }
    }

    /// Whether this result reports nothing.
    pub fn is_empty(&self) -> (r: bool)
        ensures
            r == self.is_empty_spec(),
    {
        !self.reset_occurred && !self.setup_available && self.ready_in == 0 && self.received_out
            == 0
    }
}

/// Membership of endpoint number `n` in a completion mask.
pub open spec fn mask_has(m: u16, n: u8) -> bool {
    m & (1u16 << n) != 0
}

/// Setting bit `n` puts `n` in the mask and moves no other number.
pub proof fn lemma_mask_set(m: u16, n: u8, k: u8)
    by (bit_vector)
    requires
        n < 16,
        k < 16,
    ensures
        mask_has(m | (1u16 << n), n),
        k != n ==> mask_has(m | (1u16 << n), k) == mask_has(m, k),
{
}

/// The empty mask holds no endpoint number.
pub proof fn lemma_mask_empty(k: u8)
    by (bit_vector)
    requires
        k < 16,
    ensures
        !mask_has(0u16, k),
{
}

/// Whether a capability entry satisfies an allocation request: its
/// direction bit and transfer-type bit are set and its packet limit is
/// large enough.
pub open spec fn cap_matches(
    e: EpInfo,
    dir: Direction,
    transfer_type: TransferType,
    max_packet: u16,
) -> bool {
    &&& match dir {
        Direction::In => e.caps.0 & 0x10u32 != 0u32,
        Direction::Out => e.caps.0 & 0x20u32 != 0u32,
    }
    &&& match transfer_type {
        TransferType::Control => e.caps.0 & 0x1u32 != 0u32,
        TransferType::Isochronous => e.caps.0 & 0x2u32 != 0u32,
        TransferType::Bulk => e.caps.0 & 0x4u32 != 0u32,
        TransferType::Interrupt => e.caps.0 & 0x8u32 != 0u32,
    }
    &&& e.limits.maxpacket_limit >= max_packet
}

/// Where a transfer for an address must be routed: the control endpoint's
/// own read/write requests, or a data endpoint's, named by kernel handle.
#[derive(Clone, Copy, Debug, PartialEq, Eq, Structural)]
pub enum IoRoute {
    ControlEndpoint,
    DataEndpoint(u32),
}

/// The kernel request that realizes a stall change: the control-endpoint
/// stall request, no request at all (a control stall clears by itself on
/// the next setup), or set/clear halt on a data endpoint's handle.
#[derive(Clone, Copy, Debug, PartialEq, Eq, Structural)]
pub enum HaltAction {
    ControlStall,
    ControlAck,
    SetHalt(u32),
    ClearHalt(u32),
}

/// The bridge core: the capability table (fetched once, read-only), the
/// endpoint state table, and the pending poll state the dispatcher folds
/// kernel events into.
pub struct UsbBus {
    pub caps: Vec<EpInfo>,
    pub allocs: Vec<AllocatedEndpoint>,
    pub next_in: u8,
    pub next_out: u8,
    pub ep0_halted: bool,
    pub pending_reset: bool,
    pub pending_setup: bool,
    pub pending_in: u16,
    pub pending_out: u16,
    pub setup_data: Vec<u8>,
    pub has_setup: bool,
}

impl UsbBus {
    /// Capability slot `i` is already owned by an allocation.
    pub open spec fn slot_taken(self, i: int) -> bool {
        exists|j: int| 0 <= j < self.allocs@.len() && (#[trigger] self.allocs@[j]).cap_index == i
    }

    /// Some free capability slot satisfies the request.
    pub open spec fn has_fit(
        self,
        dir: Direction,
        transfer_type: TransferType,
        max_packet: u16,
    ) -> bool {
        exists|i: int|
            0 <= i < self.caps@.len() && cap_matches(
                #[trigger] self.caps@[i],
                dir,
                transfer_type,
                max_packet,
            ) && !self.slot_taken(i)
    }

    /// Slot `i` is the first free slot that satisfies the request.
    pub open spec fn is_first_fit(
        self,
        dir: Direction,
        transfer_type: TransferType,
        max_packet: u16,
        i: int,
    ) -> bool {
        &&& 0 <= i < self.caps@.len()
        &&& cap_matches(self.caps@[i], dir, transfer_type, max_packet)
        &&& !self.slot_taken(i)
        &&& forall|k: int|
            0 <= k < i ==> !(cap_matches(#[trigger] self.caps@[k], dir, transfer_type, max_packet)
                && !self.slot_taken(k))
    }

    /// The next peripheral endpoint number to hand out in a direction.
    pub open spec fn next_number(self, dir: Direction) -> u8 {
        match dir {
            Direction::In => self.next_in,
            Direction::Out => self.next_out,
        }
    }

    /// An allocation with this peripheral address exists.
    pub open spec fn has_allocation(self, a: EpAddress) -> bool {
        exists|i: int| 0 <= i < self.allocs@.len() && (#[trigger] self.allocs@[i]).address == a
    }

    /// The index of the allocation that owns address `a`.
    pub open spec fn index_of(self, a: EpAddress) -> int {
        choose|i: int| 0 <= i < self.allocs@.len() && (#[trigger] self.allocs@[i]).address == a
    }

    /// The halt flag an address currently carries: the control endpoint's
    /// own flag for number 0, the allocation's flag for an allocated
    /// address, false for an address never allocated.
    pub open spec fn stalled_spec(self, a: EpAddress) -> bool {
        if a.number == 0 {
            self.ep0_halted
        } else if self.has_allocation(a) {
            self.allocs@[self.index_of(a)].halted
        } else {
            false
        }
    }

    /// The buffered setup payload, if one waits for a control read.
    pub open spec fn setup_view(self) -> Option<Seq<u8>> {
        if self.has_setup {
            Some(self.setup_data@)
        } else {
            None
        }
    }

    /// No kernel event waits to be reported by the next poll.
    pub open spec fn pending_clear(self) -> bool {
        &&& !self.pending_reset
        &&& !self.pending_setup
        &&& self.pending_in == 0
        &&& self.pending_out == 0
    }

    /// The poll result the pending state denotes.
    pub open spec fn poll_result_spec(self) -> PollResult {
        PollResult {
            reset_occurred: self.pending_reset,
            setup_available: self.pending_setup,
            ready_in: self.pending_in,
            received_out: self.pending_out,
        }
    }

    /// Well-formedness of the mirror.
    ///
    /// Every allocation owns a distinct capability slot of the table and a
    /// distinct, well-formed, non-zero address whose number lies below the
    /// running counter of its direction; the counters stay within the USB
    /// addressing limit; every table entry carries its full name field.
    pub open spec fn wf(self) -> bool {
        &&& 1 <= self.next_in <= EP_NUM_LIMIT
        &&& 1 <= self.next_out <= EP_NUM_LIMIT
        &&& forall|j: int| 0 <= j < self.caps@.len() ==> (#[trigger] self.caps@[j]).wf()
        &&& forall|i: int|
            0 <= i < self.allocs@.len() ==> {
                let e = #[trigger] self.allocs@[i];
                &&& e.cap_index < self.caps@.len()
                &&& e.address.wf()
                &&& e.address.number >= 1
                &&& e.address.number < self.next_number(e.address.dir)
            }
        &&& forall|i: int, j: int|
            0 <= i < self.allocs@.len() && 0 <= j < self.allocs@.len() && i != j ==> (
            #[trigger] self.allocs@[i]).cap_index != (#[trigger] self.allocs@[j]).cap_index
        &&& forall|i: int, j: int|
            0 <= i < self.allocs@.len() && 0 <= j < self.allocs@.len() && i != j ==> (
            #[trigger] self.allocs@[i]).address != (#[trigger] self.allocs@[j]).address
    }

    /// The two states agree on everything the contracts observe.
    pub open spec fn state_eq(self, other: UsbBus) -> bool {
        &&& self.caps@ == other.caps@
        &&& self.allocs@ == other.allocs@
        &&& self.next_in == other.next_in
        &&& self.next_out == other.next_out
        &&& self.ep0_halted == other.ep0_halted
        &&& self.pending_reset == other.pending_reset
        &&& self.pending_setup == other.pending_setup
        &&& self.pending_in == other.pending_in
        &&& self.pending_out == other.pending_out
        &&& self.setup_view() == other.setup_view()
    }

    /// Start the mirror over a freshly fetched capability table: nothing
    /// allocated, nothing pending, nothing stalled.
    pub fn new(table: EpsInfo) -> (r: UsbBus)
        requires
            table.wf(),
        ensures
            r.wf(),
            r.caps@ == table.eps@,
            r.allocs@.len() == 0,
            r.next_in == 1 && r.next_out == 1,
            !r.ep0_halted,
            r.pending_clear(),
            r.setup_view() is None,
    {
        UsbBus {
            caps: table.eps,
            allocs: Vec::new(),
            next_in: 1,
            next_out: 1,
            ep0_halted: false,
            pending_reset: false,
            pending_setup: false,
            pending_in: 0,
            pending_out: 0,
            setup_data: Vec::new(),
            has_setup: false,
        }
    }

    /// Whether capability slot `i` is already bound.
    fn slot_taken_exec(&self, i: usize) -> (r: bool)
        ensures
            r == self.slot_taken(i as int),
    {
        let mut j: usize = 0;
        while j < self.allocs.len()
            invariant
                0 <= j <= self.allocs@.len(),
                forall|k: int| 0 <= k < j ==> (#[trigger] self.allocs@[k]).cap_index != i as int,
            decreases self.allocs@.len() - j,
        {
            if self.allocs[j].cap_index == i {
                return true;
            }
            j = j + 1;
        }
        false
    }

    /// Whether table entry `i` satisfies the request.
    fn entry_matches(
        &self,
        i: usize,
        dir: Direction,
        transfer_type: TransferType,
        max_packet: u16,
    ) -> (r: bool)
        requires
            i < self.caps@.len(),
        ensures
            r == cap_matches(self.caps@[i as int], dir, transfer_type, max_packet),
    {
        let e = &self.caps[i];
        let dir_ok = match dir {
            Direction::In => e.caps.dir_in(),
            Direction::Out => e.caps.dir_out(),
        };
        let type_ok = match transfer_type {
            TransferType::Control => e.caps.type_control(),
            TransferType::Isochronous => e.caps.type_iso(),
            TransferType::Bulk => e.caps.type_bulk(),
            TransferType::Interrupt => e.caps.type_int(),
        };
        dir_ok && type_ok && e.limits.maxpacket_limit >= max_packet
    }

    /// Allocate an endpoint for the requested direction, transfer type and
    /// packet size.
    ///
    /// The capability table is scanned in table order; the first entry that
    /// is not yet bound and satisfies the request is taken, and the next
    /// unused peripheral number of the direction becomes its address. The
    /// new binding is recorded disabled and with no handle: nothing is
    /// asked of the kernel here, so a failed request leaves the mirror — and
    /// the kernel — exactly as they were.
    pub fn allocate(
        &mut self,
        dir: Direction,
        transfer_type: TransferType,
        max_packet: u16,
        interval: u8,
    ) -> (r: Result<EpAddress, AllocError>)
        requires
            old(self).wf(),
        ensures
            final(self).wf(),
            r is Ok <==> old(self).has_fit(dir, transfer_type, max_packet) && old(
                self,
            ).next_number(dir) < EP_NUM_LIMIT,
            r is Err ==> r == Err::<EpAddress, AllocError>(AllocError::NoMatchingEndpoint)
                && final(self).state_eq(*old(self)),
            r matches Ok(a) ==> {
                &&& a.wf()
                &&& a.dir == dir
                &&& a.number == old(self).next_number(dir)
                &&& exists|i: int|
                    #[trigger] old(self).is_first_fit(dir, transfer_type, max_packet, i)
                        && final(self).allocs@ == old(self).allocs@.push(
                        AllocatedEndpoint {
                            address: a,
                            cap_index: i as usize,
                            transfer_type,
                            max_packet,
                            interval,
                            handle: 0,
                            enabled: false,
                            halted: false,
                        },
                    )
                &&& final(self).next_number(dir) == old(self).next_number(dir) + 1
                &&& match dir {
                    Direction::In => final(self).next_out == old(self).next_out,
                    Direction::Out => final(self).next_in == old(self).next_in,
                }
                &&& final(self).caps@ == old(self).caps@
                &&& final(self).ep0_halted == old(self).ep0_halted
                &&& final(self).pending_reset == old(self).pending_reset
                &&& final(self).pending_setup == old(self).pending_setup
                &&& final(self).pending_in == old(self).pending_in
                &&& final(self).pending_out == old(self).pending_out
                &&& final(self).setup_view() == old(self).setup_view()
            },
    {
        let next = match dir {
            Direction::In => self.next_in,
            Direction::Out => self.next_out,
        };
        if next >= EP_NUM_LIMIT {
            return Err(AllocError::NoMatchingEndpoint);
        }
        let n = self.caps.len();
        let mut i: usize = 0;
        while i < n
            invariant
                0 <= i <= n,
                n == self.caps@.len(),
                *self == *old(self),
                old(self).wf(),
                next == old(self).next_number(dir),
                next < EP_NUM_LIMIT,
                forall|k: int|
                    0 <= k < i ==> !(cap_matches(
                        #[trigger] self.caps@[k],
                        dir,
                        transfer_type,
                        max_packet,
                    ) && !self.slot_taken(k)),
            decreases n - i,
        {
            let taken = self.slot_taken_exec(i);
            let fits = self.entry_matches(i, dir, transfer_type, max_packet);
            if fits && !taken {
                let address = EpAddress { dir, number: next };
                let entry = AllocatedEndpoint {
                    address,
                    cap_index: i,
                    transfer_type,
                    max_packet,
                    interval,
                    handle: 0,
                    enabled: false,
                    halted: false,
                };
                proof {
                    assert(old(self).is_first_fit(dir, transfer_type, max_packet, i as int));
                }
                self.allocs.push(entry);
                match dir {
                    Direction::In => {
                        self.next_in = next + 1;
                    },
                    Direction::Out => {
                        self.next_out = next + 1;
                    },
                }
                proof {
                    let olds = old(self).allocs@;
                    assert forall|p: int, q: int|
                        0 <= p < self.allocs@.len() && 0 <= q < self.allocs@.len() && p
                            != q implies (#[trigger] self.allocs@[p]).address != (
                    #[trigger] self.allocs@[q]).address by {
                        if p < olds.len() && q < olds.len() {
                        } else if p == olds.len() {
                            assert(olds[q].address.number < old(self).next_number(
                                olds[q].address.dir,
                            ));
                        } else {
                            assert(olds[p].address.number < old(self).next_number(
                                olds[p].address.dir,
                            ));
                        }
                    }
                }
                return Ok(address);
            }
            i = i + 1;
        }
        Err(AllocError::NoMatchingEndpoint)
    }

    /// How many allocations the state table holds.
    pub fn allocation_count(&self) -> (r: usize)
        ensures
            r == self.allocs@.len(),
    {
        self.allocs.len()
    }

    /// The allocation at table position `i`.
    pub fn allocation_at(&self, i: usize) -> (r: AllocatedEndpoint)
        requires
            i < self.allocs@.len(),
        ensures
            r == self.allocs@[i as int],
    {
        self.allocs[i]
    }

    /// The endpoint descriptor to enable allocation `i` with, built from
    /// the parameters the allocation was requested with.
    pub fn descriptor_for(&self, i: usize) -> (r: Vec<u8>)
        requires
            self.wf(),
            i < self.allocs@.len(),
        ensures
            r@ == seq![
                EP_DESCRIPTOR_SIZE as u8,
                EP_DESCRIPTOR_TYPE,
                self.allocs@[i as int].address.byte_spec(),
                self.allocs@[i as int].transfer_type.attributes_spec(),
            ] + le16_bytes(self.allocs@[i as int].max_packet) + seq![self.allocs@[i as int].interval],
    {
        let e = self.allocs[i];
        descriptor_bytes(e.address, e.transfer_type, e.max_packet, e.interval)
    }

    /// Record that the kernel accepted the enable request for allocation
    /// `i` and answered with `handle`.
    pub fn mark_enabled(&mut self, i: usize, handle: u32)
        requires
            old(self).wf(),
            i < old(self).allocs@.len(),
        ensures
            final(self).wf(),
            final(self).allocs@ == old(self).allocs@.update(
                i as int,
                AllocatedEndpoint {
                    handle,
                    enabled: true,
                    ..old(self).allocs@[i as int]
                },
            ),
            final(self).caps@ == old(self).caps@,
            final(self).next_in == old(self).next_in,
            final(self).next_out == old(self).next_out,
            final(self).ep0_halted == old(self).ep0_halted,
            final(self).pending_reset == old(self).pending_reset,
            final(self).pending_setup == old(self).pending_setup,
            final(self).pending_in == old(self).pending_in,
            final(self).pending_out == old(self).pending_out,
            final(self).setup_view() == old(self).setup_view(),
    {
        let mut e = self.allocs[i];
        e.enabled = true;
        e.handle = handle;
        self.allocs.set(i, e);
    }

    /// With distinct addresses, the allocation found at `j` is the one
    /// `index_of` names.
    pub proof fn lemma_addr_index(self, a: EpAddress, j: int)
        requires
            self.wf(),
            0 <= j < self.allocs@.len(),
            self.allocs@[j].address == a,
        ensures
            self.has_allocation(a),
            self.index_of(a) == j,
    {
        assert(self.has_allocation(a));
        let k = self.index_of(a);
        assert(0 <= k < self.allocs@.len() && self.allocs@[k].address == a);
    }

    /// Where a transfer for `address` must go: the control endpoint for
    /// number 0; otherwise the allocated endpoint's kernel handle, provided
    /// the endpoint exists, is enabled and is not halted.
    pub fn route(&self, address: EpAddress) -> (r: Result<IoRoute, TransferError>)
        requires
            self.wf(),
        ensures
            address.number == 0 ==> r == Ok::<IoRoute, TransferError>(IoRoute::ControlEndpoint),
            address.number != 0 && !self.has_allocation(address) ==> r == Err::<
                IoRoute,
                TransferError,
            >(TransferError::UnknownEndpoint),
            forall|i: int|
                0 <= i < self.allocs@.len() && (#[trigger] self.allocs@[i]).address == address
                    && address.number != 0 ==> r == (if !self.allocs@[i].enabled {
                    Err::<IoRoute, TransferError>(TransferError::Disabled)
                } else if self.allocs@[i].halted {
                    Err::<IoRoute, TransferError>(TransferError::Stalled)
                } else {
                    Ok::<IoRoute, TransferError>(IoRoute::DataEndpoint(self.allocs@[i].handle))
                }),
    {
        if address.number == 0 {
            return Ok(IoRoute::ControlEndpoint);
        }
        let mut j: usize = 0;
        while j < self.allocs.len()
            invariant
                0 <= j <= self.allocs@.len(),
                self.wf(),
                forall|k: int| 0 <= k < j ==> (#[trigger] self.allocs@[k]).address != address,
            decreases self.allocs@.len() - j,
        {
            let e = self.allocs[j];
            if e.address == address {
                if !e.enabled {
                    return Err(TransferError::Disabled);
                }
                if e.halted {
                    return Err(TransferError::Stalled);
                }
                return Ok(IoRoute::DataEndpoint(e.handle));
            }
            j = j + 1;
        }
        Err(TransferError::UnknownEndpoint)
    }

    /// Set or clear the halt flag of an address and name the kernel request
    /// that realizes the change.
    ///
    /// For the control endpoint the set direction maps to the control stall
    /// request and the clear direction to no request at all: a control
    /// stall clears by itself when the next setup packet arrives. For a
    /// data endpoint the request is set-halt or clear-halt on its handle.
    /// An address never allocated is refused and nothing changes.
    pub fn set_stalled(&mut self, address: EpAddress, stalled: bool) -> (r: Result<
        HaltAction,
        TransferError,
    >)
        requires
            old(self).wf(),
        ensures
            final(self).wf(),
            r is Ok <==> address.number == 0 || old(self).has_allocation(address),
            r is Ok ==> final(self).stalled_spec(address) == stalled,
            r is Err ==> r == Err::<HaltAction, TransferError>(TransferError::UnknownEndpoint)
                && final(self).state_eq(*old(self)),
            address.number == 0 ==> {
                &&& r == Ok::<HaltAction, TransferError>(
                    if stalled {
                        HaltAction::ControlStall
                    } else {
                        HaltAction::ControlAck
                    },
                )
                &&& final(self).ep0_halted == stalled
                &&& final(self).allocs@ == old(self).allocs@
            },
            address.number != 0 ==> forall|i: int|
                0 <= i < old(self).allocs@.len() && (#[trigger] old(self).allocs@[i]).address
                    == address ==> {
                    &&& r == Ok::<HaltAction, TransferError>(
                        if stalled {
                            HaltAction::SetHalt(old(self).allocs@[i].handle)
                        } else {
                            HaltAction::ClearHalt(old(self).allocs@[i].handle)
                        },
                    )
                    &&& final(self).allocs@ == old(self).allocs@.update(
                        i,
                        AllocatedEndpoint { halted: stalled, ..old(self).allocs@[i] },
                    )
                },
            address.number != 0 ==> final(self).ep0_halted == old(self).ep0_halted,
            final(self).caps@ == old(self).caps@,
            final(self).next_in == old(self).next_in,
            final(self).next_out == old(self).next_out,
            final(self).pending_reset == old(self).pending_reset,
            final(self).pending_setup == old(self).pending_setup,
            final(self).pending_in == old(self).pending_in,
            final(self).pending_out == old(self).pending_out,
            final(self).setup_view() == old(self).setup_view(),
    {
        if address.number == 0 {
            self.ep0_halted = stalled;
            return Ok(
                if stalled {
                    HaltAction::ControlStall
                } else {
                    HaltAction::ControlAck
                },
            );
        }
        let mut j: usize = 0;
        while j < self.allocs.len()
            invariant
                0 <= j <= self.allocs@.len(),
                *self == *old(self),
                old(self).wf(),
                address.number != 0,
                forall|k: int| 0 <= k < j ==> (#[trigger] self.allocs@[k]).address != address,
            decreases self.allocs@.len() - j,
        {
            let mut e = self.allocs[j];
            if e.address == address {
                e.halted = stalled;
                let handle = e.handle;
                self.allocs.set(j, e);
                proof {
                    final(self).lemma_addr_index(address, j as int);
                }
                return Ok(
                    if stalled {
                        HaltAction::SetHalt(handle)
                    } else {
                        HaltAction::ClearHalt(handle)
                    },
                );
            }
            j = j + 1;
        }
        Err(TransferError::UnknownEndpoint)
    }

    /// The halt flag an address carries, by pure lookup: no kernel request
    /// is involved.
    pub fn is_stalled(&self, address: EpAddress) -> (r: bool)
        requires
            self.wf(),
        ensures
            r == self.stalled_spec(address),
    {
        if address.number == 0 {
            return self.ep0_halted;
        }
        let mut j: usize = 0;
        while j < self.allocs.len()
            invariant
                0 <= j <= self.allocs@.len(),
                self.wf(),
                address.number != 0,
                forall|k: int| 0 <= k < j ==> (#[trigger] self.allocs@[k]).address != address,
            decreases self.allocs@.len() - j,
        {
            let e = self.allocs[j];
            if e.address == address {
                proof {
                    self.lemma_addr_index(address, j as int);
                }
                return e.halted;
            }
            j = j + 1;
        }
        false
    }

    /// Fold one kernel event into the mirror.
    ///
    /// A bus connect is a reset: the whole endpoint state table is cleared,
    /// the address counters start over, every pending completion and
    /// buffered setup packet of the dead configuration is dropped, and the
    /// next poll will report the reset. A control setup buffers its payload
    /// for the following control read, clears any control stall and marks
    /// setup data available. A data completion adds the endpoint's number
    /// to the IN-complete set when its IN transfer finished, and to the
    /// OUT-received set when its OUT data arrived; the carried byte count
    /// is left for the subsequent read to report.
    pub fn handle_event(&mut self, ev: BusEvent)
        requires
            old(self).wf(),
            ev matches BusEvent::DataComplete { address, .. } ==> address.wf(),
        ensures
            final(self).wf(),
            final(self).caps@ == old(self).caps@,
            ev is BusConnect ==> {
                &&& final(self).allocs@.len() == 0
                &&& forall|a: EpAddress| !final(self).has_allocation(a)
                &&& final(self).next_in == 1 && final(self).next_out == 1
                &&& final(self).pending_reset
                &&& !final(self).pending_setup
                &&& final(self).pending_in == 0 && final(self).pending_out == 0
                &&& final(self).setup_view() is None
                &&& !final(self).ep0_halted
            },
            ev matches BusEvent::ControlSetup(data) ==> {
                &&& final(self).pending_setup
                &&& final(self).setup_view() == Some(data@)
                &&& !final(self).ep0_halted
                &&& final(self).pending_reset == old(self).pending_reset
                &&& final(self).pending_in == old(self).pending_in
                &&& final(self).pending_out == old(self).pending_out
                &&& final(self).allocs@ == old(self).allocs@
                &&& final(self).next_in == old(self).next_in
                &&& final(self).next_out == old(self).next_out
            },
            ev matches BusEvent::DataComplete { address, .. } ==> {
                &&& address.dir is In ==> final(self).pending_in == (old(self).pending_in | (
                1u16 << address.number)) && mask_has(final(self).pending_in, address.number)
                    && final(self).pending_out == old(self).pending_out
                &&& address.dir is Out ==> final(self).pending_out == (old(self).pending_out | (
                1u16 << address.number)) && mask_has(final(self).pending_out, address.number)
                    && final(self).pending_in == old(self).pending_in
                &&& final(self).pending_reset == old(self).pending_reset
                &&& final(self).pending_setup == old(self).pending_setup
                &&& final(self).allocs@ == old(self).allocs@
                &&& final(self).next_in == old(self).next_in
                &&& final(self).next_out == old(self).next_out
                &&& final(self).ep0_halted == old(self).ep0_halted
                &&& final(self).setup_view() == old(self).setup_view()
            },
    {
        match ev {
            BusEvent::BusConnect => {
                self.allocs = Vec::new();
                self.next_in = 1;
                self.next_out = 1;
                self.ep0_halted = false;
                self.pending_reset = true;
                self.pending_setup = false;
                self.pending_in = 0;
                self.pending_out = 0;
                self.has_setup = false;
            },
            BusEvent::ControlSetup(data) => {
                self.setup_data = data;
                self.has_setup = true;
                self.pending_setup = true;
                self.ep0_halted = false;
            },
            BusEvent::DataComplete { address, count: _ } => {
                let bit: u16 = 1u16 << address.number;
                match address.dir {
                    Direction::In => {
                        proof {
                            lemma_mask_set(self.pending_in, address.number, 0);
                        }
                        self.pending_in = self.pending_in | bit;
                    },
                    Direction::Out => {
                        proof {
                            lemma_mask_set(self.pending_out, address.number, 0);
                        }
                        self.pending_out = self.pending_out | bit;
                    },
                }
            },
        }
    }

    /// Report everything that arrived since the previous poll, and clear
    /// it: each kernel event is classified into exactly one poll result,
    /// with no replay and no loss. A second call with nothing new in
    /// between therefore reports nothing.
    pub fn poll(&mut self) -> (r: PollResult)
        requires
            old(self).wf(),
        ensures
            final(self).wf(),
            r == old(self).poll_result_spec(),
            final(self).pending_clear(),
            final(self).allocs@ == old(self).allocs@,
            final(self).caps@ == old(self).caps@,
            final(self).next_in == old(self).next_in,
            final(self).next_out == old(self).next_out,
            final(self).ep0_halted == old(self).ep0_halted,
            final(self).setup_view() == old(self).setup_view(),
    {
        let r = PollResult {
            reset_occurred: self.pending_reset,
            setup_available: self.pending_setup,
            ready_in: self.pending_in,
            received_out: self.pending_out,
        };
        self.pending_reset = false;
        self.pending_setup = false;
        self.pending_in = 0;
        self.pending_out = 0;
        r
    }

    /// Hand out the buffered setup payload, if any, and drop the buffer:
    /// each setup packet is read at most once.
    pub fn take_setup(&mut self) -> (r: Option<Vec<u8>>)
        requires
            old(self).wf(),
        ensures
            final(self).wf(),
            r is Some <==> old(self).setup_view() is Some,
            r matches Some(v) ==> old(self).setup_view() == Some(v@),
            final(self).setup_view() is None,
            final(self).allocs@ == old(self).allocs@,
            final(self).caps@ == old(self).caps@,
            final(self).next_in == old(self).next_in,
            final(self).next_out == old(self).next_out,
            final(self).ep0_halted == old(self).ep0_halted,
            final(self).pending_reset == old(self).pending_reset,
            final(self).pending_setup == old(self).pending_setup,
            final(self).pending_in == old(self).pending_in,
            final(self).pending_out == old(self).pending_out,
    {
        if !self.has_setup {
            return None;
        }
        let mut out: Vec<u8> = Vec::new();
        let mut i: usize = 0;
        while i < self.setup_data.len()
            invariant
                0 <= i <= self.setup_data@.len(),
                *self == *old(self),
                out@ =~= self.setup_data@.subrange(0, i as int),
            decreases self.setup_data@.len() - i,
        {
            out.push(self.setup_data[i]);
            i = i + 1;
        }
        self.has_setup = false;
        proof {
            assert(out@ =~= old(self).setup_data@);
        }
        Some(out)
    }
}

/// No two allocated endpoints ever reference the same capability entry:
/// well-formedness, which every operation of the mirror establishes and
/// preserves, keeps the bound capability slots pairwise distinct.
pub proof fn lemma_allocations_exclusive(bus: UsbBus)
    requires
        bus.wf(),
    ensures
        forall|i: int, j: int|
            0 <= i < bus.allocs@.len() && 0 <= j < bus.allocs@.len() && i != j ==> (
            #[trigger] bus.allocs@[i]).cap_index != (#[trigger] bus.allocs@[j]).cap_index,
{
}

/// A poll on a drained mirror reports nothing — no reset, no setup, no
/// endpoint in either completion set. Together with `poll`'s own contract,
/// which leaves the pending state clear, two polls with no event in
/// between return an empty result the second time.
pub proof fn lemma_drained_poll_is_empty(bus: UsbBus)
    requires
        bus.pending_clear(),
    ensures
        bus.poll_result_spec().is_empty_spec(),
        forall|k: u8|
            k < 16 ==> !mask_has(bus.poll_result_spec().ready_in, k) && !mask_has(
                bus.poll_result_spec().received_out,
                k,
            ),
{
    assert forall|k: u8| k < 16 implies !mask_has(bus.poll_result_spec().ready_in, k)
        && !mask_has(bus.poll_result_spec().received_out, k) by {
        lemma_mask_empty(k);
    }
}

} // verus!
