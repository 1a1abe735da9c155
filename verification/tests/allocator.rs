use rawgadget_usbd::bus::UsbBus;
use rawgadget_usbd::caps::{EpCaps, EpInfo, EpLimits, EpsInfo};
use rawgadget_usbd::errors::AllocError;
use rawgadget_usbd::usb::{Direction, TransferType};

fn entry(name: &[u8], addr: u32, caps: u32, maxpacket: u16) -> EpInfo {
    let mut padded = vec![0u8; 16];
    padded[..name.len()].copy_from_slice(name);
    EpInfo {
        name: padded,
        addr,
        caps: EpCaps(caps),
        limits: EpLimits { maxpacket_limit: maxpacket, max_streams: 0 },
    }
}

fn bus_with(entries: Vec<EpInfo>) -> UsbBus {
    UsbBus::new(EpsInfo { eps: entries })
}

const BULK_IN: u32 = 0x4 | 0x10;
const BULK_OUT: u32 = 0x4 | 0x20;
const INT_IN: u32 = 0x8 | 0x10;

#[test]
fn single_entry_first_fit_then_exhausted() {
    // One bulk-capable IN slot with a 512-byte limit: the first request
    // gets address IN 1, the second finds nothing left.
    let mut bus = bus_with(vec![entry(b"ep1", 1, BULK_IN, 512)]);
    let a = bus.allocate(Direction::In, TransferType::Bulk, 64, 0).unwrap();
    assert!(matches!(a.dir, Direction::In));
    assert_eq!(a.number, 1);
    let r = bus.allocate(Direction::In, TransferType::Bulk, 64, 0);
    assert_eq!(r.err(), Some(AllocError::NoMatchingEndpoint));
}

#[test]
fn no_two_allocations_share_a_slot() {
    // Three identical slots, three requests: each allocation owns its own
    // capability entry.
    let mut bus = bus_with(vec![
        entry(b"ep1", 1, BULK_IN, 512),
        entry(b"ep2", 2, BULK_IN, 512),
        entry(b"ep3", 3, BULK_IN, 512),
    ]);
    for _ in 0..3 {
        bus.allocate(Direction::In, TransferType::Bulk, 64, 0).unwrap();
    }
    let n = bus.allocation_count();
    assert_eq!(n, 3);
    for i in 0..n {
        for j in 0..n {
            if i != j {
                assert_ne!(bus.allocation_at(i).cap_index, bus.allocation_at(j).cap_index);
            }
        }
    }
}

#[test]
fn unsatisfiable_request_changes_nothing() {
    // No slot supports isochronous OUT: the request fails and the state
    // table is untouched, so no enable request exists to issue.
    let mut bus = bus_with(vec![entry(b"ep1", 1, BULK_IN, 512)]);
    let r = bus.allocate(Direction::Out, TransferType::Isochronous, 64, 0);
    assert_eq!(r.err(), Some(AllocError::NoMatchingEndpoint));
    assert_eq!(bus.allocation_count(), 0);
}

#[test]
fn packet_limit_is_respected() {
    let mut bus = bus_with(vec![entry(b"ep1", 1, BULK_IN, 64)]);
    let r = bus.allocate(Direction::In, TransferType::Bulk, 512, 0);
    assert_eq!(r.err(), Some(AllocError::NoMatchingEndpoint));
    assert!(bus.allocate(Direction::In, TransferType::Bulk, 64, 0).is_ok());
}

#[test]
fn first_fit_takes_table_order() {
    // The second slot also fits, but the scan stops at the first.
    let mut bus = bus_with(vec![
        entry(b"ep1", 1, BULK_IN, 512),
        entry(b"ep2", 2, BULK_IN, 512),
    ]);
    let a = bus.allocate(Direction::In, TransferType::Bulk, 64, 0).unwrap();
    assert_eq!(bus.allocation_at(0).cap_index, 0);
    assert_eq!(a.number, 1);
    bus.allocate(Direction::In, TransferType::Bulk, 64, 0).unwrap();
    assert_eq!(bus.allocation_at(1).cap_index, 1);
}

#[test]
fn skips_entry_that_misses_a_bit() {
    // The first slot is bulk OUT only; an IN request must take the second.
    let mut bus = bus_with(vec![
        entry(b"ep1", 1, BULK_OUT, 512),
        entry(b"ep2", 2, BULK_IN, 512),
    ]);
    bus.allocate(Direction::In, TransferType::Bulk, 64, 0).unwrap();
    assert_eq!(bus.allocation_at(0).cap_index, 1);
}

#[test]
fn directions_number_independently() {
    let mut bus = bus_with(vec![
        entry(b"ep1", 1, BULK_IN, 512),
        entry(b"ep2", 2, BULK_OUT, 512),
        entry(b"ep3", 3, INT_IN, 64),
    ]);
    let a = bus.allocate(Direction::In, TransferType::Bulk, 64, 0).unwrap();
    let b = bus.allocate(Direction::Out, TransferType::Bulk, 64, 0).unwrap();
    let c = bus.allocate(Direction::In, TransferType::Interrupt, 8, 10).unwrap();
    assert_eq!(a.number, 1);
    assert_eq!(b.number, 1);
    assert_eq!(c.number, 2);
    assert!(matches!(b.dir, Direction::Out));
}

#[test]
fn enable_flow_records_handle_and_descriptor() {
    let mut bus = bus_with(vec![entry(b"ep1", 1, BULK_IN, 512)]);
    let a = bus.allocate(Direction::In, TransferType::Bulk, 512, 0).unwrap();
    assert_eq!(a.number, 1);
    let before = bus.allocation_at(0);
    assert!(!before.enabled);
    let d = bus.descriptor_for(0);
    assert_eq!(d, vec![7, 5, 0x81, 2, 0x00, 0x02, 0]);
    bus.mark_enabled(0, 42);
    let after = bus.allocation_at(0);
    assert!(after.enabled);
    assert_eq!(after.handle, 42);
    assert!(!after.halted);
}
