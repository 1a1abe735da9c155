use rawgadget_usbd::bytes::{push_u16_le, push_u32_le, read_u16_le, read_u32_le};
use rawgadget_usbd::caps::{EpCaps, EpInfo, EpsInfo, EP_INFO_SIZE, EPS_NUM_MAX};
use rawgadget_usbd::errors::{InitError, TransferError};
use rawgadget_usbd::init::Init;
use rawgadget_usbd::io::{
    copy_prefix, descriptor_bytes, map_errno, EpIo, Event, EventType, CODE_EAGAIN, CODE_ENODEV,
    CODE_EPIPE, CODE_ESHUTDOWN,
};
use rawgadget_usbd::usb::{Direction, EpAddress, TransferType, UsbSpeed};

#[test]
fn le16_round_trip() {
    let mut out: Vec<u8> = Vec::new();
    push_u16_le(&mut out, 0x1234);
    assert_eq!(out, vec![0x34, 0x12]);
    assert_eq!(read_u16_le(&out, 0), 0x1234);
}

#[test]
fn le32_round_trip() {
    let mut out: Vec<u8> = Vec::new();
    push_u32_le(&mut out, 0xdeadbeef);
    assert_eq!(out, vec![0xef, 0xbe, 0xad, 0xde]);
    assert_eq!(read_u32_le(&out, 0), 0xdeadbeef);
}

#[test]
fn caps_bits() {
    let c = EpCaps(0x1 | 0x4 | 0x10);
    assert!(c.type_control());
    assert!(!c.type_iso());
    assert!(c.type_bulk());
    assert!(!c.type_int());
    assert!(c.dir_in());
    assert!(!c.dir_out());
    let c = EpCaps(0x2 | 0x8 | 0x20);
    assert!(!c.type_control());
    assert!(c.type_iso());
    assert!(!c.type_bulk());
    assert!(c.type_int());
    assert!(!c.dir_in());
    assert!(c.dir_out());
}

#[test]
fn speed_codes() {
    assert_eq!(UsbSpeed::Unknown.code(), 0);
    assert_eq!(UsbSpeed::Low.code(), 1);
    assert_eq!(UsbSpeed::Full.code(), 2);
    assert_eq!(UsbSpeed::High.code(), 3);
    assert_eq!(UsbSpeed::Wireless.code(), 4);
    assert_eq!(UsbSpeed::Super.code(), 5);
    assert_eq!(UsbSpeed::SuperPlus.code(), 6);
}

#[test]
fn address_byte_round_trip() {
    let a = EpAddress { dir: Direction::In, number: 3 };
    assert_eq!(a.byte(), 0x83);
    let b = EpAddress::from_byte(0x83);
    assert_eq!(b.number, 3);
    assert!(matches!(b.dir, Direction::In));
    let c = EpAddress::from_byte(0x02);
    assert_eq!(c.number, 2);
    assert!(matches!(c.dir, Direction::Out));
}

#[test]
fn init_builds_padded_record() {
    let ini = Init::new(b"dummy_udc", b"dummy_udc.0", UsbSpeed::High).unwrap();
    assert_eq!(ini.driver_name.len(), 128);
    assert_eq!(ini.device_name.len(), 128);
    assert_eq!(&ini.driver_name[..9], b"dummy_udc");
    assert!(ini.driver_name[9..].iter().all(|&b| b == 0));
    assert_eq!(&ini.device_name[..11], b"dummy_udc.0");
    assert!(ini.device_name[11..].iter().all(|&b| b == 0));
    assert_eq!(ini.speed, 3);
    let bytes = ini.to_bytes();
    assert_eq!(bytes.len(), 257);
    assert_eq!(&bytes[..9], b"dummy_udc");
    assert_eq!(&bytes[128..139], b"dummy_udc.0");
    assert_eq!(bytes[256], 3);
}

#[test]
fn init_rejects_long_driver_name() {
    // A 130-byte driver name fails validation before anything could reach
    // the kernel.
    let long = vec![b'a'; 130];
    let r = Init::new(&long, b"dev", UsbSpeed::High);
    assert_eq!(r.err(), Some(InitError::NameTooLong));
}

#[test]
fn init_name_length_boundary() {
    // 127 bytes leave room for the nul terminator; 128 do not.
    let just_fits = vec![b'a'; 127];
    assert!(Init::new(&just_fits, b"dev", UsbSpeed::Full).is_ok());
    let too_long = vec![b'a'; 128];
    assert_eq!(
        Init::new(&too_long, b"dev", UsbSpeed::Full).err(),
        Some(InitError::NameTooLong)
    );
    assert_eq!(
        Init::new(b"drv", &too_long, UsbSpeed::Full).err(),
        Some(InitError::NameTooLong)
    );
}

#[test]
fn init_rejects_interior_nul() {
    let r = Init::new(b"du\0mmy", b"dev", UsbSpeed::High);
    assert_eq!(r.err(), Some(InitError::NameHasNul));
    let r = Init::new(b"drv", b"de\0v", UsbSpeed::High);
    assert_eq!(r.err(), Some(InitError::NameHasNul));
}

#[test]
fn event_parse_and_classify() {
    // Event code 2 (control), 8-byte payload.
    let mut b: Vec<u8> = vec![2, 0, 0, 0, 8, 0, 0, 0];
    b.extend_from_slice(&[0x80, 0x06, 0x00, 0x01, 0x00, 0x00, 0x40, 0x00]);
    let ev = Event::parse(&b).unwrap();
    assert_eq!(ev.event_type, 2);
    assert!(matches!(ev.kind(), EventType::Control));
    assert_eq!(ev.data, vec![0x80, 0x06, 0x00, 0x01, 0x00, 0x00, 0x40, 0x00]);

    let connect = Event::parse(&[1, 0, 0, 0, 0, 0, 0, 0]).unwrap();
    assert!(matches!(connect.kind(), EventType::Connect));
    assert!(connect.data.is_empty());

    let invalid = Event::parse(&[9, 0, 0, 0, 0, 0, 0, 0]).unwrap();
    assert!(matches!(invalid.kind(), EventType::Invalid));
}

#[test]
fn event_parse_rejects_short_buffer() {
    // Header names a 16-byte payload but only 4 bytes follow.
    let mut b: Vec<u8> = vec![2, 0, 0, 0, 16, 0, 0, 0];
    b.extend_from_slice(&[1, 2, 3, 4]);
    assert!(Event::parse(&b).is_none());
}

#[test]
fn ep_io_layout() {
    let io = EpIo { ep: 0x0102, flags: 0x0304, data: vec![0xaa, 0xbb, 0xcc] };
    let b = io.to_bytes();
    assert_eq!(b, vec![0x02, 0x01, 0x04, 0x03, 3, 0, 0, 0, 0xaa, 0xbb, 0xcc]);
}

#[test]
fn descriptor_layout() {
    let addr = EpAddress { dir: Direction::In, number: 1 };
    let d = descriptor_bytes(addr, TransferType::Bulk, 512, 0);
    assert_eq!(d, vec![7, 5, 0x81, 2, 0x00, 0x02, 0]);
    let addr = EpAddress { dir: Direction::Out, number: 2 };
    let d = descriptor_bytes(addr, TransferType::Interrupt, 64, 10);
    assert_eq!(d, vec![7, 5, 0x02, 3, 64, 0, 10]);
}

#[test]
fn errno_mapping() {
    assert_eq!(map_errno(CODE_EAGAIN), TransferError::WouldBlock);
    assert_eq!(map_errno(CODE_EPIPE), TransferError::Stalled);
    assert_eq!(map_errno(CODE_ENODEV), TransferError::Disabled);
    assert_eq!(map_errno(CODE_ESHUTDOWN), TransferError::Disabled);
    assert_eq!(map_errno(1), TransferError::Channel);
}

#[test]
fn copy_prefix_is_short_transfer() {
    let buf = [1u8, 2, 3, 4, 5];
    assert_eq!(copy_prefix(&buf, 3), vec![1, 2, 3]);
    assert_eq!(copy_prefix(&buf, 0), Vec::<u8>::new());
}

fn raw_entry(name: &[u8], addr: u32, caps: u32, maxpacket: u16, streams: u16) -> Vec<u8> {
    let mut b = vec![0u8; EP_INFO_SIZE];
    b[..name.len()].copy_from_slice(name);
    b[16..20].copy_from_slice(&addr.to_le_bytes());
    b[20..24].copy_from_slice(&caps.to_le_bytes());
    b[24..26].copy_from_slice(&maxpacket.to_le_bytes());
    b[26..28].copy_from_slice(&streams.to_le_bytes());
    b
}

#[test]
fn eps_info_parse_filters_unnamed_slots() {
    let mut raw = vec![0u8; EPS_NUM_MAX * EP_INFO_SIZE];
    // Slot 0 and slot 3 are named; everything else stays all-zero.
    raw[..EP_INFO_SIZE].copy_from_slice(&raw_entry(b"ep1in", 7, 0x14, 512, 0));
    raw[3 * EP_INFO_SIZE..4 * EP_INFO_SIZE]
        .copy_from_slice(&raw_entry(b"ep2out", 9, 0x28, 64, 4));
    let table = EpsInfo::parse(&raw);
    assert_eq!(table.eps.len(), 2);
    let e0: &EpInfo = &table.eps[0];
    assert_eq!(&e0.name[..5], b"ep1in");
    assert_eq!(e0.addr, 7);
    assert!(e0.caps.type_bulk() && e0.caps.dir_in());
    assert_eq!(e0.limits.maxpacket_limit, 512);
    assert_eq!(e0.limits.max_streams, 0);
    let e1: &EpInfo = &table.eps[1];
    assert_eq!(&e1.name[..6], b"ep2out");
    assert_eq!(e1.addr, 9);
    assert!(e1.caps.type_int() && e1.caps.dir_out());
    assert_eq!(e1.limits.maxpacket_limit, 64);
    assert_eq!(e1.limits.max_streams, 4);
}

#[test]
fn eps_info_parse_all_empty() {
    let raw = vec![0u8; EPS_NUM_MAX * EP_INFO_SIZE];
    let table = EpsInfo::parse(&raw);
    assert!(table.eps.is_empty());
}
