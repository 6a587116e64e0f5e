use netphy::physical::packet_capture::BufferSink;
use netphy::physical::packet_capture::PcapLink;
use netphy::physical::packet_capture::PcapMode;
use netphy::physical::packet_capture::PcapSink;
use netphy::time::Instant;

fn read_u16(bytes: &[u8]) -> u16 {
    <byteorder::LittleEndian as byteorder::ByteOrder>::read_u16(bytes)
}

fn read_u32(bytes: &[u8]) -> u32 {
    <byteorder::LittleEndian as byteorder::ByteOrder>::read_u32(bytes)
}

#[test]
fn capture_round_trip() {
    let mut sink = BufferSink::new();
    sink.global_header(PcapLink::Ethernet);
    let frame: Vec<u8> = vec![
        0xff, 0xff, 0xff, 0xff, 0xff, 0xff, 0x02, 0x00, 0x00, 0x00, 0x00, 0x01, 0x08, 0x06,
    ];
    assert_eq!(frame.len(), 14);
    sink.packet(Instant::from_secs(100), &frame);

    let bytes = sink.bytes();
    assert_eq!(bytes.len(), 24 + 16 + 14);
    // Global header.
    assert_eq!(read_u32(&bytes[0..4]), 0xA1B2C3D4);
    assert_eq!(read_u16(&bytes[4..6]), 2);
    assert_eq!(read_u16(&bytes[6..8]), 4);
    assert_eq!(read_u32(&bytes[8..12]), 0);
    assert_eq!(read_u32(&bytes[12..16]), 0);
    assert_eq!(read_u32(&bytes[16..20]), 65535);
    assert_eq!(read_u32(&bytes[20..24]), 1);
    // Record header.
    assert_eq!(read_u32(&bytes[24..28]), 100);
    assert_eq!(read_u32(&bytes[28..32]), 0);
    assert_eq!(read_u32(&bytes[32..36]), 14);
    assert_eq!(read_u32(&bytes[36..40]), 14);
    // The frame itself.
    assert_eq!(&bytes[40..54], frame.as_slice());
}

#[test]
fn packet_header_splits_the_timestamp() {
    let mut sink = BufferSink::new();
    sink.packet_header(Instant::from_micros(3_000_042), 5);
    let bytes = sink.bytes();
    assert_eq!(bytes.len(), 16);
    assert_eq!(read_u32(&bytes[0..4]), 3);
    assert_eq!(read_u32(&bytes[4..8]), 42);
    assert_eq!(read_u32(&bytes[8..12]), 5);
    assert_eq!(read_u32(&bytes[12..16]), 5);
}

#[test]
fn oversize_packet_is_rejected_whole() {
    let mut sink = BufferSink::new();
    sink.global_header(PcapLink::Ethernet);
    let oversize: Vec<u8> = vec![0u8; 65536];
    assert!(!sink.try_packet(Instant::from_secs(1), &oversize));
    // Nothing past the global header was written.
    assert_eq!(sink.bytes().len(), 24);
}

#[test]
fn largest_packet_is_accepted() {
    let mut sink = BufferSink::new();
    let largest: Vec<u8> = vec![7u8; 65535];
    assert!(sink.try_packet(Instant::from_secs(1), &largest));
    assert_eq!(sink.bytes().len(), 16 + 65535);
    assert_eq!(read_u32(&sink.bytes()[8..12]), 65535);
}

#[test]
fn ip_link_code_is_written() {
    let mut sink = BufferSink::new();
    sink.global_header(PcapLink::Ip);
    assert_eq!(read_u32(&sink.bytes()[20..24]), 101);
}

#[test]
fn link_codes_round_trip() {
    assert_eq!(PcapLink::from_code(1), PcapLink::Ethernet);
    assert_eq!(PcapLink::from_code(101), PcapLink::Ip);
    assert_eq!(PcapLink::from_code(147), PcapLink::Unknown(147));
    assert_eq!(PcapLink::Ethernet.code(), 1);
    assert_eq!(PcapLink::Ip.code(), 101);
    assert_eq!(PcapLink::Unknown(147).code(), 147);
    for code in [0u32, 1, 2, 101, 147, 0xFFFF_FFFF] {
        assert_eq!(PcapLink::from_code(code).code(), code);
    }
}

#[test]
fn modes_are_distinct() {
    assert_ne!(PcapMode::Both, PcapMode::Tx);
    assert_ne!(PcapMode::Both, PcapMode::Rx);
    assert_ne!(PcapMode::Tx, PcapMode::Rx);
}

#[test]
fn modes_gate_directions() {
    assert!(PcapMode::Both.captures_rx() && PcapMode::Both.captures_tx());
    assert!(PcapMode::Rx.captures_rx() && !PcapMode::Rx.captures_tx());
    assert!(!PcapMode::Tx.captures_rx() && PcapMode::Tx.captures_tx());
}

#[test]
fn from_conversions_match_the_codes() {
    assert_eq!(u32::from(PcapLink::Ethernet), 1);
    assert_eq!(u32::from(PcapLink::Ip), 101);
    assert_eq!(PcapLink::from(101u32), PcapLink::Ip);
    assert_eq!(PcapLink::from(7u32), PcapLink::Unknown(7));
}
