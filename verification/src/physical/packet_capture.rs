//! API for capturing network traffic, also known as `pcap`.
//!
//! A capture is one global header followed by records, each a fixed header
//! and the raw frame bytes. All multi-byte fields are little-endian, the
//! byte order announced by the magic number that opens the stream.

use crate::time::Instant;
use crate::time::spec_secs;
use crate::time::spec_subsec_micros;
use vstd::bytes::spec_u16_to_le_bytes;
use vstd::bytes::spec_u32_to_le_bytes;
use vstd::prelude::*;

verus! {

/// Which direction(s) of traffic a capture session records.
#[derive(Debug, PartialEq, Eq, Clone, Copy)]
pub enum PcapMode {
    /// Captures both received and transmitted packets.
    Both,
    /// Captures only transmitted packets.
    Tx,
    /// Captures only received packets.
    Rx,
}

impl PcapMode {
    /// Whether a session in this mode records received frames. The sink has
    /// no notion of direction: the caller gates each `packet` call by this.
    pub fn captures_rx(&self) -> (r: bool)
        ensures
            r == (self is Both || self is Rx),
    {
        match self {
            PcapMode::Both | PcapMode::Rx => true,
            PcapMode::Tx => false,
        }
    }

    /// Whether a session in this mode records transmitted frames.
    pub fn captures_tx(&self) -> (r: bool)
        ensures
            r == (self is Both || self is Tx),
    {
        match self {
            PcapMode::Both | PcapMode::Tx => true,
            PcapMode::Rx => false,
        }
    }
}

/// Frame header type of a capture file. Known codes have a named variant;
/// any other code is preserved as its raw number and round-trips losslessly.
#[derive(Debug, PartialEq, Eq, Clone, Copy)]
pub enum PcapLink {
    /// Classical ethernet frames.
    Ethernet,
    /// Ipv4 or Ipv6 packets.
    Ip,
    /// A code this library gives no name, kept as it came.
    Unknown(u32),
}

impl PcapLink {
    /// The numeric link-layer code this value stands for.
    pub open spec fn spec_code(self) -> u32 {
        match self {
            PcapLink::Ethernet => 1,
            PcapLink::Ip => 101,
            PcapLink::Unknown(code) => code,
        }
    }

    /// The link type a capture file's numeric code denotes.
    pub open spec fn spec_from_code(code: u32) -> PcapLink {
        if code == 1 {
            PcapLink::Ethernet
        } else if code == 101 {
            PcapLink::Ip
        } else {
            PcapLink::Unknown(code)
        }
    }

    /// The numeric link-layer code this value stands for.
    pub fn code(&self) -> (r: u32)
        ensures
            r == self.spec_code(),
    {
        match self {
            PcapLink::Ethernet => 1,
            PcapLink::Ip => 101,
            PcapLink::Unknown(code) => *code,
        }
    }

    /// The link type a capture file's numeric code denotes. Every code,
    /// known or not, survives the round trip back through `code`.
    pub fn from_code(code: u32) -> (r: PcapLink)
        ensures
            r == PcapLink::spec_from_code(code),
            r.spec_code() == code,
    {
        if code == 1 {
            PcapLink::Ethernet
        } else if code == 101 {
            PcapLink::Ip
        } else {
            PcapLink::Unknown(code)
        }
    }
}

impl From<u32> for PcapLink {
    /// The link type a file's numeric code denotes.
    fn from(code: u32) -> (r: PcapLink) {
        PcapLink::from_code(code)
    }
}

impl vstd::std_specs::convert::FromSpecImpl<u32> for PcapLink {
    open spec fn obeys_from_spec() -> bool {
        true
    }

    open spec fn from_spec(code: u32) -> PcapLink {
        PcapLink::spec_from_code(code)
    }
}

impl From<PcapLink> for u32 {
    /// The numeric code a link type is written as.
    fn from(link: PcapLink) -> (r: u32) {
        link.code()
    }
}

impl vstd::std_specs::convert::FromSpecImpl<PcapLink> for u32 {
    open spec fn obeys_from_spec() -> bool {
        true
    }

    open spec fn from_spec(link: PcapLink) -> u32 {
        link.spec_code()
    }
}

/// This magic number describes the file format and the byte order in which
/// the stream's fields are written.
pub const STD_MAGIC_NUMBER: u32 = 0xA1B2C3D4;

/// The largest packet length a capture record may carry (the snap length).
pub const MAX_LEN: u32 = 65535;

/// Relies on `byteorder::LittleEndian::write_u16`: it fills the two-byte
/// buffer with the value's little-endian bytes.
#[verifier::external_body]
fn le_u16_bytes(content: u16) -> (r: Vec<u8>)
    ensures
        r@ == spec_u16_to_le_bytes(content),
{
    let mut bytes = vec![0u8; 2];
    <byteorder::LittleEndian as byteorder::ByteOrder>::write_u16(&mut bytes, content);
    bytes
}

/// Relies on `byteorder::LittleEndian::write_u32`: it fills the four-byte
/// buffer with the value's little-endian bytes.
#[verifier::external_body]
fn le_u32_bytes(content: u32) -> (r: Vec<u8>)
    ensures
        r@ == spec_u32_to_le_bytes(content),
{
    let mut bytes = vec![0u8; 4];
    <byteorder::LittleEndian as byteorder::ByteOrder>::write_u32(&mut bytes, content);
    bytes
}

/// The 24-byte global header of a capture stream for the given link type:
/// magic number, format version 2.4, timezone offset 0, timestamp accuracy
/// 0, the snap length, and the numeric link code.
pub open spec fn spec_global_header(link: PcapLink) -> Seq<u8> {
    spec_u32_to_le_bytes(STD_MAGIC_NUMBER) + spec_u16_to_le_bytes(2) + spec_u16_to_le_bytes(4)
        + spec_u32_to_le_bytes(0) + spec_u32_to_le_bytes(0) + spec_u32_to_le_bytes(MAX_LEN)
        + spec_u32_to_le_bytes(link.spec_code())
}

/// The 16-byte header of one capture record: timestamp seconds, timestamp
/// microseconds, captured length, and original length. The two lengths are
/// equal: truncation is not supported.
pub open spec fn spec_packet_header(timestamp: Instant, len: u32) -> Seq<u8> {
    spec_u32_to_le_bytes(spec_secs(timestamp.spec_micros()) as u32) + spec_u32_to_le_bytes(
        spec_subsec_micros(timestamp.spec_micros()) as u32,
    ) + spec_u32_to_le_bytes(len) + spec_u32_to_le_bytes(len)
}

/// Interface for a packet capture sink: an append-only byte stream that a
/// capture session serializes frames into.
pub trait PcapSink {
    /// The bytes the sink has accepted so far.
    spec fn stream(&self) -> Seq<u8>;

    /// Appends the given content to the sink.
    fn write(&mut self, content: &[u8])
        ensures
            final(self).stream() == old(self).stream() + content@,
    ;

    /// Forces any buffered output through to the underlying storage. The
    /// accepted bytes are unchanged.
    fn flush(&mut self)
        ensures
            final(self).stream() == old(self).stream(),
    ;

    /// Appends a `u16` in the stream's byte order.
    fn write_u16(&mut self, content: u16)
        ensures
            final(self).stream() == old(self).stream() + spec_u16_to_le_bytes(content),
    {
        let bytes = le_u16_bytes(content);
        self.write(bytes.as_slice());
    }

    /// Appends a `u32` in the stream's byte order.
    fn write_u32(&mut self, content: u32)
        ensures
            final(self).stream() == old(self).stream() + spec_u32_to_le_bytes(content),
    {
        let bytes = le_u32_bytes(content);
        self.write(bytes.as_slice());
    }

    /// Writes the global header into the sink. It must be written exactly
    /// once, before any packet.
    fn global_header(&mut self, link: PcapLink)
        ensures
            final(self).stream() == old(self).stream() + spec_global_header(link),
    {
        self.write_u32(STD_MAGIC_NUMBER);
        self.write_u16(2);  // major version
        self.write_u16(4);  // minor version
        self.write_u32(0);  // timezone offset compared to utc
        self.write_u32(0);  // timestamp accuracy
        self.write_u32(MAX_LEN);  // maximum packet length captured
        let code = link.code();
        self.write_u32(code);  // network link-layer identifier
        proof {
            assert(self.stream() =~= old(self).stream() + spec_global_header(link));
        }
    }

    /// Writes one record header into the sink, immediately before the
    /// packet's bytes. The length must not exceed the snap length, and the
    /// timestamp must lie between the epoch and the largest second count
    /// the format can hold.
    fn packet_header(&mut self, timestamp: Instant, len: usize)
        requires
            len <= MAX_LEN,
            0 <= timestamp.spec_micros(),
            spec_secs(timestamp.spec_micros()) <= u32::MAX,
        ensures
            final(self).stream() == old(self).stream() + spec_packet_header(
                timestamp,
                len as u32,
            ),
    {
        let sec = timestamp.secs();
        let usec = timestamp.micros();
        self.write_u32(sec as u32);  // timestamp interval
        self.write_u32(usec as u32);
        self.write_u32(len as u32);  // bytes actually captured
        self.write_u32(len as u32);  // actual packet length on the wire
        proof {
            assert(self.stream() =~= old(self).stream() + spec_packet_header(
                timestamp,
                len as u32,
            ));
        }
    }

    /// Writes one captured frame: its record header, then its bytes, then a
    /// flush, so each frame is durably written before the next is accepted.
    fn packet(&mut self, timestamp: Instant, packet: &[u8])
        requires
            packet@.len() <= MAX_LEN,
            0 <= timestamp.spec_micros(),
            spec_secs(timestamp.spec_micros()) <= u32::MAX,
        ensures
            final(self).stream() == old(self).stream() + spec_packet_header(
                timestamp,
                packet@.len() as u32,
            ) + packet@,
    {
        self.packet_header(timestamp, packet.len());
        self.write(packet);
        self.flush();
    }

    /// Like `packet`, but holds the length to the snap length at run time:
    /// a longer frame is rejected whole, the stream is left unchanged, and
    /// the answer says so. No malformed record is ever written.
    fn try_packet(&mut self, timestamp: Instant, packet: &[u8]) -> (r: bool)
        requires
            0 <= timestamp.spec_micros(),
            spec_secs(timestamp.spec_micros()) <= u32::MAX,
        ensures
            r == (packet@.len() <= MAX_LEN),
            r ==> final(self).stream() == old(self).stream() + spec_packet_header(
                timestamp,
                packet@.len() as u32,
            ) + packet@,
            !r ==> final(self).stream() == old(self).stream(),
    {
        if packet.len() <= MAX_LEN as usize {
            self.packet(timestamp, packet);
            true
        } else {
            false
        }
    }
}

/// A capture sink backed by an in-memory byte buffer.
pub struct BufferSink {
    buffer: Vec<u8>,
}

impl BufferSink {
    /// An empty sink.
    pub fn new() -> (r: Self)
        ensures
            r.stream() == Seq::<u8>::empty(),
    {
        let r = BufferSink { buffer: Vec::new() };
        proof {
            assert(r.stream() =~= Seq::<u8>::empty());
        }
        r
    }

    /// The bytes recorded so far.
    pub fn bytes(&self) -> (r: &Vec<u8>)
        ensures
            r@ == self.stream(),
    {
        &self.buffer
    }
}

impl PcapSink for BufferSink {
    closed spec fn stream(&self) -> Seq<u8> {
        self.buffer@
    }

    fn write(&mut self, content: &[u8]) {
        let mut i: usize = 0;
        while i < content.len()
            invariant
                i <= content@.len(),
                self.buffer@ == old(self).buffer@ + content@.subrange(0, i as int),
            decreases content@.len() - i,
        {
            self.buffer.push(content[i]);
            proof {
                assert(self.buffer@ =~= old(self).buffer@ + content@.subrange(0, i + 1));
            }
            i = i + 1;
        }
        proof {
            assert(self.buffer@ =~= old(self).buffer@ + content@);
        }
    }

    fn flush(&mut self) {
    }
}

} // verus!
