//! Physical layer (or PHY), the first part of the networking stack: the
//! boundary between raw hardware frame I/O and the upper protocol layers.

use crate::time::Instant;
use vstd::prelude::*;

pub mod packet_capture;

verus! {

/// Metadata of a packet: a caller-assigned identity tag. This layer enforces
/// no uniqueness of the tag.
#[derive(Debug, PartialEq, Eq, Hash, Clone, Copy)]
pub struct PacketMetadata {
    pub id: u32,
}

/// Checksum behaviour of a given protocol.
#[derive(Debug, PartialEq, Eq, Hash, Clone, Copy)]
pub enum Checksum {
    /// Verify the checksum when receiving and compute it when sending.
    Both,
    /// Ignore checksum.
    Neither,
    /// Verify the checksum when receiving.
    Rx,
    /// Compute the checksum when sending.
    Tx,
}

impl Checksum {
    /// Whether the checksum is to be computed when sending.
    pub open spec fn spec_tx(self) -> bool {
        self is Both || self is Tx
    }

    /// Whether the checksum is to be verified when receiving.
    pub open spec fn spec_rx(self) -> bool {
        self is Both || self is Rx
    }

    /// Returns whether the checksum should be computed when sending.
    pub fn tx(&self) -> (r: bool)
        ensures
            r == self.spec_tx(),
    {
        match self {
            Checksum::Both | Checksum::Tx => true,
            _ => false,
        }
    }

    /// Returns whether the checksum should be verified when receiving.
    pub fn rx(&self) -> (r: bool)
        ensures
            r == self.spec_rx(),
    {
        match self {
            Checksum::Both | Checksum::Rx => true,
            _ => false,
        }
    }
}

impl Default for Checksum {
    /// The safe, hardware-independent default: software both computes and
    /// verifies.
    fn default() -> (r: Self)
        ensures
            r is Both,
    {
        Checksum::Both
    }
}

/// Of the four checksum policies, `Both` alone answers true to both `tx`
/// and `rx`, and `Neither` alone answers false to both.
pub proof fn lemma_checksum_variants(c: Checksum)
    ensures
        c.spec_tx() <==> (c is Both || c is Tx),
        c.spec_rx() <==> (c is Both || c is Rx),
        (c.spec_tx() && c.spec_rx()) <==> c is Both,
        (!c.spec_tx() && !c.spec_rx()) <==> c is Neither,
{
}

/// Describe the checksum behaviour for each protocol.
#[derive(Debug, PartialEq, Eq, Hash, Clone, Copy)]
pub struct ChecksumCapabilities {
    pub ipv4: Checksum,
    pub udp: Checksum,
    pub tcp: Checksum,
}

/// Type of a medium device.
#[derive(Debug, PartialEq, Eq, Hash, Clone, Copy)]
pub enum Medium {
    Ethernet,
    Ip,
}

/// Describe a given device's capabilities.
#[derive(Debug, Clone, Copy)]
pub struct DeviceCapabilities {
    /// The device's network medium type.
    ///
    /// Determines packet format and interface behavior. For example,
    /// ARP/NDISC is only performed for [`Medium::Ethernet`].
    pub medium: Medium,
    /// Maximum transmission unit (MTU) in octets.
    ///
    /// The device cannot send/receive frames larger than this.
    pub max_transmission_unit: usize,
    /// Maximum burst size, in MTU units.
    ///
    /// The device cannot send/receive bursts larger than this.
    pub max_burst_size: Option<usize>,
    /// Checksum behaviour.
    pub checksum: ChecksumCapabilities,
}

impl DeviceCapabilities {
    /// A descriptor is well formed when the MTU is positive and the burst
    /// limit, where given, is positive.
    pub open spec fn wf(self) -> bool {
        &&& self.max_transmission_unit > 0
        &&& (self.max_burst_size matches Some(b) ==> b > 0)
    }

    /// Whether frames on this device carry link-layer addressing, so that a
    /// consumer must perform neighbor resolution (ARP/NDISC) before sending.
    /// On a bare IP medium that resolution is to be skipped.
    pub fn needs_neighbor_resolution(&self) -> (r: bool)
        ensures
            r == (self.medium is Ethernet),
    {
        match self.medium {
            Medium::Ethernet => true,
            Medium::Ip => false,
        }
    }
}

/// A single received frame, pending consumption.
pub trait RxToken: Sized {
    /// The bytes of the received frame.
    spec fn frame(&self) -> Seq<u8>;

    /// Consumes the token, yielding the frame's bytes. The token is taken by
    /// value, so a second consumption is impossible: the receive buffer is
    /// released exactly once.
    fn consume(self) -> (r: Vec<u8>)
        ensures
            r@ == self.frame(),
    ;
}

/// Permission, and the buffer, to transmit one frame.
pub trait TxToken: Sized {
    /// The largest frame the token will carry, in octets.
    spec fn capacity(&self) -> int;

    /// Consumes the token, sending the given bytes as one frame. The token
    /// is taken by value, so a second consumption is impossible: the frame
    /// is sent exactly once.
    fn consume(self, frame: &[u8])
        requires
            frame@.len() <= self.capacity(),
    ;
}

/// Interface for sending and receiving raw frames. A driving loop polls a
/// device once per iteration; no call blocks, and unavailability is an
/// ordinary answer, not an error.
pub trait Device: Sized {
    type RxToken: RxToken;

    type TxToken: TxToken;

    /// Whether a received frame is pending, together with the transmit slot
    /// for its reply.
    spec fn can_receive(&self) -> bool;

    /// Whether the transmit path has capacity for one more frame.
    spec fn can_transmit(&self) -> bool;

    /// The frame the next successful `receive` will yield.
    spec fn next_frame(&self) -> Seq<u8>;

    /// Whether the device knows its own static descriptor.
    spec fn has_capabilities(&self) -> bool;

    /// Non-blocking poll: a receive token paired with the transmit token
    /// for its reply when a frame is pending, and nothing otherwise.
    fn receive(&mut self, timestamp: Instant) -> (r: Option<(Self::RxToken, Self::TxToken)>)
        ensures
            r is Some <==> old(self).can_receive(),
            r matches Some((rx, tx)) ==> rx.frame() == old(self).next_frame(),
    ;

    /// Non-blocking poll for transmit capacity: nothing when the transmit
    /// path is saturated.
    fn transmit(&mut self, timestamp: Instant) -> (r: Option<Self::TxToken>)
        ensures
            r is Some <==> old(self).can_transmit(),
    ;

    /// The device's static descriptor, where known. Callers must tolerate
    /// absence by falling back to conservative defaults. A returned
    /// descriptor is always well formed.
    fn capabilities(&self) -> (r: Option<DeviceCapabilities>)
        ensures
            r is Some <==> self.has_capabilities(),
            r matches Some(c) ==> c.wf(),
    ;
}

/// A received frame held as owned bytes.
pub struct StubRxToken {
    bytes: Vec<u8>,
}

impl RxToken for StubRxToken {
    closed spec fn frame(&self) -> Seq<u8> {
        self.bytes@
    }

    fn consume(self) -> (r: Vec<u8>) {
        self.bytes
    }
}

/// A transmit slot of a [`StubDevice`]; the frame it carries goes nowhere.
pub struct StubTxToken {
    max_len: usize,
}

impl TxToken for StubTxToken {
    closed spec fn capacity(&self) -> int {
        self.max_len as int
    }

    fn consume(self, _frame: &[u8]) {
    }
}

/// An in-memory device: it yields frames from a pre-loaded queue and accepts
/// up to a fixed number of transmissions, whose bytes it discards. It stands
/// in for real hardware under a driving loop.
pub struct StubDevice {
    frames: Vec<Vec<u8>>,
    tx_slots: usize,
    caps: DeviceCapabilities,
}

impl StubDevice {
    /// The frames still waiting to be received, in arrival order.
    pub closed spec fn pending(&self) -> Seq<Seq<u8>> {
        self.frames@.map_values(|f: Vec<u8>| f@)
    }

    /// How many transmissions the device will still accept.
    pub closed spec fn slots(&self) -> int {
        self.tx_slots as int
    }

    /// The device's static descriptor.
    pub closed spec fn descriptor(&self) -> DeviceCapabilities {
        self.caps
    }

    /// A device with the given descriptor, an empty receive queue, and room
    /// for `tx_slots` transmissions.
    pub fn new(caps: DeviceCapabilities, tx_slots: usize) -> (r: Self)
        requires
            caps.wf(),
        ensures
            r.pending() == Seq::<Seq<u8>>::empty(),
            r.slots() == tx_slots,
            r.descriptor() == caps,
    {
        let r = StubDevice { frames: Vec::new(), tx_slots, caps };
        proof {
            assert(r.pending() =~= Seq::<Seq<u8>>::empty());
        }
        r
    }

    /// Queues one frame for a later `receive`.
    pub fn push_frame(&mut self, frame: Vec<u8>)
        ensures
            final(self).pending() == old(self).pending().push(frame@),
            final(self).slots() == old(self).slots(),
            final(self).descriptor() == old(self).descriptor(),
    {
        self.frames.push(frame);
        proof {
            assert(final(self).pending() =~= old(self).pending().push(frame@));
        }
    }
}

impl Device for StubDevice {
    type RxToken = StubRxToken;

    type TxToken = StubTxToken;

    open spec fn can_receive(&self) -> bool {
        self.pending().len() > 0 && self.slots() > 0
    }

    open spec fn can_transmit(&self) -> bool {
        self.slots() > 0
    }

    open spec fn next_frame(&self) -> Seq<u8> {
        self.pending()[0]
    }

    open spec fn has_capabilities(&self) -> bool {
        self.descriptor().wf()
    }

    fn receive(&mut self, _timestamp: Instant) -> (r: Option<(StubRxToken, StubTxToken)>)
        ensures
            old(self).can_receive() ==> final(self).pending() == old(self).pending().drop_first()
                && final(self).slots() == old(self).slots() - 1,
            !old(self).can_receive() ==> *final(self) == *old(self),
            final(self).descriptor() == old(self).descriptor(),
    {
        if self.frames.len() > 0 && self.tx_slots > 0 {
            let bytes = self.frames.remove(0);
            self.tx_slots = self.tx_slots - 1;
            let max_len = self.caps.max_transmission_unit;
            Some((StubRxToken { bytes }, StubTxToken { max_len }))
        } else {
            None
        }
    }

    fn transmit(&mut self, _timestamp: Instant) -> (r: Option<StubTxToken>)
        ensures
            old(self).can_transmit() ==> final(self).slots() == old(self).slots() - 1
                && final(self).pending() == old(self).pending(),
            !old(self).can_transmit() ==> *final(self) == *old(self),
            final(self).descriptor() == old(self).descriptor(),
    {
        if self.tx_slots > 0 {
            self.tx_slots = self.tx_slots - 1;
            let max_len = self.caps.max_transmission_unit;
            Some(StubTxToken { max_len })
        } else {
            None
        }
    }

    fn capabilities(&self) -> (r: Option<DeviceCapabilities>) {
        let burst_ok = match self.caps.max_burst_size {
            Some(b) => b > 0,
            None => true,
        };
        if self.caps.max_transmission_unit > 0 && burst_ok {
            Some(self.caps)
        } else {
            None
        }
    }
}

} // verus!
