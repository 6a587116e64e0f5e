use netphy::physical::Checksum;
use netphy::physical::ChecksumCapabilities;
use netphy::physical::Device;
use netphy::physical::DeviceCapabilities;
use netphy::physical::Medium;
use netphy::physical::PacketMetadata;
use netphy::physical::RxToken;
use netphy::physical::StubDevice;
use netphy::physical::TxToken;
use netphy::time::Instant;

fn ethernet_caps() -> DeviceCapabilities {
    DeviceCapabilities {
        medium: Medium::Ethernet,
        max_transmission_unit: 1514,
        max_burst_size: None,
        checksum: ChecksumCapabilities {
            ipv4: Checksum::Both,
            udp: Checksum::Both,
            tcp: Checksum::Both,
        },
    }
}

#[test]
fn receive_returns_nothing_without_a_pending_frame() {
    let mut dev = StubDevice::new(ethernet_caps(), 4);
    assert!(dev.receive(Instant::from_secs(0)).is_none());
}

#[test]
fn transmit_returns_nothing_when_saturated() {
    let mut dev = StubDevice::new(ethernet_caps(), 1);
    assert!(dev.transmit(Instant::from_secs(0)).is_some());
    assert!(dev.transmit(Instant::from_secs(0)).is_none());
}

#[test]
fn receive_yields_the_queued_frame() {
    let mut dev = StubDevice::new(ethernet_caps(), 4);
    dev.push_frame(vec![1, 2, 3]);
    dev.push_frame(vec![4, 5]);
    let (rx, tx) = dev.receive(Instant::from_secs(0)).unwrap();
    assert_eq!(rx.consume(), vec![1, 2, 3]);
    tx.consume(&[9, 9]);
    let (rx2, _tx2) = dev.receive(Instant::from_secs(1)).unwrap();
    assert_eq!(rx2.consume(), vec![4, 5]);
    assert!(dev.receive(Instant::from_secs(2)).is_none());
}

#[test]
fn capabilities_report_the_descriptor() {
    let dev = StubDevice::new(ethernet_caps(), 0);
    let caps = dev.capabilities().unwrap();
    assert_eq!(caps.max_transmission_unit, 1514);
    assert_eq!(caps.max_burst_size, None);
    assert!(matches!(caps.medium, Medium::Ethernet));
}

#[test]
fn ip_medium_skips_neighbor_resolution() {
    let mut caps = ethernet_caps();
    assert!(caps.needs_neighbor_resolution());
    caps.medium = Medium::Ip;
    assert!(!caps.needs_neighbor_resolution());
}

#[test]
fn packet_metadata_keeps_its_id() {
    let meta = PacketMetadata { id: 17 };
    assert_eq!(meta.id, 17);
    assert_eq!(meta, PacketMetadata { id: 17 });
}
