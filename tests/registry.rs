use espc3::tcp_client_manager::{delivery_of, Delivery, IoStatus, PeerAddr, TcpClientManager};

fn peer(a: u8, b: u8, c: u8, d: u8, port: u16) -> PeerAddr {
    PeerAddr { ip: u32::from_be_bytes([a, b, c, d]), port }
}

#[test]
fn count_tracks_adds_and_removes() {
    let mut reg: TcpClientManager<u32> = TcpClientManager::new();
    let a = peer(192, 168, 4, 2, 50000);
    let b = peer(192, 168, 4, 3, 50001);
    assert_eq!(reg.client_count(), 0);
    assert!(reg.add_client(a, 1));
    assert!(!reg.add_client(a, 2));
    assert_eq!(reg.client_count(), 1);
    assert!(reg.add_client(b, 3));
    assert_eq!(reg.client_count(), 2);
    assert!(reg.remove_client(&a));
    assert!(!reg.remove_client(&a));
    assert_eq!(reg.client_count(), 1);
    assert!(!reg.is_client_connected(&a));
    assert!(reg.is_client_connected(&b));
    assert!(reg.remove_client(&b));
    assert!(!reg.remove_client(&b));
    assert_eq!(reg.client_count(), 0);
}

#[test]
fn same_ip_other_port_is_another_client() {
    let mut reg: TcpClientManager<u32> = TcpClientManager::new();
    reg.add_client(peer(10, 0, 0, 1, 1), 1);
    reg.add_client(peer(10, 0, 0, 1, 2), 2);
    assert_eq!(reg.client_count(), 2);
}

#[test]
fn key_round_trip() {
    let a = peer(255, 255, 255, 255, 65535);
    assert_eq!(PeerAddr::from_key(a.key()), a);
    let b = peer(192, 168, 4, 1, 8080);
    assert_eq!(b.key(), 0xC0A8_0401 * 65536 + 8080);
    assert_eq!(PeerAddr::from_key(b.key()), b);
}

#[test]
fn broadcast_on_empty_registry_reaches_nobody() {
    let mut reg: TcpClientManager<u32> = TcpClientManager::new();
    let targets = reg.broadcast_targets(b"hello");
    assert!(targets.is_empty());
    assert_eq!(reg.finish_broadcast(&[]), 0);
    assert_eq!(reg.client_count(), 0);
}

#[test]
fn empty_frame_has_no_targets() {
    let mut reg: TcpClientManager<u32> = TcpClientManager::new();
    reg.add_client(peer(192, 168, 4, 2, 1), 7);
    assert!(reg.broadcast_targets(b"").is_empty());
}

#[test]
fn two_clients_receive_same_bytes() {
    let mut reg: TcpClientManager<usize> = TcpClientManager::new();
    let a = peer(192, 168, 4, 2, 40000);
    let b = peer(192, 168, 4, 3, 40001);
    reg.add_client(a, 0);
    reg.add_client(b, 1);
    let frame: Vec<u8> = (0u8..=99).collect();
    let mut sinks: Vec<Vec<u8>> = vec![Vec::new(), Vec::new()];
    let targets = reg.broadcast_targets(&frame);
    assert_eq!(targets.len(), 2);
    let mut outcomes = Vec::new();
    for (addr, handle) in targets {
        sinks[handle].extend_from_slice(&frame);
        outcomes.push((addr, delivery_of(IoStatus::Done, IoStatus::Done)));
    }
    assert_eq!(reg.finish_broadcast(&outcomes), 2);
    assert_eq!(sinks[0], frame);
    assert_eq!(sinks[1], frame);
    assert_eq!(reg.client_count(), 2);
}

#[test]
fn broken_client_is_evicted_others_still_served() {
    let mut reg: TcpClientManager<u32> = TcpClientManager::new();
    let a = peer(192, 168, 4, 2, 1);
    let b = peer(192, 168, 4, 3, 2);
    let c = peer(192, 168, 4, 4, 3);
    reg.add_client(a, 0);
    reg.add_client(b, 1);
    reg.add_client(c, 2);
    let outcomes = vec![
        (a, delivery_of(IoStatus::Failed, IoStatus::Done)),
        (b, delivery_of(IoStatus::Done, IoStatus::Done)),
        (c, delivery_of(IoStatus::Transient, IoStatus::Done)),
    ];
    assert_eq!(reg.finish_broadcast(&outcomes), 1);
    assert!(!reg.is_client_connected(&a));
    assert!(reg.is_client_connected(&b));
    assert!(reg.is_client_connected(&c));
    assert_eq!(reg.client_count(), 2);
}

#[test]
fn delivery_rules() {
    assert_eq!(delivery_of(IoStatus::Done, IoStatus::Done), Delivery::Delivered);
    assert_eq!(delivery_of(IoStatus::Done, IoStatus::Transient), Delivery::Delivered);
    assert_eq!(delivery_of(IoStatus::Done, IoStatus::Failed), Delivery::Disconnected);
    assert_eq!(delivery_of(IoStatus::Transient, IoStatus::Done), Delivery::Dropped);
    assert_eq!(delivery_of(IoStatus::Failed, IoStatus::Done), Delivery::Disconnected);
}
