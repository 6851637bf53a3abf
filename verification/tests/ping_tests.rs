use chain_monitor::ping::{latency_seconds, PeerId, PeerTracker};

fn peer(b: u8) -> PeerId {
    PeerId { bytes: vec![b; 8] }
}

#[test]
fn established_connections_are_deduplicated() {
    let mut t = PeerTracker::new(30);
    t.connections_established(&vec![peer(1), peer(2), peer(1)]);
    t.connections_established(&vec![peer(2), peer(3)]);
    let peers = t.start_ping_round();
    assert_eq!(peers, vec![peer(1), peer(2), peer(3)]);
}

#[test]
fn latencies_are_recorded_and_looked_up() {
    let mut t = PeerTracker::new(30);
    t.record_latency(peer(1), 250);
    t.record_latency(peer(2), 40);
    assert_eq!(t.get_latency(&peer(1)), Some(250));
    assert_eq!(t.get_latency(&peer(2)), Some(40));
    assert_eq!(t.get_latency(&peer(3)), None);
}

#[test]
fn a_new_measurement_replaces_the_old_one() {
    let mut t = PeerTracker::new(30);
    t.record_latency(peer(1), 250);
    t.record_latency(peer(1), 75);
    assert_eq!(t.get_latency(&peer(1)), Some(75));
}

#[test]
fn a_ping_round_clears_the_previous_latencies() {
    let mut t = PeerTracker::new(30);
    t.connections_established(&vec![peer(1)]);
    t.record_latency(peer(1), 250);
    let peers = t.start_ping_round();
    assert_eq!(peers, vec![peer(1)]);
    assert_eq!(t.get_latency(&peer(1)), None);
}

#[test]
fn dropped_connections_are_forgotten() {
    let mut t = PeerTracker::new(30);
    t.connections_established(&vec![peer(1), peer(2), peer(3)]);
    t.connections_dropped(&vec![peer(2)]);
    let peers = t.start_ping_round();
    assert_eq!(peers, vec![peer(1), peer(3)]);
}

#[test]
fn dropping_an_unknown_peer_changes_nothing() {
    let mut t = PeerTracker::new(30);
    t.connections_established(&vec![peer(1)]);
    t.connections_dropped(&vec![peer(9)]);
    assert_eq!(t.start_ping_round(), vec![peer(1)]);
}

#[test]
fn latency_seconds_is_whole_seconds() {
    assert_eq!(latency_seconds(2500), 2);
    assert_eq!(latency_seconds(999), 0);
    assert_eq!(latency_seconds(1000), 1);
    assert_eq!(latency_seconds(0), 0);
}
