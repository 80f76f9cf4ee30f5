use tokio_quicker::address::{IpAddr, SocketAddr};
use tokio_quicker::backend::clients::ClientMap;
use tokio_quicker::backend::manager::{
    after_validation, generate_seed, Action, Discard, Manager,
};
use tokio_quicker::crypto::{seal_token, validate_token};
use tokio_quicker::packet::{MAX_CONN_ID_LEN, PROTOCOL_VERSION};

const SECRET: &[u8] = b"a secret";

fn seed() -> Vec<u8> {
    (0..32).collect()
}

fn manager() -> Manager<u32> {
    Manager::new(seed(), SECRET.to_vec())
}

fn here() -> SocketAddr {
    SocketAddr::new(IpAddr::V4([192, 0, 2, 7]), 5000)
}

fn elsewhere() -> SocketAddr {
    SocketAddr::new(IpAddr::V4([192, 0, 2, 8]), 5000)
}

fn long_packet(first: u8, version: u32, dcid: &[u8], scid: &[u8]) -> Vec<u8> {
    let mut packet = vec![first];
    packet.extend_from_slice(&version.to_be_bytes());
    packet.push(dcid.len() as u8);
    packet.extend_from_slice(dcid);
    packet.push(scid.len() as u8);
    packet.extend_from_slice(scid);
    packet
}

fn initial(version: u32, dcid: &[u8], scid: &[u8], token: &[u8]) -> Vec<u8> {
    let mut packet = long_packet(0xc0, version, dcid, scid);
    packet.extend_from_slice(&(0x4000 | token.len() as u16).to_be_bytes());
    packet.extend_from_slice(token);
    packet.extend_from_slice(&[0; 30]);
    packet
}

const DCID: [u8; 8] = [1, 2, 3, 4, 5, 6, 7, 8];
const SCID: [u8; 5] = [50, 51, 52, 53, 54];

fn retry_packet(m: &Manager<u32>) -> Vec<u8> {
    match m.on_datagram(&here(), &initial(1, &DCID, &SCID, &[])) {
        Action::Reply(packet) => packet,
        other => panic!("{:?}", other),
    }
}

#[test]
fn constants_of_the_protocol() {
    assert_eq!(MAX_CONN_ID_LEN, quiche::MAX_CONN_ID_LEN);
    assert_eq!(PROTOCOL_VERSION, quiche::PROTOCOL_VERSION);
    assert!(quiche::version_is_supported(PROTOCOL_VERSION));
    assert!(!quiche::version_is_supported(2));
}

#[test]
fn seeds_are_random() {
    let a = generate_seed().unwrap();
    let b = generate_seed().unwrap();
    assert_eq!(a.len(), 32);
    assert_ne!(a, b);
}

#[test]
fn derived_id_is_the_front_of_the_mac() {
    assert_eq!(
        manager().derive_id(&DCID),
        vec![
            94, 169, 99, 63, 180, 189, 23, 136, 25, 117, 32, 99, 138, 241, 247, 166, 243, 30, 190,
            10
        ]
    );
}

#[test]
fn unreadable_datagrams_are_dropped() {
    let m = manager();
    for datagram in [&[][..], &[0xc0, 0, 0], &[0x40, 1, 2, 3]] {
        assert!(matches!(
            m.on_datagram(&here(), datagram),
            Action::Discard(Discard::Unreadable(quiche::Error::BufferTooShort))
        ));
    }
    // A connection ID of version 1 that is too long.
    let long = initial(1, &[0; 21], &SCID, &[]);
    assert!(matches!(
        m.on_datagram(&here(), &long),
        Action::Discard(Discard::Unreadable(quiche::Error::InvalidPacket))
    ));
}

#[test]
fn only_initial_packets_open_connections() {
    let m = manager();
    let mut short = vec![0x40];
    short.extend_from_slice(&[9; 40]);
    assert!(matches!(m.on_datagram(&here(), &short), Action::Discard(Discard::NotInitial)));
    let handshake = long_packet(0xe0, 1, &DCID, &SCID);
    assert!(matches!(m.on_datagram(&here(), &handshake), Action::Discard(Discard::NotInitial)));
}

#[test]
fn other_versions_are_negotiated() {
    let m = manager();
    // Another version may have longer connection IDs.
    let packet = initial(0xff00_0020, &[4; 30], &SCID, &[1, 2, 3]);
    match m.on_datagram(&here(), &packet) {
        Action::NegotiateVersion { scid, dcid } => {
            assert_eq!(scid, SCID.to_vec());
            assert_eq!(dcid, vec![4; 30]);
        }
        other => panic!("{:?}", other),
    }
}

#[test]
fn initial_without_token_is_answered_with_retry() {
    let m = manager();
    let packet = retry_packet(&m);
    let derived = m.derive_id(&DCID);
    assert_eq!(packet[..6], [0xf0, 0, 0, 0, 1, 5]);
    assert_eq!(packet[6..11], SCID);
    assert_eq!(packet[11], 20);
    assert_eq!(packet[12..32], derived[..]);
    let token = &packet[32..packet.len() - 16];
    assert_eq!(token.len(), 4 + 8 + 8 + 16 + 8);
    assert_eq!(validate_token(token, &here(), SECRET, Some(60)), Some(DCID.to_vec()));

    let mut expected = vec![0; 1350];
    let len = quiche::retry(
        &quiche::ConnectionId::from_ref(&SCID),
        &quiche::ConnectionId::from_ref(&DCID),
        &quiche::ConnectionId::from_ref(&derived),
        token,
        1,
        &mut expected,
    )
    .unwrap();
    assert_eq!(packet, expected[..len].to_vec());
}

#[test]
fn retry_then_accept_then_forward() {
    let mut m = manager();
    let packet = retry_packet(&m);
    let derived = m.derive_id(&DCID);
    let token = packet[32..packet.len() - 16].to_vec();

    let second = initial(1, &derived, &SCID, &token);
    match m.on_datagram(&here(), &second) {
        Action::Accept { scid, odcid } => {
            assert_eq!(scid, derived);
            assert_eq!(odcid, DCID.to_vec());
            m.register(scid, 77);
        }
        other => panic!("{:?}", other),
    }
    assert_eq!(m.sender(&derived), Some(&77));
    assert_eq!(m.sender(&DCID), None);

    // From now on every packet to this connection ID goes to the connection,
    let mut short = vec![0x40];
    short.extend_from_slice(&derived);
    short.extend_from_slice(&[0; 20]);
    for datagram in [second, short, long_packet(0xe0, 7, &derived, &SCID)] {
        match m.on_datagram(&elsewhere(), &datagram) {
            Action::Forward(id) => assert_eq!(id, derived),
            other => panic!("{:?}", other),
        }
    }
    // and so does the client's first packet, should it come again.
    match m.on_datagram(&here(), &initial(1, &DCID, &SCID, &[])) {
        Action::Forward(id) => assert_eq!(id, derived),
        other => panic!("{:?}", other),
    }
}

#[test]
fn token_of_another_address_is_refused() {
    let m = manager();
    let packet = retry_packet(&m);
    let token = packet[32..packet.len() - 16].to_vec();
    let second = initial(1, &m.derive_id(&DCID), &SCID, &token);
    assert!(matches!(
        m.on_datagram(&elsewhere(), &second),
        Action::Discard(Discard::InvalidToken)
    ));
}

#[test]
fn destination_of_another_length_is_refused() {
    let m = manager();
    let packet = retry_packet(&m);
    let token = packet[32..packet.len() - 16].to_vec();
    assert!(matches!(
        m.on_datagram(&here(), &initial(1, &DCID, &SCID, &token)),
        Action::Discard(Discard::InvalidDestination)
    ));
    // The token is looked at first.
    assert!(matches!(
        m.on_datagram(&elsewhere(), &initial(1, &DCID, &SCID, &token)),
        Action::Discard(Discard::InvalidToken)
    ));
}

#[test]
fn tokens_that_were_not_minted_here_are_refused() {
    let m = manager();
    let refused = |token: &[u8]| {
        matches!(
            m.on_datagram(&here(), &initial(1, &[6; 20], &SCID, token)),
            Action::Discard(Discard::InvalidToken)
        )
    };
    // Too short for a tag and random bytes, and too short for a timestamp.
    assert!(refused(&[1, 2, 3]));
    assert!(refused(&[0; 35]));
    // Without encryption.
    let mut plain = vec![192, 0, 2, 7, 0, 0, 0, 0, 0, 0, 0, 0, 1, 2, 3];
    plain.extend_from_slice(&[0; 24]);
    assert!(refused(&plain));
    // Under another secret, and from a second that no calendar knows.
    assert!(refused(&seal_token(&DCID, &here(), b"another secret", 1000, &[0; 8])));
    assert!(refused(&seal_token(&DCID, &here(), SECRET, i64::MIN, &[0; 8])));
    // The listener's own.
    assert!(!refused(&seal_token(&DCID, &here(), SECRET, 1000, &[0; 8])));
}

#[test]
fn verdicts_lead_to_actions() {
    assert!(matches!(
        after_validation(&[0; 20], None),
        Action::Discard(Discard::InvalidToken)
    ));
    assert!(matches!(
        after_validation(&[0; 19], Some(vec![1])),
        Action::Discard(Discard::InvalidDestination)
    ));
    match after_validation(&[3; 20], Some(vec![1])) {
        Action::Accept { scid, odcid } => {
            assert_eq!(scid, vec![3; 20]);
            assert_eq!(odcid, vec![1]);
        }
        other => panic!("{:?}", other),
    }
}

#[test]
fn client_map_keeps_the_last_entry() {
    let mut map = ClientMap::new();
    assert!(!map.contains_key(&[]));
    map.insert(vec![1, 2], 'a');
    map.insert(vec![1], 'b');
    map.insert(vec![], 'c');
    map.insert(vec![1, 2], 'd');
    assert_eq!(map.get(&[1, 2]), Some(&'d'));
    assert_eq!(map.get(&[1]), Some(&'b'));
    assert_eq!(map.get(&[]), Some(&'c'));
    assert_eq!(map.get(&[2]), None);
    assert!(map.contains_key(&[1, 2]));
}
