use tokio_quicker::address::{IpAddr, SocketAddr};
use tokio_quicker::clock::Timestamp;
use tokio_quicker::crypto::{
    check_token, ip_to_octets, mint_token, open_token, seal_token, validate_token,
};

const DCID: [u8; 16] = [
    6, 114, 85, 25, 219, 159, 94, 178, 209, 240, 238, 52, 117, 222, 236, 117,
];

const SECRET: [u8; 16] = [
    193, 225, 35, 100, 179, 123, 28, 109, 213, 167, 40, 242, 57, 91, 85, 30,
];

const TOKEN: [u8; 52] = [
    115, 35, 157, 90, 216, 123, 207, 22, 84, 203, 149, 220, 123, 81, 54, 156, 226, 47, 232, 79, 22,
    177, 112, 222, 89, 251, 74, 199, 205, 192, 37, 164, 237, 24, 118, 220, 146, 175, 166, 95, 226,
    187, 170, 187, 136, 44, 61, 186, 78, 4, 121, 231,
];

fn local() -> SocketAddr {
    SocketAddr::new(IpAddr::V4([127, 0, 0, 1]), 42267)
}

fn v6() -> SocketAddr {
    SocketAddr::new(
        IpAddr::V6([0x20, 1, 13, 184, 0, 0, 0, 0, 0, 0, 0, 0, 0, 0, 0, 1]),
        443,
    )
}

#[test]
fn validate_token_test() {
    let connection_id: &[u8] = &[
        6, 114, 85, 25, 219, 159, 94, 178, 209, 240, 238, 52, 117, 222, 236, 117,
    ];
    let token: &[u8] = &[
        115, 35, 157, 90, 216, 123, 207, 22, 84, 203, 149, 220, 123, 81, 54, 156, 226, 47, 232, 79,
        22, 177, 112, 222, 89, 251, 74, 199, 205, 192, 37, 164, 237, 24, 118, 220, 146, 175, 166,
        95, 226, 187, 170, 187, 136, 44, 61, 186, 78, 4, 121, 231,
    ];
    let secret: &[u8] = &[
        193, 225, 35, 100, 179, 123, 28, 109, 213, 167, 40, 242, 57, 91, 85, 30,
    ];
    let socket_addr = SocketAddr::new(IpAddr::V4([127, 0, 0, 1]), 42267);

    assert_eq!(
        validate_token(&token.to_vec(), &socket_addr, secret, None),
        Some(connection_id.to_vec())
    );
}

#[test]
fn mint_token_test() {
    let connection_id: &[u8] = &[
        6, 114, 85, 25, 219, 159, 94, 178, 209, 240, 238, 52, 117, 222, 236, 117,
    ];
    let secret: &[u8] = &[
        193, 225, 35, 100, 179, 123, 28, 109, 213, 167, 40, 242, 57, 91, 85, 30,
    ];
    let socket_addr = SocketAddr::new(IpAddr::V4([127, 0, 0, 1]), 42267);

    let token = mint_token(connection_id, &socket_addr, secret);
    assert_eq!(
        validate_token(&token, &socket_addr, secret, None),
        Some(connection_id.to_vec())
    )
}

#[test]
fn octets_of_both_families() {
    assert_eq!(ip_to_octets(&IpAddr::V4([10, 0, 7, 255])), vec![10, 0, 7, 255]);
    assert_eq!(ip_to_octets(&v6().ip).len(), 16);
    assert_eq!(ip_to_octets(&v6().ip)[..4], [0x20, 1, 13, 184]);
}

#[test]
fn known_token_opens_to_its_contents() {
    let opened = open_token(&TOKEN, &SECRET).unwrap();
    assert_eq!(opened.len(), 28);
    assert_eq!(opened[..4], [127, 0, 0, 1]);
    assert_eq!(opened[12..], DCID);
    assert_ne!(opened[..], TOKEN[..28]);
}

#[test]
fn sealing_the_opened_contents_gives_the_known_token() {
    let opened = open_token(&TOKEN, &SECRET).unwrap();
    let mut seconds = [0u8; 8];
    seconds.copy_from_slice(&opened[4..12]);
    let token = seal_token(&DCID, &local(), &SECRET, i64::from_be_bytes(seconds), &TOKEN[44..]);
    assert_eq!(token, TOKEN.to_vec());
}

#[test]
fn sealed_token_opens_to_octets_timestamp_and_id() {
    let token = seal_token(&[9, 8, 7], &v6(), b"key", -2, &[1, 2, 3, 4, 5, 6, 7, 8]);
    assert_eq!(token.len(), 16 + 8 + 3 + 16 + 8);
    assert_eq!(token[43..], [1, 2, 3, 4, 5, 6, 7, 8]);
    let opened = open_token(&token, b"key").unwrap();
    assert_eq!(opened[..16], ip_to_octets(&v6().ip)[..]);
    assert_eq!(opened[16..24], [255, 255, 255, 255, 255, 255, 255, 254]);
    assert_eq!(opened[24..], [9, 8, 7]);
}

#[test]
fn two_tokens_for_one_client_differ() {
    let a = mint_token(&DCID, &local(), &SECRET);
    let b = mint_token(&DCID, &local(), &SECRET);
    assert_eq!(a.len(), 52);
    assert_ne!(a[44..], b[44..]);
}

#[test]
fn port_does_not_matter_but_address_does() {
    let token = mint_token(&DCID, &local(), &SECRET);
    let other_port = SocketAddr::new(IpAddr::V4([127, 0, 0, 1]), 1);
    let other_host = SocketAddr::new(IpAddr::V4([127, 0, 0, 2]), 42267);
    assert_eq!(validate_token(&token, &other_port, &SECRET, None), Some(DCID.to_vec()));
    assert_eq!(validate_token(&token, &other_host, &SECRET, None), None);
}

#[test]
fn scope_and_flow_do_not_matter() {
    let token = mint_token(&DCID, &v6(), &SECRET);
    assert_eq!((v6().flowinfo, v6().scope_id), (0, 0));
    let scoped = SocketAddr { flowinfo: 3, scope_id: 2, ..v6() };
    assert_eq!(validate_token(&token, &scoped, &SECRET, None), Some(DCID.to_vec()));
}

#[test]
fn token_of_an_hour_ago_expires() {
    let now = mint_token(&DCID, &local(), &SECRET);
    assert_eq!(validate_token(&now, &local(), &SECRET, Some(3600)), Some(DCID.to_vec()));
    assert_eq!(validate_token(&TOKEN, &local(), &SECRET, Some(3600)), None);
    assert_eq!(validate_token(&TOKEN, &local(), &SECRET, Some(i64::MAX)), Some(DCID.to_vec()));
}

fn contents(seconds: i64) -> Vec<u8> {
    let mut opened = vec![127, 0, 0, 1];
    opened.extend_from_slice(&seconds.to_be_bytes());
    opened.extend_from_slice(&DCID);
    opened
}

fn accepted(minted_at: i64, seconds: i64, nanos: u32, expiration: Option<i64>) -> bool {
    check_token(&contents(minted_at), &local(), Timestamp { seconds, nanos }, expiration)
        == Some(DCID.to_vec())
}

#[test]
fn age_is_counted_in_whole_seconds() {
    assert!(accepted(100, 110, 0, Some(10)));
    assert!(accepted(100, 110, 999_999_999, Some(10)));
    assert!(!accepted(100, 111, 0, Some(10)));
    assert!(accepted(100, 100, 0, Some(0)));
    assert!(!accepted(100, 100, 0, Some(-1)));
}

#[test]
fn age_of_a_token_from_the_future_is_rounded_towards_zero() {
    // Half a second ahead counts as no age at all.
    assert!(accepted(101, 100, 500_000_000, Some(0)));
    assert!(!accepted(101, 100, 500_000_000, Some(-1)));
    assert!(accepted(101, 100, 0, Some(-1)));
    assert!(accepted(103, 100, 500_000_000, Some(-2)));
    assert!(!accepted(103, 100, 500_000_000, Some(-3)));
}

#[test]
fn without_expiration_age_does_not_matter() {
    assert!(accepted(-8_334_601_228_800, 8_210_266_876_799, 999_999_999, None));
    assert!(accepted(8_210_266_876_799, -8_334_601_228_800, 0, None));
}

#[test]
fn body_without_a_timestamp_is_refused() {
    let now = Timestamp { seconds: 100, nanos: 0 };
    assert_eq!(check_token(&[], &local(), now, None), None);
    assert_eq!(check_token(&contents(50)[..11], &local(), now, None), None);
    assert_eq!(check_token(&contents(50)[..12], &local(), now, None), Some(vec![]));
}

#[test]
fn short_token_is_refused() {
    for len in [0, 7, 23, 24, 35, 51] {
        assert_eq!(validate_token(&TOKEN[..len], &local(), &SECRET, None), None);
    }
    assert_eq!(open_token(&TOKEN[..23], &SECRET), None);
    // Authentic, but too short for the octets of an address and a timestamp.
    let token = seal_token(&[], &local(), &SECRET, 1000, &[7; 8]);
    assert_eq!(validate_token(&token, &local(), &SECRET, None), Some(vec![]));
    assert_eq!(validate_token(&token, &v6(), &SECRET, None), None);
}

#[test]
fn timestamp_beyond_the_calendar_is_refused() {
    let validated = |seconds: i64| {
        let token = seal_token(&DCID, &local(), &SECRET, seconds, &[7; 8]);
        validate_token(&token, &local(), &SECRET, None)
    };
    assert_eq!(validated(8_210_266_876_799), Some(DCID.to_vec()));
    assert_eq!(validated(8_210_266_876_800), None);
    assert_eq!(validated(-8_334_601_228_800), Some(DCID.to_vec()));
    assert_eq!(validated(-8_334_601_228_801), None);
    assert_eq!(validated(i64::MAX), None);
}

#[test]
fn token_that_was_not_encrypted_is_refused() {
    let mut plain = vec![127, 0, 0, 1, 0, 0, 0, 0, 0, 0, 0, 0, 1, 2, 3];
    plain.extend_from_slice(&[0; 24]);
    let src = SocketAddr::new(IpAddr::V4([127, 0, 0, 1]), 1);
    assert_eq!(open_token(&plain, b"s"), None);
    assert_eq!(validate_token(&plain, &src, b"s", None), None);
}

#[test]
fn token_that_was_tampered_with_is_refused() {
    for i in 0..TOKEN.len() {
        let mut token = TOKEN.to_vec();
        token[i] ^= 1;
        assert_eq!(open_token(&token, &SECRET), None);
        assert_eq!(validate_token(&token, &local(), &SECRET, None), None);
    }
}

#[test]
fn token_under_another_secret_is_refused() {
    assert_eq!(open_token(&TOKEN, b"another"), None);
    assert_eq!(validate_token(&TOKEN, &local(), &[0; 16], None), None);
}
