//! Address validation tokens.
//!
//! A token holds the octets of the address it was minted for, the second it was minted in and the
//! destination connection ID of the client's first packet. It is minted in four steps:
//!
//! 1. join the octets, the timestamp in seconds and the connection ID;
//! 2. draw random bytes;
//! 3. encrypt what step 1 gave with a key that is derived from those bytes and the server's secret;
//! 4. append the tag and the random bytes.
//!
//! Validating a token does these steps in reverse. A token whose tag does not authenticate what it
//! holds under the server's secret is refused.
use crate::address::{IpAddr, SocketAddr};
use crate::bytes::{copy, push_all, push_i64_be, read_i64_be, same_bytes};
use crate::clock::{is_representable, utc_now, whole_seconds_since, Timestamp};
use crate::random::random_bytes;
use crypto::aead::{AeadDecryptor, AeadEncryptor};
use crypto::chacha20poly1305::ChaCha20Poly1305;
use crypto::sha2::Sha256;
use vstd::prelude::*;
use vstd::slice::{slice_subrange, slice_to_vec};

verus! {

/// The random bytes at the end of a token; they are the salt of its key and its nonce.
pub const RANDOM_LEN: usize = 8;

/// The authentication tag before them.
pub const TAG_LEN: usize = 16;

/// The timestamp of a token.
pub const TIMESTAMP_LEN: usize = 8;

/// The bytes that the hash function can take in one message, less the block of its key.
pub open spec fn hash_limit() -> int {
    0x1fff_ffff_ffff_ffc0
}

/// The bytes that the cipher can process under one nonce.
pub open spec fn cipher_limit() -> int {
    0x3f_ffff_ff80
}

/// What `crypto::hkdf::hkdf_extract` gives with SHA-256.
pub uninterp spec fn hkdf_sha256_extract(salt: Seq<u8>, ikm: Seq<u8>) -> Seq<u8>;

/// The ciphertext and the tag that `ChaCha20Poly1305::encrypt` gives, without associated data.
pub uninterp spec fn chacha20_poly1305_seal(
    key: Seq<u8>,
    nonce: Seq<u8>,
    plaintext: Seq<u8>,
) -> (Seq<u8>, Seq<u8>);

/// The plaintext that `ChaCha20Poly1305::decrypt` gives, without associated data; `None` where the
/// tag is not that of the ciphertext.
pub uninterp spec fn chacha20_poly1305_open(
    key: Seq<u8>,
    nonce: Seq<u8>,
    ciphertext: Seq<u8>,
    tag: Seq<u8>,
) -> Option<Seq<u8>>;

/// `crypto::hkdf::hkdf_extract` with `crypto::sha2::Sha256`: the 32 bytes that
/// [`hkdf_sha256_extract`] names. The hash function gives up on messages beyond [`hash_limit`].
#[verifier::external_body]
fn hkdf_extract(salt: &[u8], ikm: &[u8]) -> (prk: Vec<u8>)
    requires
        salt@.len() < hash_limit(),
        ikm@.len() < hash_limit(),
    ensures
        prk@ == hkdf_sha256_extract(salt@, ikm@),
        prk@.len() == 32,
{
    let mut prk = vec![0u8; 32];
    crypto::hkdf::hkdf_extract(Sha256::new(), salt, ikm, &mut prk);
    prk
}

/// `ChaCha20Poly1305::encrypt`, without associated data: the ciphertext and the tag that
/// [`chacha20_poly1305_seal`] names. The ciphertext is as long as the plaintext, and decrypting
/// it under the same key and nonce, with this tag, gives the plaintext back.
#[verifier::external_body]
fn encrypt(key: &[u8], nonce: &[u8], plaintext: &[u8]) -> (sealed: (Vec<u8>, Vec<u8>))
    requires
        key@.len() == 32,
        nonce@.len() == RANDOM_LEN,
        plaintext@.len() <= cipher_limit(),
    ensures
        (sealed.0@, sealed.1@) == chacha20_poly1305_seal(key@, nonce@, plaintext@),
        sealed.0@.len() == plaintext@.len(),
        sealed.1@.len() == TAG_LEN,
        chacha20_poly1305_open(key@, nonce@, sealed.0@, sealed.1@) == Some(plaintext@),
{
    let mut ciphertext = plaintext.to_vec();
    let mut tag = vec![0u8; 16];
    ChaCha20Poly1305::new(key, nonce, &[]).encrypt(plaintext, &mut ciphertext, &mut tag);
    (ciphertext, tag)
}

/// `ChaCha20Poly1305::decrypt`, without associated data: whether [`chacha20_poly1305_open`] names a
/// plaintext. If it does, the plaintext is written to `output`, and encrypting it under the same
/// key and nonce gives this ciphertext and this tag; if not, `output` stays as it is.
#[verifier::external_body]
fn decrypt(key: &[u8], nonce: &[u8], ciphertext: &[u8], output: &mut Vec<u8>, tag: &[u8]) -> (r: bool)
    requires
        key@.len() == 32,
        nonce@.len() == RANDOM_LEN,
        ciphertext@.len() <= cipher_limit(),
        old(output)@.len() == ciphertext@.len(),
    ensures
        final(output)@.len() == ciphertext@.len(),
        match chacha20_poly1305_open(key@, nonce@, ciphertext@, tag@) {
            Some(plaintext) => {
                &&& r
                &&& final(output)@ == plaintext
                &&& chacha20_poly1305_seal(key@, nonce@, plaintext) == (ciphertext@, tag@)
            },
            None => !r && final(output)@ == old(output)@,
        },
{
    ChaCha20Poly1305::new(key, nonce, &[]).decrypt(ciphertext, output, tag)
}

/// What a token holds: the octets of the address, the second it was minted in, and the connection
/// ID.
pub open spec fn token_body(ip: IpAddr, minted_at: i64, dcid: Seq<u8>) -> Seq<u8> {
    ip.octets() + crate::bytes::i64_be_bytes(minted_at) + dcid
}

/// The token that holds a body under a secret: the ciphertext, the tag and the random bytes.
pub open spec fn sealed_body(body: Seq<u8>, secret: Seq<u8>, random: Seq<u8>) -> Seq<u8> {
    let sealed = chacha20_poly1305_seal(hkdf_sha256_extract(random, secret), random, body);
    sealed.0 + sealed.1 + random
}

/// The token for these contents under a secret.
pub open spec fn sealed_token(
    ip: IpAddr,
    minted_at: i64,
    dcid: Seq<u8>,
    secret: Seq<u8>,
    random: Seq<u8>,
) -> Seq<u8> {
    sealed_body(token_body(ip, minted_at, dcid), secret, random)
}

/// The random bytes of a token.
pub open spec fn random_of(token: Seq<u8>) -> Seq<u8> {
    token.subrange(token.len() - RANDOM_LEN, token.len() as int)
}

/// The tag of a token.
pub open spec fn tag_of(token: Seq<u8>) -> Seq<u8> {
    token.subrange(token.len() - RANDOM_LEN - TAG_LEN, token.len() - RANDOM_LEN)
}

/// The ciphertext of a token.
pub open spec fn ciphertext_of(token: Seq<u8>) -> Seq<u8> {
    token.subrange(0, token.len() - RANDOM_LEN - TAG_LEN)
}

/// What a token holds under a secret: `None` where it is too short to hold anything, or where its
/// tag is not that of its ciphertext.
pub open spec fn opened_token(token: Seq<u8>, secret: Seq<u8>) -> Option<Seq<u8>> {
    if token.len() < TAG_LEN + RANDOM_LEN {
        None
    } else {
        chacha20_poly1305_open(
            hkdf_sha256_extract(random_of(token), secret),
            random_of(token),
            ciphertext_of(token),
            tag_of(token),
        )
    }
}

/// The second that stands behind the octets of the address.
pub open spec fn stamped_second(body: Seq<u8>, ip: IpAddr) -> int {
    let n = ip.octets().len() as int;
    crate::bytes::i64_from_be_bytes(body.subrange(n, n + TIMESTAMP_LEN))
}

/// Whether the body of a token starts with the octets of the address, and goes on with a timestamp
/// for which there is a calendar date.
pub open spec fn belongs_to(body: Seq<u8>, ip: IpAddr) -> bool {
    let n = ip.octets().len() as int;
    &&& body.len() >= n + TIMESTAMP_LEN
    &&& body.subrange(0, n) == ip.octets()
    &&& crate::clock::representable(stamped_second(body, ip))
}

/// The connection ID behind the octets of the address and the timestamp.
pub open spec fn held_id(body: Seq<u8>, ip: IpAddr) -> Seq<u8> {
    body.subrange(ip.octets().len() + TIMESTAMP_LEN, body.len() as int)
}

/// The age beyond which a token is refused.
pub open spec fn oldest_age(expiration: Option<i64>) -> int {
    match expiration {
        Some(seconds) => seconds as int,
        None => i64::MAX as int,
    }
}

/// The connection ID in the body of a token, for an address at a moment: `None` unless the token
/// was minted for this address and is not too old.
pub open spec fn body_verdict(
    body: Seq<u8>,
    ip: IpAddr,
    now: Timestamp,
    expiration: Option<i64>,
) -> Option<Seq<u8>> {
    if belongs_to(body, ip) && crate::clock::seconds_since(now, stamped_second(body, ip))
        <= oldest_age(expiration) {
        Some(held_id(body, ip))
    } else {
        None
    }
}

/// The connection ID in a token that is validated for an address at a moment: `None` unless the
/// token authenticates under the secret, was minted for this address and is not too old.
pub open spec fn token_verdict(
    token: Seq<u8>,
    secret: Seq<u8>,
    ip: IpAddr,
    now: Timestamp,
    expiration: Option<i64>,
) -> Option<Seq<u8>> {
    match opened_token(token, secret) {
        Some(body) => body_verdict(body, ip, now, expiration),
        None => None,
    }
}

/// The verdict on a token that never gets too old.
pub open spec fn ageless_verdict(token: Seq<u8>, secret: Seq<u8>, ip: IpAddr) -> Option<Seq<u8>> {
    match opened_token(token, secret) {
        Some(body) => if belongs_to(body, ip) {
            Some(held_id(body, ip))
        } else {
            None
        },
        None => None,
    }
}

/// A byte string as a sequence, where there is one.
pub open spec fn bytes_of(bytes: Option<Vec<u8>>) -> Option<Seq<u8>> {
    match bytes {
        Some(bytes) => Some(bytes@),
        None => None,
    }
}

/// A token minted at `minted_at` with these random bytes: it has the form of [`sealed_token`], and
/// what is read from it is what was put in.
pub open spec fn minted(
    token: Seq<u8>,
    ip: IpAddr,
    minted_at: i64,
    dcid: Seq<u8>,
    secret: Seq<u8>,
    random: Seq<u8>,
) -> bool {
    &&& random.len() == RANDOM_LEN
    &&& crate::clock::representable(minted_at as int)
    &&& token == sealed_token(ip, minted_at, dcid, secret, random)
    &&& token.len() == ip.octets().len() + dcid.len() + TIMESTAMP_LEN + TAG_LEN + RANDOM_LEN
    &&& opened_token(token, secret) == Some(token_body(ip, minted_at, dcid))
}

/// Whether a token is one that is minted under the secret for this address and this connection ID,
/// at some second and with some random bytes.
pub open spec fn genuine(token: Seq<u8>, ip: IpAddr, dcid: Seq<u8>, secret: Seq<u8>) -> bool {
    exists|minted_at: i64, random: Seq<u8>| #[trigger]
        minted(token, ip, minted_at, dcid, secret, random)
}

/// What minting a token comes to: it is minted at a second that the clock shows, with random bytes
/// that are drawn for it.
pub open spec fn minting_outcome(
    token: Seq<u8>,
    ip: IpAddr,
    dcid: Seq<u8>,
    secret: Seq<u8>,
) -> bool {
    exists|now: Timestamp, random: Seq<u8>|
        {
            &&& #[trigger] crate::clock::can_show(now)
            &&& #[trigger] crate::random::can_draw(random)
            &&& minted(token, ip, now.seconds, dcid, secret, random)
        }
}

/// What validating a token comes to: the verdict at a moment that the clock shows.
pub open spec fn validation_outcome(
    token: Seq<u8>,
    secret: Seq<u8>,
    ip: IpAddr,
    expiration: Option<i64>,
    id: Option<Seq<u8>>,
) -> bool {
    exists|now: Timestamp|
        crate::clock::can_show(now) && now.valid() && id == #[trigger] token_verdict(
            token,
            secret,
            ip,
            now,
            expiration,
        )
}

/// The octets of an address.
pub fn ip_to_octets(ip: &IpAddr) -> (octets: Vec<u8>)
    ensures
        octets@ == ip.octets(),
{
    match ip {
        IpAddr::V4(octets) => slice_to_vec(octets.as_slice()),
        IpAddr::V6(octets) => slice_to_vec(octets.as_slice()),
    }
}

/// The token for a connection ID and an address, minted at the given second with the given random
/// bytes.
pub fn seal_token(
    dcid: &[u8],
    src: &SocketAddr,
    token_secret: &[u8],
    minted_at: i64,
    random: &[u8],
) -> (token: Vec<u8>)
    requires
        random@.len() == RANDOM_LEN,
        token_secret@.len() < hash_limit(),
        src.ip.octets().len() + TIMESTAMP_LEN + dcid@.len() <= cipher_limit(),
    ensures
        token@ == sealed_token(src.ip, minted_at, dcid@, token_secret@, random@),
        token@.len() == src.ip.octets().len() + dcid@.len() + TIMESTAMP_LEN + TAG_LEN + RANDOM_LEN,
        opened_token(token@, token_secret@) == Some(token_body(src.ip, minted_at, dcid@)),
{
    let mut body = ip_to_octets(&src.ip);
    push_i64_be(&mut body, minted_at);
    push_all(&mut body, dcid);
    let secret = hkdf_extract(random, token_secret);
    let (encrypted, tag) = encrypt(secret.as_slice(), random, body.as_slice());
    let mut token = encrypted;
    push_all(&mut token, tag.as_slice());
    push_all(&mut token, random);
    proof {
        assert(random_of(token@) =~= random@);
        assert(tag_of(token@) =~= tag@);
        assert(ciphertext_of(token@) =~= encrypted@);
        crate::bytes::lemma_i64_be_round_trip(minted_at);
    }
    token
}

/// Mints a token for a connection ID and an address: one minted at the present second with fresh
/// random bytes.
pub fn mint_token(dcid: &[u8], src: &SocketAddr, token_secret: &[u8]) -> (token: Vec<u8>)
    requires
        token_secret@.len() < hash_limit(),
        src.ip.octets().len() + TIMESTAMP_LEN + dcid@.len() <= cipher_limit(),
    ensures
        genuine(token@, src.ip, dcid@, token_secret@),
        minting_outcome(token@, src.ip, dcid@, token_secret@),
        exists|now: Timestamp, random: Seq<u8>|
            {
                &&& #[trigger] crate::clock::can_show(now)
                &&& #[trigger] crate::random::can_draw(random)
                &&& minted(token@, src.ip, now.seconds, dcid@, token_secret@, random)
            },
{
    let now = utc_now();
    let instant: i64 = now.seconds;
    let random = random_bytes(RANDOM_LEN);
    let token = seal_token(dcid, src, token_secret, instant, random.as_slice());
    assert(minted(token@, src.ip, instant, dcid@, token_secret@, random@));
    assert(crate::clock::can_show(now) && crate::random::can_draw(random@));
    token
}

proof fn lemma_parts_make_token(token: Seq<u8>)
    requires
        token.len() >= TAG_LEN + RANDOM_LEN,
    ensures
        token == ciphertext_of(token) + tag_of(token) + random_of(token),
{
    assert(token =~= ciphertext_of(token) + tag_of(token) + random_of(token));
}

/// Reads a token under a secret: what it holds, if its tag authenticates it. Then sealing what it
/// holds under the same secret, with the same random bytes, gives the token.
pub fn open_token(token: &[u8], token_secret: &[u8]) -> (opened: Option<Vec<u8>>)
    requires
        token@.len() <= cipher_limit() + TAG_LEN + RANDOM_LEN,
        token_secret@.len() < hash_limit(),
    ensures
        bytes_of(opened) == opened_token(token@, token_secret@),
        opened matches Some(body) ==> {
            &&& body@.len() == token@.len() - RANDOM_LEN - TAG_LEN
            &&& token@ == sealed_body(body@, token_secret@, random_of(token@))
        },
{
    let n: usize = token.len();
    if n < TAG_LEN + RANDOM_LEN {
        return None;
    }
    let random = slice_subrange(token, n - RANDOM_LEN, n);
    let tag = slice_subrange(token, n - RANDOM_LEN - TAG_LEN, n - RANDOM_LEN);
    let encrypted = slice_subrange(token, 0, n - RANDOM_LEN - TAG_LEN);
    let secret = hkdf_extract(random, token_secret);
    let mut decrypted = copy(encrypted);
    proof {
        lemma_parts_make_token(token@);
    }
    if decrypt(secret.as_slice(), random, encrypted, &mut decrypted, tag) {
        Some(decrypted)
    } else {
        None
    }
}

/// The verdict on the body of a token, for an address at a moment.
pub fn check_token(
    body: &[u8],
    src: &SocketAddr,
    now: Timestamp,
    expiration_duration: Option<i64>,
) -> (dcid: Option<Vec<u8>>)
    requires
        now.valid(),
    ensures
        bytes_of(dcid) == body_verdict(body@, src.ip, now, expiration_duration),
{
    let octets = ip_to_octets(&src.ip);
    let n: usize = octets.len();
    if body.len() < n + TIMESTAMP_LEN {
        return None;
    }
    let minted_at: i64 = read_i64_be(body, n);
    if !is_representable(minted_at) {
        return None;
    }
    let age: i64 = whole_seconds_since(now, minted_at);
    let oldest: i64 = match expiration_duration {
        Some(seconds) => seconds,
        None => i64::MAX,
    };
    if same_bytes(octets.as_slice(), slice_subrange(body, 0, n)) && age <= oldest {
        Some(slice_to_vec(slice_subrange(body, n + TIMESTAMP_LEN, body.len())))
    } else {
        None
    }
}

/// Validates a token for an address: the connection ID that it was minted for, if it was minted
/// under this secret and for this address, and is, at the present moment, no older than
/// `expiration_duration` seconds. Without a duration a token never gets too old. Any other bytes
/// are refused.
pub fn validate_token(
    token: &[u8],
    src: &SocketAddr,
    token_secret: &[u8],
    expiration_duration: Option<i64>,
) -> (dcid: Option<Vec<u8>>)
    requires
        token@.len() <= cipher_limit() + TAG_LEN + RANDOM_LEN,
        token_secret@.len() < hash_limit(),
    ensures
        exists|now: Timestamp|
            crate::clock::can_show(now) && now.valid() && bytes_of(dcid)
                == #[trigger] token_verdict(
                token@,
                token_secret@,
                src.ip,
                now,
                expiration_duration,
            ),
        expiration_duration is None ==> bytes_of(dcid) == ageless_verdict(
            token@,
            token_secret@,
            src.ip,
        ),
        validation_outcome(
            token@,
            token_secret@,
            src.ip,
            expiration_duration,
            bytes_of(dcid),
        ),
        dcid matches Some(id) ==> genuine(token@, src.ip, id@, token_secret@),
{
    let now = utc_now();
    let dcid = match open_token(token, token_secret) {
        Some(body) => {
            let dcid = check_token(body.as_slice(), src, now, expiration_duration);
            proof {
                if belongs_to(body@, src.ip) {
                    lemma_belonging_body(body@, src.ip);
                    crate::clock::lemma_seconds_since_fits(now, stamped_second(body@, src.ip));
                    assert(minted(
                        token@,
                        src.ip,
                        stamped_second(body@, src.ip) as i64,
                        held_id(body@, src.ip),
                        token_secret@,
                        random_of(token@),
                    ));
                }
            }
            dcid
        },
        None => None,
    };
    assert(bytes_of(dcid) == token_verdict(
        token@,
        token_secret@,
        src.ip,
        now,
        expiration_duration,
    ));
    dcid
}

proof fn lemma_belonging_body(body: Seq<u8>, ip: IpAddr)
    requires
        belongs_to(body, ip),
    ensures
        body == token_body(ip, stamped_second(body, ip) as i64, held_id(body, ip)),
{
    let n = ip.octets().len() as int;
    crate::bytes::lemma_i64_be_back(body.subrange(n, n + TIMESTAMP_LEN));
    assert(body =~= body.subrange(0, n) + body.subrange(n, n + TIMESTAMP_LEN) + held_id(body, ip));
}

proof fn lemma_body_parts(ip: IpAddr, minted_at: i64, dcid: Seq<u8>)
    requires
        crate::clock::representable(minted_at as int),
    ensures
        belongs_to(token_body(ip, minted_at, dcid), ip),
        stamped_second(token_body(ip, minted_at, dcid), ip) == minted_at,
        held_id(token_body(ip, minted_at, dcid), ip) == dcid,
{
    let body = token_body(ip, minted_at, dcid);
    let n = ip.octets().len() as int;
    crate::bytes::lemma_i64_be_round_trip(minted_at);
    assert(body.subrange(0, n) =~= ip.octets());
    assert(body.subrange(n, n + TIMESTAMP_LEN) =~= crate::bytes::i64_be_bytes(minted_at));
    assert(held_id(body, ip) =~= dcid);
}

/// A minted token is accepted at every moment for the address it was minted for, and gives back its
/// connection ID, unless it is older than the expiration allows: then it is refused. Without an
/// expiration it is never refused.
pub proof fn lemma_minted_token_validates(
    token: Seq<u8>,
    ip: IpAddr,
    minted_at: i64,
    dcid: Seq<u8>,
    secret: Seq<u8>,
    random: Seq<u8>,
    now: Timestamp,
    expiration: Option<i64>,
)
    requires
        minted(token, ip, minted_at, dcid, secret, random),
        now.valid(),
    ensures
        token_verdict(token, secret, ip, now, expiration) == (if crate::clock::seconds_since(
            now,
            minted_at as int,
        ) <= oldest_age(expiration) {
            Some(dcid)
        } else {
            None
        }),
        token_verdict(token, secret, ip, now, None) == Some(dcid),
        ageless_verdict(token, secret, ip) == Some(dcid),
{
    lemma_body_parts(ip, minted_at, dcid);
    crate::clock::lemma_seconds_since_fits(now, minted_at as int);
}

/// A token is accepted only if its tag authenticates its ciphertext under the secret: a token that
/// was not encrypted, one that was tampered with and one under another secret are refused, whatever
/// the address, the moment and the expiration.
pub proof fn lemma_accepted_token_authenticates(
    token: Seq<u8>,
    secret: Seq<u8>,
    ip: IpAddr,
    now: Timestamp,
    expiration: Option<i64>,
)
    requires
        token_verdict(token, secret, ip, now, expiration) is Some || ageless_verdict(
            token,
            secret,
            ip,
        ) is Some,
    ensures
        token.len() >= TAG_LEN + RANDOM_LEN,
        chacha20_poly1305_open(
            hkdf_sha256_extract(random_of(token), secret),
            random_of(token),
            ciphertext_of(token),
            tag_of(token),
        ) is Some,
{
}

/// A minted token is not taken for one of another address, at any moment and with any expiration.
/// An address of the other family must not happen to spell out how the contents of the token begin.
pub proof fn lemma_minted_token_bound_to_address(
    token: Seq<u8>,
    ip: IpAddr,
    minted_at: i64,
    dcid: Seq<u8>,
    secret: Seq<u8>,
    random: Seq<u8>,
    other: IpAddr,
    now: Timestamp,
    expiration: Option<i64>,
)
    requires
        minted(token, ip, minted_at, dcid, secret, random),
        other.octets() != ip.octets(),
        !other.same_family(ip) ==> !other.octets().is_prefix_of(token_body(ip, minted_at, dcid)),
    ensures
        token_verdict(token, secret, other, now, expiration) is None,
        ageless_verdict(token, secret, other) is None,
{
    lemma_body_parts(ip, minted_at, dcid);
    let body = token_body(ip, minted_at, dcid);
    let n = other.octets().len() as int;
    if other.same_family(ip) {
        assert(other.octets().len() == ip.octets().len());
    } else if body.len() >= n && body.subrange(0, n) == other.octets() {
        assert(other.octets().is_prefix_of(body));
    }
}

/// The body of a token gives a connection ID, for an address at a moment, exactly if it is the
/// octets of that address, a second for which there is a calendar date, and that connection ID, and
/// no more whole seconds have passed since than the expiration allows, if there is one.
pub proof fn lemma_body_verdict_exact(
    body: Seq<u8>,
    ip: IpAddr,
    now: Timestamp,
    expiration: Option<i64>,
    id: Seq<u8>,
)
    requires
        now.valid(),
    ensures
        body_verdict(body, ip, now, expiration) == Some(id) <==> exists|minted_at: i64|
            {
                &&& body == ip.octets() + #[trigger] crate::bytes::i64_be_bytes(minted_at) + id
                &&& crate::clock::representable(minted_at as int)
                &&& expiration matches Some(seconds) ==> crate::clock::seconds_since(
                    now,
                    minted_at as int,
                ) <= seconds
            },
{
    if body_verdict(body, ip, now, expiration) == Some(id) {
        lemma_belonging_body(body, ip);
        let minted_at = stamped_second(body, ip) as i64;
        crate::bytes::lemma_i64_be_back(
            body.subrange(
                ip.octets().len() as int,
                ip.octets().len() + TIMESTAMP_LEN,
            ),
        );
        assert(body == ip.octets() + crate::bytes::i64_be_bytes(minted_at) + id);
    }
    if exists|minted_at: i64|
        {
            &&& body == ip.octets() + #[trigger] crate::bytes::i64_be_bytes(minted_at) + id
            &&& crate::clock::representable(minted_at as int)
            &&& expiration matches Some(seconds) ==> crate::clock::seconds_since(
                now,
                minted_at as int,
            ) <= seconds
        } {
        let minted_at = choose|minted_at: i64|
            {
                &&& body == ip.octets() + #[trigger] crate::bytes::i64_be_bytes(minted_at) + id
                &&& crate::clock::representable(minted_at as int)
                &&& expiration matches Some(seconds) ==> crate::clock::seconds_since(
                    now,
                    minted_at as int,
                ) <= seconds
            };
        lemma_body_parts(ip, minted_at, id);
        crate::clock::lemma_seconds_since_fits(now, minted_at as int);
    }
}

/// A token gives a connection ID exactly if it opens, under the secret, to the octets of the
/// address, a second for which there is a calendar date, and that connection ID, and is not older
/// than the expiration allows, if there is one.
pub proof fn lemma_token_verdict_exact(
    token: Seq<u8>,
    secret: Seq<u8>,
    ip: IpAddr,
    now: Timestamp,
    expiration: Option<i64>,
    id: Seq<u8>,
)
    requires
        now.valid(),
    ensures
        token_verdict(token, secret, ip, now, expiration) == Some(id) <==> exists|minted_at: i64|
            {
                &&& opened_token(token, secret) == Some(
                    ip.octets() + #[trigger] crate::bytes::i64_be_bytes(minted_at) + id,
                )
                &&& crate::clock::representable(minted_at as int)
                &&& expiration matches Some(seconds) ==> crate::clock::seconds_since(
                    now,
                    minted_at as int,
                ) <= seconds
            },
        ageless_verdict(token, secret, ip) == Some(id) <==> exists|minted_at: i64|
            {
                &&& opened_token(token, secret) == Some(
                    ip.octets() + #[trigger] crate::bytes::i64_be_bytes(minted_at) + id,
                )
                &&& crate::clock::representable(minted_at as int)
            },
{
    if let Some(body) = opened_token(token, secret) {
        lemma_body_verdict_exact(body, ip, now, expiration, id);
        lemma_body_verdict_exact(body, ip, now, None, id);
        if belongs_to(body, ip) {
            crate::clock::lemma_seconds_since_fits(now, stamped_second(body, ip));
        }
        assert(ageless_verdict(token, secret, ip) == body_verdict(body, ip, now, None));
        if token_verdict(token, secret, ip, now, expiration) == Some(id) {
            let minted_at = choose|minted_at: i64|
                {
                    &&& body == ip.octets() + #[trigger] crate::bytes::i64_be_bytes(minted_at) + id
                    &&& crate::clock::representable(minted_at as int)
                    &&& expiration matches Some(seconds) ==> crate::clock::seconds_since(
                        now,
                        minted_at as int,
                    ) <= seconds
                };
            assert(opened_token(token, secret) == Some(
                ip.octets() + crate::bytes::i64_be_bytes(minted_at) + id,
            ));
        }
        if ageless_verdict(token, secret, ip) == Some(id) {
            let minted_at = choose|minted_at: i64|
                {
                    &&& body == ip.octets() + #[trigger] crate::bytes::i64_be_bytes(minted_at) + id
                    &&& crate::clock::representable(minted_at as int)
                };
            assert(opened_token(token, secret) == Some(
                ip.octets() + crate::bytes::i64_be_bytes(minted_at) + id,
            ));
        }
    }
}

/// A token is a ciphertext, a tag of 16 bytes and 8 random bytes, and opens to what decrypting the
/// ciphertext gives, with that tag, under the key derived from the random bytes and the secret.
/// Anything shorter does not open.
pub proof fn lemma_token_opens(
    ciphertext: Seq<u8>,
    tag: Seq<u8>,
    random: Seq<u8>,
    token: Seq<u8>,
    secret: Seq<u8>,
)
    requires
        tag.len() == 16,
        random.len() == 8,
    ensures
        opened_token(ciphertext + tag + random, secret) == chacha20_poly1305_open(
            hkdf_sha256_extract(random, secret),
            random,
            ciphertext,
            tag,
        ),
        token.len() < 24 ==> opened_token(token, secret) is None,
{
    let whole = ciphertext + tag + random;
    assert(random_of(whole) =~= random);
    assert(tag_of(whole) =~= tag);
    assert(ciphertext_of(whole) =~= ciphertext);
}

/// What is minted is the octets of the address, the second and the connection ID, encrypted under
/// the key derived from the random bytes and the secret, with the tag and the random bytes behind
/// it.
pub proof fn lemma_minted_layout(
    token: Seq<u8>,
    ip: IpAddr,
    minted_at: i64,
    dcid: Seq<u8>,
    secret: Seq<u8>,
    random: Seq<u8>,
)
    ensures
        ({
            let sealed = chacha20_poly1305_seal(
                hkdf_sha256_extract(random, secret),
                random,
                ip.octets() + crate::bytes::i64_be_bytes(minted_at) + dcid,
            );
            &&& sealed_token(ip, minted_at, dcid, secret, random) == sealed.0 + sealed.1 + random
            &&& minted(token, ip, minted_at, dcid, secret, random) ==> {
                &&& token == sealed.0 + sealed.1 + random
                &&& random.len() == 8
                &&& token.len() == ip.octets().len() + 8 + dcid.len() + 24
                &&& opened_token(token, secret) == Some(
                    ip.octets() + crate::bytes::i64_be_bytes(minted_at) + dcid,
                )
            }
        }),
{
}

/// A genuine token is accepted without an expiration, for its address, and gives its connection ID.
pub proof fn lemma_genuine_is_accepted(token: Seq<u8>, ip: IpAddr, dcid: Seq<u8>, secret: Seq<u8>)
    requires
        genuine(token, ip, dcid, secret),
    ensures
        ageless_verdict(token, secret, ip) == Some(dcid),
        token.len() == ip.octets().len() + 8 + dcid.len() + 24,
{
    let (minted_at, random) = choose|minted_at: i64, random: Seq<u8>| #[trigger]
        minted(token, ip, minted_at, dcid, secret, random);
    lemma_minted_token_validates(
        token,
        ip,
        minted_at,
        dcid,
        secret,
        random,
        Timestamp { seconds: 0, nanos: 0 },
        None,
    );
}

/// A connection ID that is held as a vector is that sequence of bytes, and none is none.
pub proof fn lemma_bytes_of(bytes: Option<Vec<u8>>)
    ensures
        bytes is None <==> bytes_of(bytes) is None,
        bytes matches Some(v) ==> bytes_of(bytes) == Some(v@),
{
}

/// What is minted validates, for the address it was minted for and under the same secret, to the
/// connection ID it was minted for: always without an expiration, and with one unless more whole
/// seconds have passed, between a second that the clock showed and a moment that it shows, than are
/// allowed.
pub proof fn lemma_mint_then_validate(
    token: Seq<u8>,
    ip: IpAddr,
    dcid: Seq<u8>,
    secret: Seq<u8>,
    expiration: Option<i64>,
    id: Option<Seq<u8>>,
)
    requires
        minting_outcome(token, ip, dcid, secret),
        validation_outcome(token, secret, ip, expiration, id),
    ensures
        expiration is None ==> id == Some(dcid),
        id is None || id == Some(dcid),
        expiration matches Some(allowed) ==> exists|minted_at: Timestamp, now: Timestamp|
            {
                &&& #[trigger] crate::clock::can_show(minted_at)
                &&& #[trigger] crate::clock::can_show(now)
                &&& id is Some <==> crate::clock::seconds_since(now, minted_at.seconds as int)
                    <= allowed
            },
{
    let (minted_at, random) = choose|minted_at: Timestamp, random: Seq<u8>|
        {
            &&& #[trigger] crate::clock::can_show(minted_at)
            &&& #[trigger] crate::random::can_draw(random)
            &&& minted(token, ip, minted_at.seconds, dcid, secret, random)
        };
    let now = choose|now: Timestamp|
        crate::clock::can_show(now) && now.valid() && id == #[trigger] token_verdict(
            token,
            secret,
            ip,
            now,
            expiration,
        );
    lemma_minted_token_validates(
        token,
        ip,
        minted_at.seconds,
        dcid,
        secret,
        random,
        now,
        expiration,
    );
    assert(crate::clock::can_show(minted_at) && crate::clock::can_show(now));
    assert(expiration matches Some(allowed) ==> (id is Some <==> crate::clock::seconds_since(
        now,
        minted_at.seconds as int,
    ) <= allowed));
}

/// Validating any bytes gives a connection ID only if they open, under the secret, to the octets of
/// the address, a second of the calendar and that connection ID; without an expiration it then
/// always does.
pub proof fn lemma_validation(
    token: Seq<u8>,
    secret: Seq<u8>,
    ip: IpAddr,
    expiration: Option<i64>,
    id: Option<Seq<u8>>,
    minted_at: i64,
    dcid: Seq<u8>,
)
    requires
        validation_outcome(token, secret, ip, expiration, id),
    ensures
        opened_token(token, secret) is None ==> id is None,
        id matches Some(found) ==> exists|second: i64|
            opened_token(token, secret) == Some(
                ip.octets() + #[trigger] crate::bytes::i64_be_bytes(second) + found,
            ) && crate::clock::representable(second as int),
        expiration is None && crate::clock::representable(minted_at as int) && opened_token(
            token,
            secret,
        ) == Some(ip.octets() + crate::bytes::i64_be_bytes(minted_at) + dcid) ==> id == Some(dcid),
{
    let now = choose|now: Timestamp|
        crate::clock::can_show(now) && now.valid() && id == #[trigger] token_verdict(
            token,
            secret,
            ip,
            now,
            expiration,
        );
    lemma_token_verdict_exact(token, secret, ip, now, expiration, dcid);
    if let Some(found) = id {
        lemma_token_verdict_exact(token, secret, ip, now, expiration, found);
    }
}

} // verus!
