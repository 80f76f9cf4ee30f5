//! What a listener does with each datagram.
//!
//! 1. On creation a listener draws a seed for connection IDs.
//! 2. For each datagram it reads the header and looks for the connection ID among the connections
//!    it knows. If there is one, the datagram goes there. If not, the packet must be an Initial
//!    packet of a supported version; another version is answered with version negotiation. A
//!    packet without a token is answered with a Retry packet that carries a new one. A token that
//!    comes back is validated.
//! 3. If all is well the connection is accepted, and its connection ID leads to it from then on.
use crate::address::{IpAddr, SocketAddr};
use crate::backend::clients::ClientMap;
use crate::backend::server;
use crate::bytes::copy;
use crate::clock::Timestamp;
use crate::config::MAX_DATAGRAM_SIZE;
use crate::crypto::{mint_token, validate_token};
use crate::packet::{
    negotiate_version, parse_header, retry, version_is_supported, Header, HeaderFields,
    MAX_CONN_ID_LEN, PROTOCOL_VERSION,
};
use crate::random::system_random_bytes;
use quiche::Error as TransportError;
use quiche::Type as PacketType;
use vstd::pervasive::unreached;
use vstd::prelude::*;
use vstd::slice::slice_subrange;

verus! {

/// The bytes of the seed from which connection IDs are derived.
pub const SEED_LEN: usize = 32;

/// The largest datagram that is received.
pub const RECV_BUFFER_SIZE: usize = 65535;

/// A datagram and where it came from.
#[derive(Debug)]
pub struct Datapacket {
    pub from: SocketAddr,
    pub data: Vec<u8>,
}

/// A connection that was accepted, and where its datagrams arrive.
pub struct Client<R> {
    pub connection: server::Inner,
    pub recv: R,
}

/// What `ring::hmac::sign` gives with HMAC-SHA-256.
pub uninterp spec fn hmac_sha256(key: Seq<u8>, data: Seq<u8>) -> Seq<u8>;

/// `ring::hmac::sign` under `ring::hmac::Key::new` with `HMAC_SHA256`: the 32 bytes that
/// [`hmac_sha256`] names.
#[verifier::external_body]
fn hmac_sign(key: &[u8], data: &[u8]) -> (tag: Vec<u8>)
    requires
        key@.len() <= 64,
        data@.len() <= 0xffff_ffff,
    ensures
        tag@ == hmac_sha256(key@, data@),
        tag@.len() == 32,
{
    let key = ring::hmac::Key::new(ring::hmac::HMAC_SHA256, key);
    ring::hmac::sign(&key, data).as_ref().to_vec()
}

/// The connection ID that is derived from a destination connection ID.
pub open spec fn derived_id(seed: Seq<u8>, dcid: Seq<u8>) -> Seq<u8> {
    hmac_sha256(seed, dcid).subrange(0, MAX_CONN_ID_LEN as int)
}

/// Where the header of a packet leads.
#[derive(Clone, Copy, Debug, PartialEq, Eq, Structural)]
pub enum Route {
    /// To the connection that the destination connection ID names.
    ByDestination,
    /// To the connection that the derived connection ID names.
    ByDerived,
    /// Nowhere: only an Initial packet can open a connection.
    NotInitial,
    /// To version negotiation.
    UnsupportedVersion,
    /// To a Retry packet with a new token.
    NoToken,
    /// To the validation of its token.
    TokenGiven,
}

/// Why a datagram is dropped without an answer.
#[derive(Debug)]
pub enum Discard {
    /// Its header cannot be read.
    Unreadable(TransportError),
    /// It belongs to no connection, and is no Initial packet.
    NotInitial,
    /// Its token was not minted here for the address it came from.
    InvalidToken,
    /// Its destination connection ID does not have the length of one that was handed out.
    InvalidDestination,
}

/// What is to be done about a datagram.
#[derive(Debug)]
pub enum Action {
    /// Drop it.
    Discard(Discard),
    /// Answer with the Version Negotiation packet for these connection IDs.
    NegotiateVersion { scid: Vec<u8>, dcid: Vec<u8> },
    /// Answer with these bytes.
    Reply(Vec<u8>),
    /// Open a connection, let the connection ID `scid` lead to it, and hand it the datagram.
    Accept { scid: Vec<u8>, odcid: Vec<u8> },
    /// Hand it to the connection with this connection ID.
    Forward(Vec<u8>),
}

/// An [`Action`] as a mathematical value.
pub enum Decision {
    Discard(Discard),
    NegotiateVersion { scid: Seq<u8>, dcid: Seq<u8> },
    Reply(Seq<u8>),
    Accept { scid: Seq<u8>, odcid: Seq<u8> },
    Forward(Seq<u8>),
}

impl View for Action {
    type V = Decision;

    open spec fn view(&self) -> Decision {
        match self {
            Action::Discard(why) => Decision::Discard(*why),
            Action::NegotiateVersion { scid, dcid } => Decision::NegotiateVersion {
                scid: scid@,
                dcid: dcid@,
            },
            Action::Reply(packet) => Decision::Reply(packet@),
            Action::Accept { scid, odcid } => Decision::Accept { scid: scid@, odcid: odcid@ },
            Action::Forward(id) => Decision::Forward(id@),
        }
    }
}

/// The route of a packet: to a known connection first, by its destination connection ID and then by
/// the derived one; without one, only an Initial packet of the supported version gets further.
pub open spec fn route_of(known: Set<Seq<u8>>, header: HeaderFields, derived: Seq<u8>) -> Route {
    if known.contains(header.dcid) {
        Route::ByDestination
    } else if known.contains(derived) {
        Route::ByDerived
    } else if !(header.ty is Initial) {
        Route::NotInitial
    } else if header.version != PROTOCOL_VERSION {
        Route::UnsupportedVersion
    } else if header.token == Some(Seq::<u8>::empty()) {
        Route::NoToken
    } else {
        Route::TokenGiven
    }
}

/// What becomes of a packet whose token was validated: the connection ID in the token, or `None` if
/// the token is refused.
pub open spec fn decision_on_verdict(dcid: Seq<u8>, verdict: Option<Seq<u8>>) -> Decision {
    match verdict {
        None => Decision::Discard(Discard::InvalidToken),
        Some(odcid) => if dcid.len() != MAX_CONN_ID_LEN {
            Decision::Discard(Discard::InvalidDestination)
        } else {
            Decision::Accept { scid: dcid, odcid }
        },
    }
}

/// What becomes of a packet with a token.
pub open spec fn decision_on_token(
    secret: Seq<u8>,
    ip: IpAddr,
    dcid: Seq<u8>,
    token: Seq<u8>,
) -> Decision {
    decision_on_verdict(dcid, crate::crypto::ageless_verdict(token, secret, ip))
}

/// Whether the bytes are a Retry packet that answers the header with a token minted for the address
/// and for the header's destination connection ID, at a second that the clock showed and with
/// random bytes that were drawn for it.
pub open spec fn is_retry_for(
    packet: Seq<u8>,
    seed: Seq<u8>,
    secret: Seq<u8>,
    ip: IpAddr,
    header: HeaderFields,
) -> bool {
    exists|token: Seq<u8>, now: Timestamp, random: Seq<u8>|
        {
            &&& crate::clock::can_show(now)
            &&& crate::random::can_draw(random)
            &&& #[trigger] crate::crypto::minted(
                token,
                ip,
                now.seconds,
                header.dcid,
                secret,
                random,
            )
            &&& packet == crate::packet::retry_packet(
                header.scid,
                header.dcid,
                derived_id(seed, header.dcid),
                token,
            )
            &&& packet.len() == 23 + header.scid.len() + MAX_CONN_ID_LEN + token.len()
        }
}

/// The token that a client finds in the Retry packet it gets: behind the two connection IDs, the
/// first of which is its own, and before the tag.
pub open spec fn carried_token(packet: Seq<u8>, client_id: Seq<u8>) -> Seq<u8> {
    packet.subrange(7 + client_id.len() + MAX_CONN_ID_LEN, packet.len() - 16)
}

/// What may be done about a packet with this header. All that is left open is which second the
/// clock shows, and which random bytes are drawn, when a new token is minted.
pub open spec fn proper_decision(
    known: Set<Seq<u8>>,
    seed: Seq<u8>,
    secret: Seq<u8>,
    ip: IpAddr,
    header: HeaderFields,
    decision: Decision,
) -> bool {
    let derived = derived_id(seed, header.dcid);
    match route_of(known, header, derived) {
        Route::ByDestination => decision == Decision::Forward(header.dcid),
        Route::ByDerived => decision == Decision::Forward(derived),
        Route::NotInitial => decision == Decision::Discard(Discard::NotInitial),
        Route::UnsupportedVersion => decision == (Decision::NegotiateVersion {
            scid: header.scid,
            dcid: header.dcid,
        }),
        Route::NoToken => decision matches Decision::Reply(packet) && is_retry_for(
            packet,
            seed,
            secret,
            ip,
            header,
        ),
        Route::TokenGiven => decision == decision_on_token(
            secret,
            ip,
            header.dcid,
            header.token->Some_0,
        ),
    }
}

/// What may be done about a datagram whose header was read so.
pub open spec fn decision_on_datagram(
    known: Set<Seq<u8>>,
    seed: Seq<u8>,
    secret: Seq<u8>,
    ip: IpAddr,
    parsed: Result<HeaderFields, TransportError>,
    decision: Decision,
) -> bool {
    match parsed {
        Err(err) => decision == Decision::Discard(Discard::Unreadable(err)),
        Ok(header) => proper_decision(known, seed, secret, ip, header, decision),
    }
}

/// What letting a connection ID lead to a connection comes to.
pub open spec fn registered<S>(
    before: Map<Seq<u8>, S>,
    id: Seq<u8>,
    sender: S,
    after: Map<Seq<u8>, S>,
) -> bool {
    after == before.insert(id, sender)
}

/// Draws a seed from the system's random source, unless that fails.
pub fn generate_seed() -> (seed: Result<Vec<u8>, ring::error::Unspecified>)
    ensures
        crate::random::can_draw_from_system(SEED_LEN, seed),
        seed matches Ok(s) ==> s@.len() == SEED_LEN,
{
    system_random_bytes(SEED_LEN)
}

/// The Version Negotiation packet for two connection IDs.
pub fn version_negotiation(scid: &[u8], dcid: &[u8]) -> (packet: Vec<u8>)
    requires
        scid@.len() <= 255,
        dcid@.len() <= 255,
    ensures
        crate::packet::is_version_negotiation(packet@, scid@, dcid@),
{
    match negotiate_version(scid, dcid, MAX_DATAGRAM_SIZE) {
        Ok(packet) => packet,
        Err(_) => unreached(),
    }
}

/// What becomes of a packet whose token was validated.
pub fn after_validation(dcid: &[u8], validated: Option<Vec<u8>>) -> (action: Action)
    ensures
        action@ == decision_on_verdict(dcid@, crate::crypto::bytes_of(validated)),
{
    match validated {
        None => Action::Discard(Discard::InvalidToken),
        Some(odcid) => {
            if dcid.len() != MAX_CONN_ID_LEN {
                Action::Discard(Discard::InvalidDestination)
            } else {
                Action::Accept { scid: copy(dcid), odcid }
            }
        },
    }
}

/// The connections of a listener, with the secrets it answers new clients with.
pub struct Manager<S> {
    client_map: ClientMap<S>,
    seed: Vec<u8>,
    secret_sauce: Vec<u8>,
}

impl<S> Manager<S> {
    /// No connection ID occurs twice, the seed has its length, and the secret can be hashed.
    #[verifier::type_invariant]
    spec fn wf(self) -> bool {
        &&& self.client_map.wf()
        &&& self.seed@.len() == SEED_LEN
        &&& self.secret_sauce@.len() < crate::crypto::hash_limit()
    }

    /// What each known connection ID leads to.
    pub closed spec fn clients(self) -> Map<Seq<u8>, S> {
        self.client_map@
    }

    /// The seed from which connection IDs are derived.
    pub closed spec fn seed(self) -> Seq<u8> {
        self.seed@
    }

    /// The secret that tokens are minted with.
    pub closed spec fn secret(self) -> Seq<u8> {
        self.secret_sauce@
    }

    /// A listener without connections.
    pub fn new(seed: Vec<u8>, secret_sauce: Vec<u8>) -> (r: Self)
        requires
            seed@.len() == SEED_LEN,
            secret_sauce@.len() < crate::crypto::hash_limit(),
        ensures
            r.clients() == Map::<Seq<u8>, S>::empty(),
            r.seed() == seed@,
            r.secret() == secret_sauce@,
    {
        Manager { client_map: ClientMap::new(), seed, secret_sauce }
    }

    /// The connection ID that is derived from a destination connection ID.
    pub fn derive_id(&self, dcid: &[u8]) -> (id: Vec<u8>)
        requires
            dcid@.len() <= 255,
        ensures
            id@ == derived_id(self.seed(), dcid@),
            id@.len() == MAX_CONN_ID_LEN,
    {
        proof {
            use_type_invariant(self);
        }
        let tag = hmac_sign(self.seed.as_slice(), dcid);
        copy(slice_subrange(tag.as_slice(), 0, MAX_CONN_ID_LEN))
    }

    /// The route of a packet.
    pub fn route(&self, header: &Header, derived: &[u8]) -> (route: Route)
        requires
            header.ty is Initial ==> header.token is Some,
        ensures
            route == route_of(self.clients().dom(), header@, derived@),
    {
        proof {
            use_type_invariant(self);
        }
        if self.client_map.contains_key(header.dcid.as_slice()) {
            return Route::ByDestination;
        }
        if self.client_map.contains_key(derived) {
            return Route::ByDerived;
        }
        match header.ty {
            PacketType::Initial => {},
            _ => {
                return Route::NotInitial;
            },
        }
        if !version_is_supported(header.version) {
            return Route::UnsupportedVersion;
        }
        match &header.token {
            Some(token) => {
                if token.len() == 0 {
                    assert(token@ =~= Seq::<u8>::empty());
                    Route::NoToken
                } else {
                    Route::TokenGiven
                }
            },
            None => unreached(),
        }
    }

    /// A Retry packet with a new token, in answer to an Initial packet without one.
    fn retry_packet(&self, from: &SocketAddr, header: &Header, derived: &[u8]) -> (packet: Vec<u8>)
        requires
            header.version == PROTOCOL_VERSION,
            header.dcid@.len() <= MAX_CONN_ID_LEN,
            header.scid@.len() <= MAX_CONN_ID_LEN,
            derived@ == derived_id(self.seed(), header.dcid@),
            derived@.len() == MAX_CONN_ID_LEN,
        ensures
            is_retry_for(packet@, self.seed(), self.secret(), from.ip, header@),
    {
        proof {
            use_type_invariant(self);
        }
        let token = mint_token(header.dcid.as_slice(), from, self.secret_sauce.as_slice());
        match retry(
            header.scid.as_slice(),
            header.dcid.as_slice(),
            derived,
            token.as_slice(),
            header.version,
            MAX_DATAGRAM_SIZE,
        ) {
            Ok(packet) => {
                proof {
                    let (now, random) = choose|now: Timestamp, random: Seq<u8>|
                        {
                            &&& #[trigger] crate::clock::can_show(now)
                            &&& #[trigger] crate::random::can_draw(random)
                            &&& crate::crypto::minted(
                                token@,
                                from.ip,
                                now.seconds,
                                header.dcid@,
                                self.secret(),
                                random,
                            )
                        };
                    assert(crate::crypto::minted(
                        token@,
                        from.ip,
                        now.seconds,
                        header@.dcid,
                        self.secret(),
                        random,
                    ));
                    assert(packet@ == crate::packet::retry_packet(
                        header@.scid,
                        header@.dcid,
                        derived_id(self.seed(), header@.dcid),
                        token@,
                    ));
                }
                packet
            },
            Err(_) => unreached(),
        }
    }

    /// What is to be done about a datagram: drop it if its header cannot be read, else what its
    /// header calls for.
    pub fn on_datagram(&self, from: &SocketAddr, datagram: &[u8]) -> (action: Action)
        requires
            datagram@.len() <= RECV_BUFFER_SIZE,
        ensures
            match crate::packet::parsed_header(datagram@, MAX_CONN_ID_LEN as int) {
                Err(err) => action@ == Decision::Discard(Discard::Unreadable(err)),
                Ok(header) => {
                    &&& crate::packet::plausible_header(header, datagram@)
                    &&& proper_decision(
                        self.clients().dom(),
                        self.seed(),
                        self.secret(),
                        from.ip,
                        header,
                        action@,
                    )
                    &&& action@ matches Decision::Accept { scid, odcid } ==> crate::crypto::genuine(
                        header.token->Some_0,
                        from.ip,
                        odcid,
                        self.secret(),
                    )
                },
            },
            decision_on_datagram(
                self.clients().dom(),
                self.seed(),
                self.secret(),
                from.ip,
                crate::packet::parsed_header(datagram@, MAX_CONN_ID_LEN as int),
                action@,
            ),
            action matches Action::NegotiateVersion { scid, dcid } ==> scid@.len() <= 255
                && dcid@.len() <= 255,
    {
        proof {
            use_type_invariant(self);
        }
        let header = match parse_header(datagram, MAX_CONN_ID_LEN) {
            Ok(header) => header,
            Err(err) => {
                return Action::Discard(Discard::Unreadable(err));
            },
        };
        let derived = self.derive_id(header.dcid.as_slice());
        match self.route(&header, derived.as_slice()) {
            Route::ByDestination => Action::Forward(header.dcid),
            Route::ByDerived => Action::Forward(derived),
            Route::NotInitial => Action::Discard(Discard::NotInitial),
            Route::UnsupportedVersion => Action::NegotiateVersion {
                scid: header.scid,
                dcid: header.dcid,
            },
            Route::NoToken => Action::Reply(self.retry_packet(from, &header, derived.as_slice())),
            Route::TokenGiven => match &header.token {
                Some(token) => after_validation(
                    header.dcid.as_slice(),
                    validate_token(
                        token.as_slice(),
                        from,
                        self.secret_sauce.as_slice(),
                        None,
                    ),
                ),
                None => unreached(),
            },
        }
    }

    /// Lets a connection ID lead to an accepted connection.
    pub fn register(&mut self, scid: Vec<u8>, sender: S)
        ensures
            registered(old(self).clients(), scid@, sender, final(self).clients()),
            final(self).clients() == old(self).clients().insert(scid@, sender),
            final(self).seed() == old(self).seed(),
            final(self).secret() == old(self).secret(),
    {
        proof {
            use_type_invariant(&*self);
        }
        let mut client_map = ClientMap::new();
        std::mem::swap(&mut client_map, &mut self.client_map);
        client_map.insert(scid, sender);
        self.client_map = client_map;
    }

    /// What a connection ID leads to.
    pub fn sender(&self, id: &[u8]) -> (r: Option<&S>)
        ensures
            match r {
                Some(sender) => self.clients().contains_key(id@) && self.clients()[id@] == *sender,
                None => !self.clients().contains_key(id@),
            },
    {
        proof {
            use_type_invariant(self);
        }
        self.client_map.get(id)
    }
}

/// Once a connection ID leads to a connection, every packet with this destination goes there,
/// whatever its type, its version and its token.
pub proof fn lemma_registered_is_forwarded(
    known: Set<Seq<u8>>,
    id: Seq<u8>,
    seed: Seq<u8>,
    secret: Seq<u8>,
    ip: IpAddr,
    header: HeaderFields,
    decision: Decision,
)
    requires
        header.dcid == id,
        proper_decision(known.insert(id), seed, secret, ip, header, decision),
    ensures
        decision == Decision::Forward(id),
{
}

/// A packet is handed to a connection only if a connection ID leads to it, and a connection is
/// opened only for an Initial packet of the supported version with a token that authenticates under
/// the secret, to a connection ID that does not lead anywhere yet.
pub proof fn lemma_no_connection_without_token(
    known: Set<Seq<u8>>,
    seed: Seq<u8>,
    secret: Seq<u8>,
    ip: IpAddr,
    header: HeaderFields,
    decision: Decision,
)
    requires
        proper_decision(known, seed, secret, ip, header, decision),
    ensures
        decision matches Decision::Forward(id) ==> known.contains(id),
        decision matches Decision::Accept { scid, odcid } ==> {
            &&& header.ty is Initial
            &&& header.version == PROTOCOL_VERSION
            &&& header.token != Some(Seq::<u8>::empty())
            &&& crate::crypto::opened_token(header.token->Some_0, secret) is Some
            &&& scid == header.dcid
            &&& scid.len() == MAX_CONN_ID_LEN
            &&& !known.contains(scid)
        },
{
}

/// A client that is answered with a Retry packet, and sends back the token in it, from the address
/// it got it at and to the connection ID that the packet came from, is accepted, with the
/// connection ID that it used first.
pub proof fn lemma_retry_then_accept(
    known_first: Set<Seq<u8>>,
    known_second: Set<Seq<u8>>,
    seed: Seq<u8>,
    secret: Seq<u8>,
    ip: IpAddr,
    first: HeaderFields,
    packet: Seq<u8>,
    second: HeaderFields,
    decision: Decision,
)
    requires
        proper_decision(known_first, seed, secret, ip, first, Decision::Reply(packet)),
        second.ty is Initial,
        second.version == PROTOCOL_VERSION,
        second.token == Some(carried_token(packet, first.scid)),
        second.dcid == derived_id(seed, first.dcid),
        second.dcid.len() == MAX_CONN_ID_LEN,
        !known_second.contains(second.dcid),
        !known_second.contains(derived_id(seed, second.dcid)),
        proper_decision(known_second, seed, secret, ip, second, decision),
    ensures
        decision == (Decision::Accept { scid: second.dcid, odcid: first.dcid }),
{
    assert(is_retry_for(packet, seed, secret, ip, first));
    let (token, now, random) = choose|token: Seq<u8>, now: Timestamp, random: Seq<u8>|
        {
            &&& crate::clock::can_show(now)
            &&& crate::random::can_draw(random)
            &&& #[trigger] crate::crypto::minted(
                token,
                ip,
                now.seconds,
                first.dcid,
                secret,
                random,
            )
            &&& packet == crate::packet::retry_packet(
                first.scid,
                first.dcid,
                derived_id(seed, first.dcid),
                token,
            )
            &&& packet.len() == 23 + first.scid.len() + MAX_CONN_ID_LEN + token.len()
        };
    assert(carried_token(packet, first.scid) =~= token);
    crate::crypto::lemma_minted_token_validates(
        token,
        ip,
        now.seconds,
        first.dcid,
        secret,
        random,
        Timestamp { seconds: 0, nanos: 0 },
        None,
    );
    assert(token.len() > 0);
}

/// A packet with a token that was minted for another address is dropped. An address of the other
/// family must not happen to spell out how the contents of the token begin.
pub proof fn lemma_token_of_another_address_refused(
    known: Set<Seq<u8>>,
    seed: Seq<u8>,
    secret: Seq<u8>,
    ip: IpAddr,
    other: IpAddr,
    dcid: Seq<u8>,
    token: Seq<u8>,
    minted_at: i64,
    random: Seq<u8>,
    header: HeaderFields,
    decision: Decision,
)
    requires
        crate::crypto::minted(token, ip, minted_at, dcid, secret, random),
        other.octets() != ip.octets(),
        !other.same_family(ip) ==> !other.octets().is_prefix_of(
            crate::crypto::token_body(ip, minted_at, dcid),
        ),
        route_of(known, header, derived_id(seed, header.dcid)) is TokenGiven,
        header.token == Some(token),
        proper_decision(known, seed, secret, other, header, decision),
    ensures
        decision == Decision::Discard(Discard::InvalidToken),
{
    crate::crypto::lemma_minted_token_bound_to_address(
        token,
        ip,
        minted_at,
        dcid,
        secret,
        random,
        other,
        Timestamp { seconds: 0, nanos: 0 },
        None,
    );
}

/// A datagram whose header cannot be read is dropped with that error. What becomes of any other is
/// decided by its header alone, and it is never dropped as unreadable.
pub proof fn lemma_unreadable_is_dropped(
    known: Set<Seq<u8>>,
    seed: Seq<u8>,
    secret: Seq<u8>,
    ip: IpAddr,
    parsed: Result<HeaderFields, TransportError>,
    decision: Decision,
)
    requires
        decision_on_datagram(known, seed, secret, ip, parsed, decision),
    ensures
        parsed matches Err(err) ==> decision == Decision::Discard(Discard::Unreadable(err)),
        parsed matches Ok(header) ==> proper_decision(known, seed, secret, ip, header, decision),
        parsed is Ok ==> !(decision matches Decision::Discard(Discard::Unreadable(_))),
{
}

/// The derived connection ID is made of the first 20 bytes of the HMAC of the destination
/// connection ID under the seed.
pub proof fn lemma_derived_id(seed: Seq<u8>, dcid: Seq<u8>)
    requires
        hmac_sha256(seed, dcid).len() == 32,
    ensures
        derived_id(seed, dcid).len() == 20,
        forall|i: int| 0 <= i < 20 ==> derived_id(seed, dcid)[i] == hmac_sha256(seed, dcid)[i],
{
}

/// A packet goes to the connection that its destination connection ID leads to, and if that leads
/// nowhere, to the one that the derived connection ID leads to, whatever its type, its version and
/// its token.
pub proof fn lemma_known_connection_gets_packet(
    known: Set<Seq<u8>>,
    seed: Seq<u8>,
    secret: Seq<u8>,
    ip: IpAddr,
    header: HeaderFields,
    decision: Decision,
)
    requires
        proper_decision(known, seed, secret, ip, header, decision),
    ensures
        known.contains(header.dcid) ==> decision == Decision::Forward(header.dcid),
        !known.contains(header.dcid) && known.contains(
            hmac_sha256(seed, header.dcid).subrange(0, 20),
        ) ==> decision == Decision::Forward(hmac_sha256(seed, header.dcid).subrange(0, 20)),
        decision is Forward <==> known.contains(header.dcid) || known.contains(
            hmac_sha256(seed, header.dcid).subrange(0, 20),
        ),
{
}

/// A packet that leads to no connection is dropped unless it is Initial.
pub proof fn lemma_stray_packet_is_dropped(
    known: Set<Seq<u8>>,
    seed: Seq<u8>,
    secret: Seq<u8>,
    ip: IpAddr,
    header: HeaderFields,
    decision: Decision,
)
    requires
        proper_decision(known, seed, secret, ip, header, decision),
        !known.contains(header.dcid),
        !known.contains(hmac_sha256(seed, header.dcid).subrange(0, 20)),
    ensures
        decision == Decision::Discard(Discard::NotInitial) <==> !(header.ty is Initial),
{
}

/// An Initial packet that leads to no connection is answered with version negotiation, for its own
/// connection IDs, if and only if its version is not the supported one.
pub proof fn lemma_other_version_is_negotiated(
    known: Set<Seq<u8>>,
    seed: Seq<u8>,
    secret: Seq<u8>,
    ip: IpAddr,
    header: HeaderFields,
    decision: Decision,
)
    requires
        proper_decision(known, seed, secret, ip, header, decision),
        !known.contains(header.dcid),
        !known.contains(hmac_sha256(seed, header.dcid).subrange(0, 20)),
        header.ty is Initial,
    ensures
        header.version != 1 ==> decision == (Decision::NegotiateVersion {
            scid: header.scid,
            dcid: header.dcid,
        }),
        header.version == 1 ==> !(decision is NegotiateVersion),
{
}

/// An Initial packet of the supported version that leads to no connection and has an empty token is
/// answered with a Retry packet, whatever its connection IDs and wherever it came from. The packet
/// goes to the source connection ID, comes from the derived one, and carries a token that was
/// minted at a second that the clock showed, with random bytes that were drawn for it, and that
/// validates, for the address the packet came from, to its destination connection ID.
pub proof fn lemma_first_packet_is_answered(
    known: Set<Seq<u8>>,
    seed: Seq<u8>,
    secret: Seq<u8>,
    ip: IpAddr,
    header: HeaderFields,
    decision: Decision,
)
    requires
        proper_decision(known, seed, secret, ip, header, decision),
        !known.contains(header.dcid),
        !known.contains(hmac_sha256(seed, header.dcid).subrange(0, 20)),
        hmac_sha256(seed, header.dcid).len() == 32,
        header.ty is Initial,
        header.version == 1,
        header.token == Some(Seq::<u8>::empty()),
        header.scid.len() <= 20,
    ensures
        decision is Reply,
        ({
            let packet = decision->Reply_0;
            let n = header.scid.len() as int;
            let token = packet.subrange(27 + n, packet.len() - 16);
            &&& packet.len() == 27 + n + token.len() + 16
            &&& packet[0] == 0xf0
            &&& packet.subrange(1, 5) == seq![0u8, 0u8, 0u8, 1u8]
            &&& packet[5] == n
            &&& packet.subrange(6, 6 + n) == header.scid
            &&& packet[6 + n] == 20
            &&& packet.subrange(7 + n, 27 + n) == hmac_sha256(seed, header.dcid).subrange(0, 20)
            &&& token.len() == ip.octets().len() + 8 + header.dcid.len() + 24
            &&& crate::crypto::ageless_verdict(token, secret, ip) == Some(header.dcid)
            &&& crate::random::can_draw(token.subrange(token.len() - 8, token.len() as int))
            &&& exists|now: Timestamp| #[trigger]
                crate::clock::can_show(now) && crate::crypto::opened_token(token, secret) == Some(
                    ip.octets() + crate::bytes::i64_be_bytes(now.seconds) + header.dcid,
                )
        }),
{
    let packet = decision->Reply_0;
    let n = header.scid.len() as int;
    assert(is_retry_for(packet, seed, secret, ip, header));
    let (token, now, random) = choose|token: Seq<u8>, now: Timestamp, random: Seq<u8>|
        {
            &&& crate::clock::can_show(now)
            &&& crate::random::can_draw(random)
            &&& #[trigger] crate::crypto::minted(
                token,
                ip,
                now.seconds,
                header.dcid,
                secret,
                random,
            )
            &&& packet == crate::packet::retry_packet(
                header.scid,
                header.dcid,
                derived_id(seed, header.dcid),
                token,
            )
            &&& packet.len() == 23 + header.scid.len() + MAX_CONN_ID_LEN + token.len()
        };
    assert(packet.subrange(27 + n, packet.len() - 16) =~= token);
    assert(packet.subrange(1, 5) =~= seq![0u8, 0u8, 0u8, 1u8]);
    assert(packet.subrange(6, 6 + n) =~= header.scid);
    assert(packet.subrange(7 + n, 27 + n) =~= hmac_sha256(seed, header.dcid).subrange(0, 20));
    crate::crypto::lemma_minted_layout(token, ip, now.seconds, header.dcid, secret, random);
    assert(token.subrange(token.len() - 8, token.len() as int) =~= random);
    crate::crypto::lemma_minted_token_validates(
        token,
        ip,
        now.seconds,
        header.dcid,
        secret,
        random,
        Timestamp { seconds: 0, nanos: 0 },
        None,
    );
    assert(crate::clock::can_show(now));
}

/// An Initial packet of the supported version that leads to no connection, and has a token that
/// opens to the octets of the address it came from, a second of the calendar and a connection ID,
/// is accepted with that connection ID if its destination connection ID has 20 bytes, and dropped
/// if not.
pub proof fn lemma_returned_token_is_accepted(
    known: Set<Seq<u8>>,
    seed: Seq<u8>,
    secret: Seq<u8>,
    ip: IpAddr,
    header: HeaderFields,
    token: Seq<u8>,
    minted_at: i64,
    odcid: Seq<u8>,
    decision: Decision,
)
    requires
        proper_decision(known, seed, secret, ip, header, decision),
        !known.contains(header.dcid),
        !known.contains(hmac_sha256(seed, header.dcid).subrange(0, 20)),
        header.ty is Initial,
        header.version == 1,
        header.token == Some(token),
        token.len() > 0,
        crate::crypto::opened_token(token, secret) == Some(
            ip.octets() + crate::bytes::i64_be_bytes(minted_at) + odcid,
        ),
        crate::clock::representable(minted_at as int),
    ensures
        header.dcid.len() == 20 ==> decision == (Decision::Accept { scid: header.dcid, odcid }),
        header.dcid.len() != 20 ==> decision == Decision::Discard(Discard::InvalidDestination),
{
    crate::crypto::lemma_token_verdict_exact(
        token,
        secret,
        ip,
        Timestamp { seconds: 0, nanos: 0 },
        None,
        odcid,
    );
}

/// An Initial packet of the supported version that leads to no connection, and has any other token,
/// is dropped on account of it: one that does not open under the secret, or opens to anything else.
pub proof fn lemma_other_token_is_refused(
    known: Set<Seq<u8>>,
    seed: Seq<u8>,
    secret: Seq<u8>,
    ip: IpAddr,
    header: HeaderFields,
    token: Seq<u8>,
    decision: Decision,
)
    requires
        proper_decision(known, seed, secret, ip, header, decision),
        !known.contains(header.dcid),
        !known.contains(hmac_sha256(seed, header.dcid).subrange(0, 20)),
        header.ty is Initial,
        header.version == 1,
        header.token == Some(token),
        token.len() > 0,
        forall|minted_at: i64, odcid: Seq<u8>|
            crate::clock::representable(minted_at as int) ==> crate::crypto::opened_token(
                token,
                secret,
            ) != Some(#[trigger] (ip.octets() + crate::bytes::i64_be_bytes(minted_at) + odcid)),
    ensures
        decision == Decision::Discard(Discard::InvalidToken),
{
    if let Some(odcid) = crate::crypto::ageless_verdict(token, secret, ip) {
        crate::crypto::lemma_token_verdict_exact(
            token,
            secret,
            ip,
            Timestamp { seconds: 0, nanos: 0 },
            None,
            odcid,
        );
        let minted_at = choose|minted_at: i64|
            {
                &&& crate::crypto::opened_token(token, secret) == Some(
                    ip.octets() + #[trigger] crate::bytes::i64_be_bytes(minted_at) + odcid,
                )
                &&& crate::clock::representable(minted_at as int)
            };
        assert(crate::crypto::opened_token(token, secret) == Some(
            ip.octets() + crate::bytes::i64_be_bytes(minted_at) + odcid,
        ));
    }
}

/// A token that was refused drops the packet; one that was accepted opens a connection, to the
/// packet's destination connection ID, if and only if that has 20 bytes.
pub proof fn lemma_verdict_decides(dcid: Seq<u8>, verdict: Option<Seq<u8>>)
    ensures
        verdict is None ==> decision_on_verdict(dcid, verdict) == Decision::Discard(
            Discard::InvalidToken,
        ),
        verdict matches Some(odcid) ==> if dcid.len() == 20 {
            decision_on_verdict(dcid, verdict) == (Decision::Accept { scid: dcid, odcid })
        } else {
            decision_on_verdict(dcid, verdict) == Decision::Discard(Discard::InvalidDestination)
        },
{
}

/// A connection ID that was registered leads to its connection from then on, and no other
/// connection ID leads elsewhere than before.
pub proof fn lemma_registered<S>(
    before: Map<Seq<u8>, S>,
    id: Seq<u8>,
    sender: S,
    after: Map<Seq<u8>, S>,
    other: Seq<u8>,
)
    requires
        registered(before, id, sender, after),
    ensures
        after.contains_key(id) && after[id] == sender,
        other != id ==> (after.contains_key(other) <==> before.contains_key(other)),
        other != id && before.contains_key(other) ==> after[other] == before[other],
{
}

/// A client that was accepted is known: once the connection ID of an accepted packet is registered,
/// the same packet, and every other to that connection ID, goes to the connection.
pub proof fn lemma_accepted_is_forwarded<S>(
    before: Map<Seq<u8>, S>,
    seed: Seq<u8>,
    secret: Seq<u8>,
    ip: IpAddr,
    header: HeaderFields,
    scid: Seq<u8>,
    odcid: Seq<u8>,
    sender: S,
    after: Map<Seq<u8>, S>,
    later: HeaderFields,
    later_ip: IpAddr,
    decision: Decision,
)
    requires
        proper_decision(
            before.dom(),
            seed,
            secret,
            ip,
            header,
            Decision::Accept { scid, odcid },
        ),
        registered(before, scid, sender, after),
        later.dcid == header.dcid,
        proper_decision(after.dom(), seed, secret, later_ip, later, decision),
    ensures
        decision == Decision::Forward(header.dcid),
        after[header.dcid] == sender,
{
    lemma_registered(before, scid, sender, after, scid);
    assert(after.dom().contains(scid));
}

/// The route of a packet: to a known connection by either connection ID first; without one, an
/// Initial packet of the supported version goes to a new token or to the check of the one it has,
/// and no other packet gets so far.
pub proof fn lemma_routes(known: Set<Seq<u8>>, header: HeaderFields, derived: Seq<u8>)
    ensures
        route_of(known, header, derived) is ByDestination <==> known.contains(header.dcid),
        route_of(known, header, derived) is ByDerived <==> known.contains(derived)
            && !known.contains(header.dcid),
        !known.contains(header.dcid) && !known.contains(derived) ==> {
            &&& route_of(known, header, derived) is NotInitial <==> !(header.ty is Initial)
            &&& route_of(known, header, derived) is UnsupportedVersion <==> header.ty is Initial
                && header.version != 1
            &&& route_of(known, header, derived) is NoToken <==> header.ty is Initial
                && header.version == 1 && header.token == Some(Seq::<u8>::empty())
        },
{
}

} // verus!
