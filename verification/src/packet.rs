//! Packets that are read and written outside a connection: the header of a datagram, version
//! negotiation and stateless retry.
use crate::bytes::be_bytes_4;
use quiche::Error as TransportError;
use quiche::Type as PacketType;
use vstd::prelude::*;

verus! {

/// `quiche::Error`, with its variants.
#[verifier::external_type_specification]
pub struct ExTransportError(TransportError);

/// `quiche::Type`, the type of a packet, with its variants.
#[verifier::external_type_specification]
pub struct ExPacketType(PacketType);

/// The longest connection ID of the supported version.
pub const MAX_CONN_ID_LEN: usize = 20;

/// The supported version of the protocol.
pub const PROTOCOL_VERSION: u32 = 1;

/// The header of a packet.
#[derive(Debug)]
pub struct Header {
    pub ty: PacketType,
    pub version: u32,
    pub dcid: Vec<u8>,
    pub scid: Vec<u8>,
    pub token: Option<Vec<u8>>,
}

/// The fields of a [`Header`] as mathematical values.
pub struct HeaderFields {
    pub ty: PacketType,
    pub version: u32,
    pub dcid: Seq<u8>,
    pub scid: Seq<u8>,
    pub token: Option<Seq<u8>>,
}

impl View for Header {
    type V = HeaderFields;

    open spec fn view(&self) -> HeaderFields {
        HeaderFields {
            ty: self.ty,
            version: self.version,
            dcid: self.dcid@,
            scid: self.scid@,
            token: match self.token {
                Some(token) => Some(token@),
                None => None,
            },
        }
    }
}

/// What `quiche::Header::from_slice` reads from a datagram whose short headers hold destination
/// connection IDs of `dcid_len` bytes.
pub uninterp spec fn parsed_header(datagram: Seq<u8>, dcid_len: int) -> Result<
    HeaderFields,
    TransportError,
>;

/// The tag that `quiche::retry` computes for a Retry packet that answers a packet with the
/// destination connection ID `dcid`.
pub uninterp spec fn retry_integrity_tag(dcid: Seq<u8>, packet: Seq<u8>) -> Seq<u8>;

/// What holds of every header that can be read: an Initial packet has a token, a packet of the
/// supported version has connection IDs that are not too long, no connection ID is longer than a
/// byte can count, and the token lies in the datagram.
pub open spec fn plausible_header(h: HeaderFields, datagram: Seq<u8>) -> bool {
    &&& h.ty is Initial ==> h.token is Some
    &&& h.version == PROTOCOL_VERSION ==> h.dcid.len() <= MAX_CONN_ID_LEN && h.scid.len()
        <= MAX_CONN_ID_LEN
    &&& h.dcid.len() <= 255
    &&& h.scid.len() <= 255
    &&& h.token matches Some(token) ==> token.len() <= datagram.len()
}

/// `quiche::Header::from_slice`: the header, or the error, that [`parsed_header`] names. The header
/// is a [`plausible_header`].
#[verifier::external_body]
pub(crate) fn parse_header(datagram: &[u8], dcid_len: usize) -> (r: Result<Header, TransportError>)
    requires
        dcid_len <= 255,
    ensures
        match r {
            Ok(header) => {
                &&& parsed_header(datagram@, dcid_len as int) == Ok::<_, TransportError>(header@)
                &&& plausible_header(header@, datagram@)
            },
            Err(err) => parsed_header(datagram@, dcid_len as int) == Err::<HeaderFields, _>(err),
        },
{
    let mut bytes = datagram.to_vec();
    let h = quiche::Header::from_slice(&mut bytes, dcid_len)?;
    let (dcid, scid) = (h.dcid.to_vec(), h.scid.to_vec());
    Ok(Header { ty: h.ty, version: h.version, dcid, scid, token: h.token })
}

/// `quiche::version_is_supported`: only version 1 is.
#[verifier::external_body]
pub(crate) fn version_is_supported(version: u32) -> (r: bool)
    ensures
        r == (version == PROTOCOL_VERSION),
{
    quiche::version_is_supported(version)
}

/// A Version Negotiation packet behind its first byte: the version zero, the two connection IDs
/// with their lengths, and the one version that is supported.
pub open spec fn version_negotiation_tail(scid: Seq<u8>, dcid: Seq<u8>) -> Seq<u8> {
    be_bytes_4(0) + seq![scid.len() as u8] + scid + seq![dcid.len() as u8] + dcid + be_bytes_4(
        PROTOCOL_VERSION as int,
    )
}

/// Whether the bytes are a Version Negotiation packet that answers a packet with these connection
/// IDs: its first byte has the high bit set, and is random otherwise.
pub open spec fn is_version_negotiation(packet: Seq<u8>, scid: Seq<u8>, dcid: Seq<u8>) -> bool {
    &&& packet.len() > 0
    &&& packet[0] >= 0x80
    &&& packet.skip(1) == version_negotiation_tail(scid, dcid)
}

/// `quiche::negotiate_version` on a buffer of the given size: it writes a Version Negotiation
/// packet if the buffer is long enough, and fails with `BufferTooShort` if not.
#[verifier::external_body]
pub(crate) fn negotiate_version(scid: &[u8], dcid: &[u8], size: usize) -> (r: Result<
    Vec<u8>,
    TransportError,
>)
    requires
        scid@.len() <= 255,
        dcid@.len() <= 255,
    ensures
        match r {
            Ok(packet) => 11 + scid@.len() + dcid@.len() <= size && is_version_negotiation(
                packet@,
                scid@,
                dcid@,
            ),
            Err(err) => 11 + scid@.len() + dcid@.len() > size && err is BufferTooShort,
        },
{
    let mut out = vec![0u8; size];
    let scid = quiche::ConnectionId::from_ref(scid);
    let dcid = quiche::ConnectionId::from_ref(dcid);
    let len = quiche::negotiate_version(&scid, &dcid, &mut out)?;
    out.truncate(len);
    Ok(out)
}

/// A Retry packet before its tag: the first byte, the version, the connection IDs with their
/// lengths, and the token.
pub open spec fn retry_header(scid: Seq<u8>, new_scid: Seq<u8>, token: Seq<u8>) -> Seq<u8> {
    seq![0xf0u8] + be_bytes_4(PROTOCOL_VERSION as int) + seq![scid.len() as u8] + scid + seq![
        new_scid.len() as u8,
    ] + new_scid + token
}

/// The Retry packet that answers a packet with the connection IDs `scid` and `dcid`: it is sent to
/// `scid`, comes from `new_scid` and carries the token.
pub open spec fn retry_packet(
    scid: Seq<u8>,
    dcid: Seq<u8>,
    new_scid: Seq<u8>,
    token: Seq<u8>,
) -> Seq<u8> {
    retry_header(scid, new_scid, token) + retry_integrity_tag(
        dcid,
        retry_header(scid, new_scid, token),
    )
}

/// `quiche::retry` on a buffer of the given size: it writes the Retry packet, whose tag
/// [`retry_integrity_tag`] names and has 16 bytes, if the version is supported and the buffer is
/// long enough. It fails with `UnknownVersion` or `BufferTooShort` if not.
#[verifier::external_body]
pub(crate) fn retry(
    scid: &[u8],
    dcid: &[u8],
    new_scid: &[u8],
    token: &[u8],
    version: u32,
    size: usize,
) -> (r: Result<Vec<u8>, TransportError>)
    requires
        scid@.len() <= 255,
        dcid@.len() <= 255,
        new_scid@.len() <= 255,
    ensures
        match r {
            Ok(packet) => {
                &&& version == PROTOCOL_VERSION
                &&& 23 + scid@.len() + new_scid@.len() + token@.len() <= size
                &&& packet@ == retry_header(scid@, new_scid@, token@) + retry_integrity_tag(
                    dcid@,
                    retry_header(scid@, new_scid@, token@),
                )
                &&& packet@.len() == 23 + scid@.len() + new_scid@.len() + token@.len()
            },
            Err(err) => if version != PROTOCOL_VERSION {
                err is UnknownVersion
            } else {
                23 + scid@.len() + new_scid@.len() + token@.len() > size && err is BufferTooShort
            },
        },
{
    let mut out = vec![0u8; size];
    let scid = quiche::ConnectionId::from_ref(scid);
    let dcid = quiche::ConnectionId::from_ref(dcid);
    let new_scid = quiche::ConnectionId::from_ref(new_scid);
    let len = quiche::retry(&scid, &dcid, &new_scid, token, version, &mut out)?;
    out.truncate(len);
    Ok(out)
}

} // verus!
