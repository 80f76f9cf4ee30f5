//! The state of a connection, as the transport keeps it.
use quiche::Error as TransportError;
use std::time::Duration;
use vstd::prelude::*;

verus! {

/// `quiche::Connection`, the state of a connection.
#[verifier::external_type_specification]
#[verifier::external_body]
pub struct ExConnection(quiche::Connection);

/// `quiche::SendInfo`, the path and the time of a packet.
#[verifier::external_type_specification]
#[verifier::external_body]
pub struct ExSendInfo(quiche::SendInfo);

/// `quiche::RecvInfo`, the path of a received datagram.
#[verifier::external_type_specification]
#[verifier::external_body]
pub struct ExRecvInfo(quiche::RecvInfo);

/// What the other end is told when a connection is closed.
pub struct CloseReason {
    /// Whether the application closed it.
    pub app: bool,
    /// The code of the error.
    pub code: u64,
    /// The reason in words.
    pub reason: Seq<u8>,
}

/// How far a connection has got.
pub struct Status {
    /// Whether the handshake is complete.
    pub established: bool,
    /// Whether it is closed.
    pub closed: bool,
    /// Whether it waits for the last packets on its way to being closed.
    pub draining: bool,
    /// Why this end has closed it, if it has.
    pub local_error: Option<CloseReason>,
}

/// What a `quiche::Connection` holds of this.
pub uninterp spec fn status(connection: quiche::Connection) -> Status;

impl Status {
    /// Whether the connection sends and receives no more.
    pub open spec fn over(self) -> bool {
        self.closed || self.draining
    }

    /// Whether the connection can still be closed by this end.
    pub open spec fn can_close(self) -> bool {
        !self.over() && self.local_error is None
    }
}

/// Whether `quiche::Connection::send`, called on a connection with a buffer that holds `room`, can
/// give this result, and leave the connection and the buffer so.
pub uninterp spec fn can_send(
    before: quiche::Connection,
    room: Seq<u8>,
    result: Result<(usize, quiche::SendInfo), TransportError>,
    after: quiche::Connection,
    written: Seq<u8>,
) -> bool;

/// Whether `quiche::Connection::recv`, called on a connection with this datagram and this path, can
/// give this result, and leave the connection so.
pub uninterp spec fn can_receive(
    before: quiche::Connection,
    datagram: Seq<u8>,
    info: quiche::RecvInfo,
    result: Result<usize, TransportError>,
    after: quiche::Connection,
) -> bool;

/// Whether `quiche::Connection::on_timeout`, called on a connection, can leave it so.
pub uninterp spec fn can_time_out(before: quiche::Connection, after: quiche::Connection) -> bool;

/// Whether `quiche::Connection::timeout`, called on a connection, can ask for this timeout.
pub uninterp spec fn can_ask(connection: quiche::Connection, timeout: Option<Duration>) -> bool;

/// The characters of a name, where there is one.
pub open spec fn name_of(name: Option<&str>) -> Option<Seq<char>> {
    match name {
        Some(text) => Some(text@),
        None => None,
    }
}

/// The status of a connection that has just been made.
pub open spec fn fresh_status() -> Status {
    Status { established: false, closed: false, draining: false, local_error: None }
}

/// Whether `quiche::connect`, called with these values, can give this result.
pub uninterp spec fn can_connect(
    server_name: Option<Seq<char>>,
    scid: Seq<u8>,
    path: quiche::RecvInfo,
    config: quiche::Config,
    result: Result<quiche::Connection, TransportError>,
) -> bool;

/// `quiche::connect`, from `path.to` to `path.from`: a connection that has just been made, whose
/// server has to prove that it has the name. The settings stay as they are. A name with a zero
/// character is refused. Whether another is rests on the TLS library, and the connection on random
/// numbers: what can come of a call is what [`can_connect`] names.
#[verifier::external_body]
pub(crate) fn connect_on(
    server_name: Option<&str>,
    scid: &[u8],
    path: quiche::RecvInfo,
    config: &mut quiche::Config,
) -> (r: Result<quiche::Connection, TransportError>)
    requires
        crate::config::usable(crate::config::settings(*old(config))),
    ensures
        can_connect(name_of(server_name), scid@, path, *old(config), r),
        r matches Ok(connection) ==> status(connection) == fresh_status(),
        server_name matches Some(name) ==> (name@.contains('\0') ==> r is Err),
        crate::config::settings(*final(config)) == crate::config::settings(*old(config)),
{
    let scid = quiche::ConnectionId::from_ref(scid);
    quiche::connect(server_name, &scid, path.to, path.from, config)
}

/// Whether `quiche::accept`, called with these values, can give this result.
pub uninterp spec fn can_accept(
    scid: Seq<u8>,
    odcid: Seq<u8>,
    path: quiche::RecvInfo,
    config: quiche::Config,
    result: Result<quiche::Connection, TransportError>,
) -> bool;

/// `quiche::accept`, at `path.to` from `path.from`, of a client that was answered with a Retry
/// packet: a connection that has just been made. The settings stay as they are. Whether it succeeds
/// rests on the TLS library: what can come of a call is what [`can_accept`] names.
#[verifier::external_body]
pub(crate) fn accept_on(
    scid: &[u8],
    odcid: &[u8],
    path: quiche::RecvInfo,
    config: &mut quiche::Config,
) -> (r: Result<quiche::Connection, TransportError>)
    requires
        crate::config::usable(crate::config::settings(*old(config))),
    ensures
        can_accept(scid@, odcid@, path, *old(config), r),
        r matches Ok(connection) ==> status(connection) == fresh_status(),
        crate::config::settings(*final(config)) == crate::config::settings(*old(config)),
{
    let scid = quiche::ConnectionId::from_ref(scid);
    let odcid = quiche::ConnectionId::from_ref(odcid);
    quiche::accept(&scid, Some(&odcid), path.to, path.from, config)
}

/// `quiche::Connection::send`: it writes a packet to the front of the buffer. It fails with
/// `BufferTooShort` if the buffer is empty, and with `Done` if the connection is over: neither
/// changes anything. On success it wrote no more bytes than the buffer holds. Which packet it
/// writes otherwise, and whether, rests on the connection and the time, and is not stated.
pub assume_specification[ quiche::Connection::send ](
    connection: &mut quiche::Connection,
    out: &mut [u8],
) -> (r: quiche::Result<(usize, quiche::SendInfo)>)
    ensures
        can_send(*old(connection), old(out)@, r, *final(connection), final(out)@),
        final(out)@.len() == old(out)@.len(),
        r matches Ok(written) ==> written.0 <= old(out)@.len(),
        old(out)@.len() == 0 ==> (r matches Err(err) && err is BufferTooShort),
        old(out)@.len() > 0 && status(*old(connection)).over() ==> (r matches Err(err) && err is Done),
        old(out)@.len() == 0 || status(*old(connection)).over() ==> *final(connection) == *old(
            connection,
        ) && final(out)@ == old(out)@,
;

/// `quiche::Connection::recv`: it fails with `BufferTooShort` if the datagram is empty, which
/// changes nothing. What it makes of another datagram rests on the connection and the time, and is
/// not stated.
pub assume_specification[ quiche::Connection::recv ](
    connection: &mut quiche::Connection,
    buf: &mut [u8],
    info: quiche::RecvInfo,
) -> (r: quiche::Result<usize>)
    ensures
        can_receive(*old(connection), old(buf)@, info, r, *final(connection)),
        final(buf)@.len() == old(buf)@.len(),
        old(buf)@.len() == 0 ==> (r matches Err(err) && err is BufferTooShort),
        old(buf)@.len() == 0 ==> *final(connection) == *old(connection),
;

/// `quiche::Connection::close`: if the connection can be closed, it is from now on closed for the
/// reason given. If not, it fails with `Done` and changes nothing. An application can give a reason
/// only once the handshake is complete.
pub assume_specification[ quiche::Connection::close ](
    connection: &mut quiche::Connection,
    app: bool,
    err: u64,
    reason: &[u8],
) -> (r: quiche::Result<()>)
    ensures
        status(*old(connection)).can_close() ==> {
            &&& r is Ok
            &&& status(*final(connection)).local_error is Some
            &&& !app || status(*old(connection)).established ==> status(
                *final(connection),
            ).local_error == Some(CloseReason { app, code: err, reason: reason@ })
            &&& status(*final(connection)).established == status(*old(connection)).established
        },
        !status(*old(connection)).can_close() ==> (r matches Err(err) && err is Done),
        !status(*old(connection)).can_close() ==> *final(connection) == *old(connection),
;

/// `quiche::Connection::on_timeout`: a connection that has run out of time is closed, and its
/// status does not change otherwise. Whether it has, and what else is done, rests on the connection
/// and the time, and is not stated.
pub assume_specification[ quiche::Connection::on_timeout ](connection: &mut quiche::Connection)
    ensures
        can_time_out(*old(connection), *final(connection)),
        status(*old(connection)).closed ==> status(*final(connection)).closed,
        status(*final(connection)) == (Status {
            closed: status(*final(connection)).closed,
            ..status(*old(connection))
        }),
;

/// `quiche::Connection::timeout`: there is none for a closed connection. For another it rests on
/// the connection and the time, and is not stated.
pub assume_specification[ quiche::Connection::timeout ](connection: &quiche::Connection) -> (r:
    Option<Duration>)
    ensures
        can_ask(*connection, r),
        status(*connection).closed ==> r is None,
;

/// `quiche::Connection::is_established`: whether the handshake is complete.
pub assume_specification[ quiche::Connection::is_established ](
    connection: &quiche::Connection,
) -> (r: bool)
    ensures
        r == status(*connection).established,
;

/// `quiche::Connection::is_closed`: whether the connection is closed.
pub assume_specification[ quiche::Connection::is_closed ](connection: &quiche::Connection) -> (r:
    bool)
    ensures
        r == status(*connection).closed,
;

} // verus!
