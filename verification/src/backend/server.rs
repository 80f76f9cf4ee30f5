//! The connection of a server, between the listener's socket and its streams.
use crate::address::SocketAddr;
use crate::backend::client::{self, RecvAction, SendAction};
use crate::backend::send::SendEvent;
use crate::backend::transport::accept_on;
use quiche::Error as TransportError;
use vstd::prelude::*;

verus! {

/// A connection, and the address that its last datagram came from.
pub struct Inner {
    pub endpoint: client::Inner,
    pub last_address: Option<SocketAddr>,
}

/// What a poll for sending comes to: nothing as long as there is no address to send to, else what
/// it comes to for the connection.
pub open spec fn send_outcome(before: Inner, event: SendEvent, after: Inner, action: SendAction) -> bool {
    &&& after.last_address == before.last_address
    &&& match before.last_address {
        None => action is Pending && after.endpoint == before.endpoint,
        Some(_) => crate::backend::client::send_outcome(
            before.endpoint,
            event,
            after.endpoint,
            action,
        ),
    }
}

/// What handing a datagram from an address to a connection comes to: the address is kept, and the
/// datagram goes to the connection.
pub open spec fn datagram_outcome(
    before: Inner,
    from: SocketAddr,
    datagram: Seq<u8>,
    info: quiche::RecvInfo,
    after: Inner,
    action: RecvAction,
) -> bool {
    &&& after.last_address == Some(from)
    &&& crate::backend::client::datagram_outcome(
        before.endpoint.connection,
        datagram,
        info,
        after.endpoint.connection,
        action,
    )
}

/// What accepting a client comes to: whatever becomes of an answer that the transport can give to
/// these values.
pub open spec fn accept_outcome(
    scid: Seq<u8>,
    odcid: Seq<u8>,
    path: quiche::RecvInfo,
    config: quiche::Config,
    r: Result<Inner, TransportError>,
) -> bool {
    exists|result: Result<quiche::Connection, TransportError>|
        #[trigger] crate::backend::transport::can_accept(scid, odcid, path, config, result)
            && taken_up(result, r)
}

impl Inner {
    /// A connection that has received and sent nothing yet.
    pub fn new(connection: quiche::Connection) -> (r: Self)
        ensures
            r.endpoint.connection == connection,
            r.endpoint.idle(),
            r.last_address is None,
    {
        Inner { endpoint: client::Inner::new(connection), last_address: None }
    }

    /// What to do about sending after an event: nothing as long as there is no address to send to.
    pub fn poll_send(&mut self, event: SendEvent) -> (action: SendAction)
        requires
            old(self).endpoint.send@.wf(),
            crate::backend::send::possible(old(self).endpoint.send@, event),
        ensures
            final(self).endpoint.send@.wf(),
            final(self).endpoint.timer == old(self).endpoint.timer,
            final(self).last_address == old(self).last_address,
            send_outcome(*old(self), event, *final(self), action),
            old(self).last_address is None ==> action is Pending && final(self).endpoint == old(
                self,
            ).endpoint,
            old(self).last_address is Some ==> crate::backend::client::send_outcome(
                old(self).endpoint,
                event,
                final(self).endpoint,
                action,
            ),
            action matches SendAction::Flush { from } ==> from
                <= final(self).endpoint.send@.bytes.len(),
            action matches SendAction::Transmit { from, to } ==> from <= to
                <= final(self).endpoint.send@.bytes.len(),
    {
        if self.last_address.is_none() {
            return SendAction::Pending;
        }
        self.endpoint.poll_send(event)
    }

    /// Hands a datagram to the connection. From now on it sends to where the datagram came from.
    pub fn poll_recv(&mut self, from: SocketAddr, data: &mut [u8], info: quiche::RecvInfo) -> (action:
        RecvAction)
        ensures
            final(self).last_address == Some(from),
            datagram_outcome(*old(self), from, old(data)@, info, *final(self), action),
            exists|result: Result<usize, TransportError>, answered: quiche::Connection|
                #[trigger] crate::backend::client::recv_outcome(
                    answered,
                    result,
                    final(self).endpoint.connection,
                    action,
                ) && crate::backend::transport::can_receive(
                    old(self).endpoint.connection,
                    old(data)@,
                    info,
                    result,
                    answered,
                ),
            old(data)@.len() == 0 ==> crate::backend::client::recv_outcome(
                old(self).endpoint.connection,
                Err(TransportError::BufferTooShort),
                final(self).endpoint.connection,
                action,
            ),
            final(data)@.len() == old(data)@.len(),
            final(self).endpoint.send == old(self).endpoint.send,
            final(self).endpoint.timer == old(self).endpoint.timer,
    {
        self.last_address = Some(from);
        self.endpoint.poll_recv(data, info)
    }
}

/// What becomes of the transport's answer when it was asked to accept a client: a connection that
/// has received and sent nothing yet, or the same error.
pub open spec fn taken_up(
    result: Result<quiche::Connection, TransportError>,
    r: Result<Inner, TransportError>,
) -> bool {
    match result {
        Ok(connection) => r matches Ok(inner) && inner.endpoint.connection == connection
            && inner.endpoint.idle() && inner.last_address is None,
        Err(err) => r == Err::<Inner, TransportError>(err),
    }
}

/// Takes up what the transport answered when it was asked to accept a client.
pub fn on_accepted(result: Result<quiche::Connection, TransportError>) -> (r: Result<
    Inner,
    TransportError,
>)
    ensures
        taken_up(result, r),
        result matches Ok(connection) ==> (r matches Ok(inner) && inner.endpoint.connection
            == connection),
        result matches Err(err) ==> (r matches Err(e) && e == err),
{
    match result {
        Ok(connection) => Ok(Inner::new(connection)),
        Err(err) => Err(err),
    }
}

/// Accepts a client on a path whose token was validated: `scid` is the connection ID that it was
/// told to use, and `odcid` the one that it used first.
pub fn accept(scid: &[u8], odcid: &[u8], path: quiche::RecvInfo, config: &mut quiche::Config) -> (r:
    Result<Inner, TransportError>)
    requires
        crate::config::usable(crate::config::settings(*old(config))),
    ensures
        exists|result: Result<quiche::Connection, TransportError>|
            #[trigger] crate::backend::transport::can_accept(
                scid@,
                odcid@,
                path,
                *old(config),
                result,
            ) && taken_up(result, r),
        accept_outcome(scid@, odcid@, path, *old(config), r),
        r matches Ok(inner) ==> crate::backend::transport::status(inner.endpoint.connection)
            == crate::backend::transport::fresh_status(),
        crate::config::settings(*final(config)) == crate::config::settings(*old(config)),
{
    let result = accept_on(scid, odcid, path, config);
    let ghost answer = result;
    let r = on_accepted(result);
    assert(crate::backend::transport::can_accept(scid@, odcid@, path, *old(config), answer)
        && taken_up(answer, r));
    r
}

/// A server does not send before it knows where to: until a datagram has come from somewhere there
/// is nothing to send, and nothing changes. From then on it sends as any connection does, and a
/// poll for sending does not change where to.
pub proof fn lemma_no_sending_without_address(
    before: Inner,
    event: SendEvent,
    after: Inner,
    action: SendAction,
)
    requires
        send_outcome(before, event, after, action),
    ensures
        after.last_address == before.last_address,
        before.last_address is None ==> {
            &&& action is Pending
            &&& after.endpoint.connection == before.endpoint.connection
            &&& after.endpoint.send == before.endpoint.send
        },
        before.last_address is Some ==> crate::backend::client::send_outcome(
            before.endpoint,
            event,
            after.endpoint,
            action,
        ),
{
}

/// A server answers to where the last datagram came from, whatever became of it, and the datagram
/// reaches the connection: the next poll for sending is one of the connection.
pub proof fn lemma_answers_last_address(
    before: Inner,
    from: SocketAddr,
    datagram: Seq<u8>,
    info: quiche::RecvInfo,
    between: Inner,
    received: RecvAction,
    event: SendEvent,
    after: Inner,
    sent: SendAction,
)
    requires
        datagram_outcome(before, from, datagram, info, between, received),
        send_outcome(between, event, after, sent),
    ensures
        after.last_address == Some(from),
        crate::backend::client::send_outcome(between.endpoint, event, after.endpoint, sent),
        exists|result: Result<usize, TransportError>, answered: quiche::Connection|
            {
                &&& #[trigger] crate::backend::transport::can_receive(
                    before.endpoint.connection,
                    datagram,
                    info,
                    result,
                    answered,
                )
                &&& received is Ready <==> result is Ok || (result matches Err(err) && err is Done)
                &&& received is Ready ==> between.endpoint.connection == answered
            },
{
    crate::backend::client::lemma_datagram_reaches_connection(
        before.endpoint.connection,
        datagram,
        info,
        between.endpoint.connection,
        received,
    );
}

/// A connection that the transport accepted is taken up as it is, with an empty buffer for one
/// datagram, no timer and no address to send to; an error of the transport is passed on. One does
/// not become the other.
pub proof fn lemma_client_taken_up(
    result: Result<quiche::Connection, TransportError>,
    r: Result<Inner, TransportError>,
)
    requires
        taken_up(result, r),
    ensures
        result is Ok <==> r is Ok,
        result matches Ok(connection) ==> (r matches Ok(inner) && {
            &&& inner.endpoint.connection == connection
            &&& inner.endpoint.send@.bytes.len() == crate::config::MAX_DATAGRAM_SIZE
            &&& inner.endpoint.send@.pos == 0
            &&& inner.endpoint.send@.end == 0
            &&& !inner.endpoint.send@.flush
            &&& inner.endpoint.timer is Unset
            &&& inner.last_address is None
        }),
        result matches Err(err) ==> r == Err::<Inner, TransportError>(err),
{
}

/// Accepting asks the transport for a connection with exactly these two connection IDs, this path
/// and this config, and comes to what the transport answers.
pub proof fn lemma_accepting(
    scid: Seq<u8>,
    odcid: Seq<u8>,
    path: quiche::RecvInfo,
    config: quiche::Config,
    r: Result<Inner, TransportError>,
)
    requires
        accept_outcome(scid, odcid, path, config, r),
    ensures
        r matches Ok(inner) ==> {
            &&& crate::backend::transport::can_accept(
                scid,
                odcid,
                path,
                config,
                Ok(inner.endpoint.connection),
            )
            &&& inner.endpoint.send@.end == 0
            &&& inner.endpoint.timer is Unset
            &&& inner.last_address is None
        },
        r matches Err(err) ==> crate::backend::transport::can_accept(
            scid,
            odcid,
            path,
            config,
            Err(err),
        ),
{
}

} // verus!
