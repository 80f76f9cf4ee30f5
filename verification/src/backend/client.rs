//! The connection of a client, between its socket and its streams.
use crate::backend::send::{Produced, SendBuffer, SendEvent, SendState, SendStep};
use crate::backend::timer::Timer;
use crate::backend::transport::{connect_on, CloseReason};
use crate::config::MAX_DATAGRAM_SIZE;
use crate::error::{to_io_error, to_wire, Error};
use crate::random::random_bytes;
use quiche::Error as TransportError;
use std::time::{Duration, Instant};
use vstd::prelude::*;
use vstd::std_specs::ops::AddSpec;

verus! {

/// The bytes of the connection ID that a client chooses for itself.
pub const CLIENT_ID_LEN: usize = 16;

/// What to do about sending.
#[derive(Debug)]
pub enum SendAction {
    /// Hand the buffer from this position on to the socket, and report what it took as
    /// [`SendEvent::Flushed`].
    Flush { from: usize },
    /// Hand this part of the buffer to the socket, and report what it took as
    /// [`SendEvent::Transmitted`].
    Transmit { from: usize, to: usize },
    /// Wait: there is nothing to send.
    Pending,
    /// Nothing: the poll is over.
    Ready,
    /// Give up.
    Failed(Error),
}

/// What to do after a datagram was handed to the connection.
#[derive(Debug)]
pub enum RecvAction {
    /// Nothing: the poll is over.
    Ready,
    /// Wait: the connection is being closed.
    Pending,
    /// Give up.
    Failed(Error),
}

/// The error on account of which a connection is closed after it was handed a datagram.
pub open spec fn fatal(result: Result<usize, TransportError>) -> Option<TransportError> {
    match result {
        Ok(_) => None,
        Err(TransportError::Done) => None,
        Err(err) => Some(err),
    }
}

/// The error on account of which a connection is closed after it was handed a datagram: any but
/// `Done`.
pub fn fatal_error(result: Result<usize, TransportError>) -> (r: Option<TransportError>)
    ensures
        r == fatal(result),
{
    match result {
        Ok(_) => None,
        Err(TransportError::Done) => None,
        Err(err) => Some(err),
    }
}

/// The word "fail".
pub open spec fn fail_text() -> Seq<u8> {
    seq![0x66u8, 0x61u8, 0x69u8, 0x6cu8]
}

/// What the other end is told about an error: its code on the wire, as an error of the transport,
/// and the word "fail".
pub open spec fn close_reason(err: TransportError) -> CloseReason {
    CloseReason { app: false, code: crate::error::wire_code(err), reason: fail_text() }
}

/// What closing a connection on account of an error comes to: it is closed for the reason above,
/// or, if it cannot be closed any more, it stays as it is, and that is an error.
pub open spec fn close_outcome(
    before: quiche::Connection,
    err: TransportError,
    after: quiche::Connection,
    failure: Option<Error>,
) -> bool {
    if crate::backend::transport::status(before).can_close() {
        failure is None && crate::backend::transport::status(after).local_error == Some(close_reason(err))
    } else {
        failure == Some(Error::IoError(crate::error::other_io_error(TransportError::Done)))
            && after == before
    }
}

/// What comes of a connection's answer to a datagram: nothing more, unless the answer is an error
/// on account of which the connection is closed.
pub open spec fn recv_outcome(
    before: quiche::Connection,
    result: Result<usize, TransportError>,
    after: quiche::Connection,
    action: RecvAction,
) -> bool {
    match fatal(result) {
        None => action is Ready && after == before,
        Some(err) => match action {
            RecvAction::Ready => false,
            RecvAction::Pending => close_outcome(before, err, after, None),
            RecvAction::Failed(failure) => close_outcome(before, err, after, Some(failure)),
        },
    }
}

/// What comes of a connection's answer when it was asked for a packet.
pub open spec fn produce_outcome(
    before: quiche::Connection,
    produced: Produced,
    after: quiche::Connection,
    action: SendAction,
) -> bool {
    match produced {
        Produced::Transmit { from, to } => action == (SendAction::Transmit { from, to }) && after
            == before,
        Produced::Pending => action is Pending && after == before,
        Produced::Ready => action is Ready && after == before,
        Produced::Close(err) => match action {
            SendAction::Pending => close_outcome(before, err, after, None),
            SendAction::Failed(failure) => close_outcome(before, err, after, Some(failure)),
            _ => false,
        },
    }
}

/// Whether the connection can have answered so, and have left itself and the buffer so, when it was
/// asked for a packet at the end of what has been produced.
pub open spec fn can_answer(
    connection: quiche::Connection,
    asked: SendState,
    result: Result<usize, TransportError>,
    answered: quiche::Connection,
    written: SendState,
) -> bool {
    &&& written == (SendState { bytes: written.bytes, ..asked })
    &&& written.bytes.len() == asked.bytes.len()
    &&& written.bytes.subrange(0, asked.end) == asked.bytes.subrange(0, asked.end)
    &&& crate::backend::send::fits(written, result)
    &&& crate::backend::send::can_produce(connection, asked, result, answered, written)
    &&& crate::backend::send::silent(connection, asked) ==> {
        &&& result == Err::<usize, _>(crate::backend::send::silence(asked))
        &&& answered == connection
        &&& written == asked
    }
}

/// What may come of asking the connection for a packet: whatever follows from an answer it can
/// give.
pub open spec fn asked_outcome(
    connection: quiche::Connection,
    asked: SendState,
    after: Inner,
    action: SendAction,
) -> bool {
    exists|
        result: Result<usize, TransportError>,
        answered: quiche::Connection,
        written: SendState,
    |
        #[trigger] can_answer(connection, asked, result, answered, written) && after.send@
            == crate::backend::send::produced_of(written, result).0 && produce_outcome(
            answered,
            crate::backend::send::produced_of(written, result).1,
            after.connection,
            action,
        )
}

/// What may come of an event: a flush goes on, the poll is over, or the connection is asked for a
/// packet.
pub open spec fn send_outcome(before: Inner, event: SendEvent, after: Inner, action: SendAction) -> bool {
    let (next, step) = crate::backend::send::step_of(before.send@, event);
    match step {
        SendStep::Flush { from } => after.send@ == next && after.connection == before.connection
            && action == (SendAction::Flush { from }),
        SendStep::Ready => after.send@ == next && after.connection == before.connection
            && action is Ready,
        SendStep::Produce { at } => asked_outcome(before.connection, next, after, action),
    }
}

/// A connection, the buffer in front of its socket, and its timer.
pub struct Inner {
    pub connection: quiche::Connection,
    pub send: SendBuffer,
    pub timer: Timer,
}

/// What handling the timeout at a moment comes to: the connection handles it if the timer has run
/// down, and stays as it is if not. A closed connection stays closed.
pub open spec fn expired(before: Inner, now: Instant, after: Inner) -> bool {
    if before.timer.is_ready_at(now) {
        &&& crate::backend::transport::can_time_out(before.connection, after.connection)
        &&& crate::backend::transport::status(before.connection).closed
            ==> crate::backend::transport::status(after.connection).closed
    } else {
        after.connection == before.connection
    }
}

/// What setting the timer at a moment comes to: it runs down when the timeout has passed that the
/// connection asks for, where there is such a moment.
pub open spec fn rearmed(before: Inner, now: Instant, after: Inner, r: bool) -> bool {
    exists|timeout: Option<Duration>|
        {
            &&& #[trigger] crate::backend::transport::can_ask(before.connection, timeout)
            &&& crate::backend::transport::status(before.connection).closed ==> timeout is None
            &&& match Timer::armed(now, timeout) {
                Some(timer) => r && after.timer == timer,
                None => !r && after.timer == before.timer,
            }
        }
}

/// What handing a datagram to a connection comes to: whatever follows from an answer it can give to
/// this datagram on this path.
pub open spec fn datagram_outcome(
    before: quiche::Connection,
    datagram: Seq<u8>,
    info: quiche::RecvInfo,
    after: quiche::Connection,
    action: RecvAction,
) -> bool {
    exists|result: Result<usize, TransportError>, answered: quiche::Connection|
        #[trigger] recv_outcome(answered, result, after, action)
            && crate::backend::transport::can_receive(before, datagram, info, result, answered)
}

/// What a poll of the timer comes to: the timeout is handled at a moment that the clock shows, and
/// then the timer is set at one.
pub open spec fn timer_outcome(before: Inner, after: Inner, r: bool) -> bool {
    exists|checked: Instant, between: Inner, now: Instant|
        {
            &&& crate::backend::timer::can_show(checked)
            &&& crate::backend::timer::can_show(now)
            &&& #[trigger] expired(before, checked, between)
            &&& #[trigger] rearmed(between, now, after, r)
            &&& between.timer == before.timer
            &&& between.connection == after.connection
        }
}

impl Inner {
    /// Nothing was produced yet, and the timer is not set.
    pub open spec fn idle(self) -> bool {
        &&& self.send@.wf()
        &&& self.send@ == (SendState {
            flush: false,
            pos: 0,
            end: 0,
            bytes: Seq::new(MAX_DATAGRAM_SIZE as nat, |i: int| 0u8),
        })
        &&& self.timer is Unset
    }

    /// A connection that has sent nothing yet.
    pub fn new(connection: quiche::Connection) -> (r: Self)
        ensures
            r.connection == connection,
            r.idle(),
    {
        Inner { connection, send: SendBuffer::new(MAX_DATAGRAM_SIZE), timer: Timer::Unset }
    }

    /// Closes the connection on account of an error. The answer is what went wrong with that.
    fn close(&mut self, err: TransportError) -> (failure: Option<Error>)
        ensures
            close_outcome(old(self).connection, err, final(self).connection, failure),
            final(self).send == old(self).send,
            final(self).timer == old(self).timer,
    {
        let fail: [u8; 4] = [0x66, 0x61, 0x69, 0x6c];
        assert(fail@ =~= fail_text());
        match self.connection.close(false, to_wire(err), fail.as_slice()) {
            Ok(()) => None,
            Err(err) => Some(Error::IoError(to_io_error(err))),
        }
    }

    /// What follows from the connection's answer when it was asked for a packet.
    pub fn on_produced(&mut self, result: Result<usize, TransportError>) -> (action: SendAction)
        requires
            old(self).send@.wf(),
            !old(self).send@.flush,
            crate::backend::send::fits(old(self).send@, result),
        ensures
            final(self).send@.wf(),
            final(self).send@ == crate::backend::send::produced_of(old(self).send@, result).0,
            produce_outcome(
                old(self).connection,
                crate::backend::send::produced_of(old(self).send@, result).1,
                final(self).connection,
                action,
            ),
            final(self).timer == old(self).timer,
            action matches SendAction::Transmit { from, to } ==> from <= to
                <= final(self).send@.bytes.len(),
            result matches Ok(n) ==> {
                &&& action matches SendAction::Transmit { from, to } && from == old(self).send@.pos
                    && to == old(self).send@.end + n
                &&& final(self).send@.end == old(self).send@.end + n
            },
            result matches Err(err) ==> (err is Done ==> if old(self).send@.pos < old(
                self,
            ).send@.end {
                action matches SendAction::Transmit { from, to } && from == old(self).send@.pos
                    && to == old(self).send@.end
            } else {
                action is Pending
            }),
    {
        match self.send.on_produced(result) {
            Produced::Transmit { from, to } => SendAction::Transmit { from, to },
            Produced::Pending => SendAction::Pending,
            Produced::Ready => SendAction::Ready,
            Produced::Close(err) => match self.close(err) {
                None => SendAction::Pending,
                Some(failure) => SendAction::Failed(failure),
            },
        }
    }

    /// What to do about sending after an event.
    pub fn poll_send(&mut self, event: SendEvent) -> (action: SendAction)
        requires
            old(self).send@.wf(),
            crate::backend::send::possible(old(self).send@, event),
        ensures
            final(self).send@.wf(),
            final(self).timer == old(self).timer,
            send_outcome(*old(self), event, *final(self), action),
            action matches SendAction::Flush { from } ==> from <= final(self).send@.bytes.len(),
            action matches SendAction::Transmit { from, to } ==> from <= to
                <= final(self).send@.bytes.len(),
    {
        match self.send.step(event) {
            SendStep::Flush { from } => SendAction::Flush { from },
            SendStep::Ready => SendAction::Ready,
            SendStep::Produce { .. } => {
                let ghost asked = self.send@;
                let result = self.send.produce(&mut self.connection);
                let ghost answered = self.connection;
                let ghost written = self.send@;
                let ghost answer = result;
                let action = self.on_produced(result);
                assert(can_answer(old(self).connection, asked, answer, answered, written));
                assert(asked_outcome(old(self).connection, asked, *self, action));
                action
            },
        }
    }

    /// What follows from the connection's answer to a datagram.
    pub fn on_received(&mut self, result: Result<usize, TransportError>) -> (action: RecvAction)
        ensures
            recv_outcome(old(self).connection, result, final(self).connection, action),
            result is Ok ==> action is Ready && final(self).connection == old(self).connection,
            result matches Err(err) ==> if err is Done {
                action is Ready && final(self).connection == old(self).connection
            } else {
                action is Pending <==> crate::backend::transport::status(
                    old(self).connection,
                ).can_close()
            },
            result matches Err(err) ==> (!(err is Done) ==> !(action is Ready)),
            final(self).send == old(self).send,
            final(self).timer == old(self).timer,
    {
        match fatal_error(result) {
            None => RecvAction::Ready,
            Some(err) => match self.close(err) {
                None => RecvAction::Pending,
                Some(failure) => RecvAction::Failed(failure),
            },
        }
    }

    /// Hands a datagram to the connection. An empty one is an error.
    pub fn poll_recv(&mut self, data: &mut [u8], info: quiche::RecvInfo) -> (action: RecvAction)
        ensures
            exists|result: Result<usize, TransportError>, answered: quiche::Connection|
                #[trigger] recv_outcome(answered, result, final(self).connection, action)
                    && crate::backend::transport::can_receive(
                    old(self).connection,
                    old(data)@,
                    info,
                    result,
                    answered,
                ),
            datagram_outcome(
                old(self).connection,
                old(data)@,
                info,
                final(self).connection,
                action,
            ),
            old(data)@.len() == 0 ==> recv_outcome(
                old(self).connection,
                Err(TransportError::BufferTooShort),
                final(self).connection,
                action,
            ),
            final(data)@.len() == old(data)@.len(),
            final(self).send == old(self).send,
            final(self).timer == old(self).timer,
    {
        let result = self.connection.recv(data, info);
        self.on_received(result)
    }

    /// Lets the connection handle its timeout if the timer has run down at a moment.
    pub fn expire_at(&mut self, now: &Instant)
        ensures
            expired(*old(self), *now, *final(self)),
            final(self).send == old(self).send,
            final(self).timer == old(self).timer,
    {
        if self.timer.ready_at(now) {
            self.connection.on_timeout();
        }
    }

    /// Sets the timer to the timeout that the connection asks for, from a moment on. Where the
    /// clock cannot express when that is, the timer stays as it is, and the answer is `false`.
    pub fn rearm_at(&mut self, now: &Instant) -> (r: bool)
        ensures
            rearmed(*old(self), *now, *final(self), r),
            final(self).send == old(self).send,
            final(self).connection == old(self).connection,
    {
        let timeout = self.connection.timeout();
        let r = self.timer.arm_at(now, timeout);
        assert(crate::backend::transport::can_ask(self.connection, timeout));
        r
    }

    /// Lets the connection handle its timeout if the timer has run down by now, and then sets the
    /// timer to the next one. Where the clock cannot express when that is, the timer stays as it
    /// is, and the answer is `false`. A closed connection has no timer.
    pub fn poll_timer(&mut self) -> (r: bool)
        ensures
            final(self).send == old(self).send,
            exists|checked: Instant, between: Inner, now: Instant|
                {
                    &&& crate::backend::timer::can_show(checked)
                    &&& crate::backend::timer::can_show(now)
                    &&& #[trigger] expired(*old(self), checked, between)
                    &&& #[trigger] rearmed(between, now, *final(self), r)
                    &&& between.timer == old(self).timer
                    &&& between.connection == final(self).connection
                },
            timer_outcome(*old(self), *final(self), r),
            old(self).timer is Unset ==> final(self).connection == old(self).connection,
            crate::backend::transport::status(old(self).connection).closed
                ==> crate::backend::transport::status(final(self).connection).closed,
            crate::backend::transport::status(final(self).connection).closed ==> {
                r && final(self).timer is Unset
            },
    {
        let checked = Instant::now();
        self.expire_at(&checked);
        let ghost between = *self;
        let now = Instant::now();
        let r = self.rearm_at(&now);
        assert(expired(*old(self), checked, between) && rearmed(between, now, *self, r));
        r
    }

    /// Whether the handshake is complete.
    pub fn is_established(&self) -> (r: bool)
        ensures
            r == crate::backend::transport::status(self.connection).established,
    {
        self.connection.is_established()
    }

    /// Whether the connection is closed.
    pub fn is_closed(&self) -> (r: bool)
        ensures
            r == crate::backend::transport::status(self.connection).closed,
    {
        self.connection.is_closed()
    }
}

/// Draws the connection ID that a client chooses for itself.
pub fn client_id() -> (id: Vec<u8>)
    ensures
        id@.len() == CLIENT_ID_LEN,
        crate::random::can_draw(id@),
{
    random_bytes(CLIENT_ID_LEN)
}

/// What becomes of the transport's answer when it was asked for a connection: a connection that has
/// sent nothing yet, or the same error.
pub open spec fn taken_up(
    result: Result<quiche::Connection, TransportError>,
    r: Result<Inner, TransportError>,
) -> bool {
    match result {
        Ok(connection) => r matches Ok(inner) && inner.connection == connection && inner.idle(),
        Err(err) => r == Err::<Inner, TransportError>(err),
    }
}

/// Takes up what the transport answered when it was asked for a connection.
pub fn on_connected(result: Result<quiche::Connection, TransportError>) -> (r: Result<
    Inner,
    TransportError,
>)
    ensures
        taken_up(result, r),
        result matches Ok(connection) ==> (r matches Ok(inner) && inner.connection == connection),
        result matches Err(err) ==> (r matches Err(e) && e == err),
{
    match result {
        Ok(connection) => Ok(Inner::new(connection)),
        Err(err) => Err(err),
    }
}

/// What opening a connection to a server under a connection ID comes to: whatever becomes of an
/// answer that the transport can give to these values.
pub open spec fn connect_outcome(
    server_name: Option<Seq<char>>,
    scid: Seq<u8>,
    path: quiche::RecvInfo,
    config: quiche::Config,
    r: Result<Inner, TransportError>,
) -> bool {
    exists|result: Result<quiche::Connection, TransportError>|
        #[trigger] crate::backend::transport::can_connect(server_name, scid, path, config, result)
            && taken_up(result, r)
}

/// Whether a name cannot be that of a server: it has a zero character.
pub open spec fn unspeakable(name: Option<Seq<char>>) -> bool {
    name matches Some(text) && text.contains('\0')
}

/// Opens a connection to a server on a path, under a connection ID. If a name is given, the server
/// has to prove that it has it.
pub fn connect_as(
    server_name: Option<&str>,
    scid: &[u8],
    path: quiche::RecvInfo,
    config: &mut quiche::Config,
) -> (r: Result<Inner, TransportError>)
    requires
        crate::config::usable(crate::config::settings(*old(config))),
    ensures
        exists|result: Result<quiche::Connection, TransportError>|
            #[trigger] crate::backend::transport::can_connect(
                crate::backend::transport::name_of(server_name),
                scid@,
                path,
                *old(config),
                result,
            ) && taken_up(result, r),
        connect_outcome(
            crate::backend::transport::name_of(server_name),
            scid@,
            path,
            *old(config),
            r,
        ),
        r matches Ok(inner) ==> crate::backend::transport::status(inner.connection)
            == crate::backend::transport::fresh_status(),
        unspeakable(crate::backend::transport::name_of(server_name)) ==> r is Err,
        server_name matches Some(name) ==> (name@.contains('\0') ==> r is Err),
        crate::config::settings(*final(config)) == crate::config::settings(*old(config)),
{
    let result = connect_on(server_name, scid, path, config);
    let ghost answer = result;
    let r = on_connected(result);
    assert(crate::backend::transport::can_connect(
        crate::backend::transport::name_of(server_name),
        scid@,
        path,
        *old(config),
        answer,
    ) && taken_up(answer, r));
    r
}

/// Opens a connection to a server on a path, under a connection ID that is drawn for it. If a name
/// is given, the server has to prove that it has it.
pub fn connect(
    server_name: Option<&str>,
    path: quiche::RecvInfo,
    config: &mut quiche::Config,
) -> (r: Result<Inner, TransportError>)
    requires
        crate::config::usable(crate::config::settings(*old(config))),
    ensures
        exists|id: Seq<u8>, result: Result<quiche::Connection, TransportError>|
            {
                &&& id.len() == CLIENT_ID_LEN
                &&& crate::random::can_draw(id)
                &&& #[trigger] crate::backend::transport::can_connect(
                    crate::backend::transport::name_of(server_name),
                    id,
                    path,
                    *old(config),
                    result,
                )
                &&& taken_up(result, r)
            },
        exists|id: Seq<u8>|
            {
                &&& id.len() == CLIENT_ID_LEN
                &&& crate::random::can_draw(id)
                &&& #[trigger] connect_outcome(
                    crate::backend::transport::name_of(server_name),
                    id,
                    path,
                    *old(config),
                    r,
                )
            },
        r matches Ok(inner) ==> crate::backend::transport::status(inner.connection)
            == crate::backend::transport::fresh_status(),
        unspeakable(crate::backend::transport::name_of(server_name)) ==> r is Err,
        server_name matches Some(name) ==> (name@.contains('\0') ==> r is Err),
        crate::config::settings(*final(config)) == crate::config::settings(*old(config)),
{
    let scid = client_id();
    connect_as(server_name, scid.as_slice(), path, config)
}

/// A connection that is over is not changed by asking it for packets, and there is no failure: what
/// was produced before is still handed to the socket, and then there is nothing to send.
pub proof fn lemma_over_is_silent(before: Inner, event: SendEvent, after: Inner, action: SendAction)
    requires
        before.send@.wf(),
        crate::backend::send::possible(before.send@, event),
        crate::backend::transport::status(before.connection).over(),
        send_outcome(before, event, after, action),
    ensures
        after.connection == before.connection,
        !(action is Failed),
        action is Pending ==> after.send@.pos == after.send@.end,
{
}

/// A connection is closed once: after that no error changes why, and closing it again is an error.
pub proof fn lemma_closed_once(
    before: quiche::Connection,
    first: TransportError,
    between: quiche::Connection,
    second: TransportError,
    after: quiche::Connection,
    failure: Option<Error>,
)
    requires
        close_outcome(before, first, between, None),
        close_outcome(between, second, after, failure),
    ensures
        failure is Some,
        after == between,
        crate::backend::transport::status(after).local_error == Some(close_reason(first)),
{
}

/// A connection is closed on account of an error if it still can be: then the other end is told the
/// code of that error, as one of the transport, and the word "fail". If it cannot, nothing changes,
/// and the failure is an I/O error around `Done`.
pub proof fn lemma_closing(
    before: quiche::Connection,
    err: TransportError,
    after: quiche::Connection,
    failure: Option<Error>,
)
    requires
        close_outcome(before, err, after, failure),
    ensures
        ({
            let status = crate::backend::transport::status(before);
            let open = !status.closed && !status.draining && status.local_error is None;
            &&& open <==> failure is None
            &&& open ==> {
                &&& crate::backend::transport::status(after).local_error matches Some(reason)
                &&& !reason.app
                &&& reason.code == crate::error::wire_code(err)
                &&& reason.reason == seq!['f' as u8, 'a' as u8, 'i' as u8, 'l' as u8]
            }
            &&& !open ==> {
                &&& after == before
                &&& failure == Some(
                    Error::IoError(crate::error::other_io_error(TransportError::Done)),
                )
            }
        }),
{
    assert('f' as u8 == 0x66u8 && 'a' as u8 == 0x61u8 && 'i' as u8 == 0x69u8 && 'l' as u8
        == 0x6cu8);
}

/// If a connection takes a datagram, or has no use for it, the poll is over with something done,
/// and the connection is left as it answered. Any other answer closes it on account of that error:
/// then there is nothing to do, unless it could not be closed, which is a failure.
pub proof fn lemma_datagram_taken_or_closed(
    before: quiche::Connection,
    result: Result<usize, TransportError>,
    after: quiche::Connection,
    action: RecvAction,
)
    requires
        recv_outcome(before, result, after, action),
    ensures
        result is Ok || result == Err::<usize, TransportError>(TransportError::Done) ==> {
            action is Ready && after == before
        },
        result matches Err(err) ==> (!(err is Done) ==> {
            let status = crate::backend::transport::status(before);
            let open = !status.closed && !status.draining && status.local_error is None;
            &&& open ==> {
                &&& action is Pending
                &&& crate::backend::transport::status(after).local_error matches Some(reason)
                &&& !reason.app
                &&& reason.code == crate::error::wire_code(err)
                &&& reason.reason == seq![0x66u8, 0x61u8, 0x69u8, 0x6cu8]
            }
            &&& !open ==> {
                &&& action is Failed
                &&& after == before
            }
        }),
{
    if let Err(err) = result {
        if let RecvAction::Failed(failure) = action {
            if !(err is Done) {
                lemma_closing(before, err, after, Some(failure));
            }
        }
    }
}

/// Handing a datagram to a connection gives it this datagram, on this path, and no other: the poll
/// is over with something done exactly if the connection takes it or has no use for it.
pub proof fn lemma_datagram_reaches_connection(
    before: quiche::Connection,
    datagram: Seq<u8>,
    info: quiche::RecvInfo,
    after: quiche::Connection,
    action: RecvAction,
)
    requires
        datagram_outcome(before, datagram, info, after, action),
    ensures
        exists|result: Result<usize, TransportError>, answered: quiche::Connection|
            {
                &&& #[trigger] crate::backend::transport::can_receive(
                    before,
                    datagram,
                    info,
                    result,
                    answered,
                )
                &&& action is Ready <==> result is Ok || (result matches Err(err) && err is Done)
                &&& action is Ready ==> after == answered
            },
{
    let (result, answered) = choose|
        result: Result<usize, TransportError>,
        answered: quiche::Connection,
    |
        #[trigger] recv_outcome(answered, result, after, action)
            && crate::backend::transport::can_receive(before, datagram, info, result, answered);
    assert(crate::backend::transport::can_receive(before, datagram, info, result, answered));
    lemma_datagram_taken_or_closed(answered, result, after, action);
}

/// When the connection gives a packet, what is handed to the socket starts where the socket has got
/// to and ends where the packet ends; so it holds the packet, and is empty only if nothing was left
/// over and the packet is. When it has none, what is left over is handed to the socket, and if
/// nothing is, there is nothing to send. Any other error closes the connection.
pub proof fn lemma_answer_is_sent(
    before: quiche::Connection,
    state: SendState,
    result: Result<usize, TransportError>,
    after: quiche::Connection,
    action: SendAction,
)
    requires
        state.wf(),
        !state.flush,
        state.bytes.len() <= usize::MAX,
        result matches Ok(n) ==> state.end + n <= state.bytes.len(),
        produce_outcome(
            before,
            crate::backend::send::produced_of(state, result).1,
            after,
            action,
        ),
    ensures
        result matches Ok(n) ==> {
            &&& action matches SendAction::Transmit { from, to } && from == state.pos && to == state.end
                + n && (n > 0 ==> from < to)
            &&& after == before
        },
        result matches Err(err) ==> {
            &&& err is Done && state.pos < state.end ==> {
                &&& action matches SendAction::Transmit { from, to } && from == state.pos && to
                    == state.end
                &&& after == before
            }
            &&& err is Done && state.pos == state.end ==> action is Pending && after == before
            &&& err is BufferTooShort ==> action is Ready && after == before
            &&& !(err is Done) && !(err is BufferTooShort) ==> {
                let status = crate::backend::transport::status(before);
                let open = !status.closed && !status.draining && status.local_error is None;
                &&& open ==> action is Pending && (crate::backend::transport::status(
                    after,
                ).local_error matches Some(reason) && !reason.app && reason.code
                    == crate::error::wire_code(err))
                &&& !open ==> action is Failed && after == before
            }
        },
{
}

/// A poll for sending goes on from where the last one stopped. While a flush goes on, the rest of
/// the buffer is handed to the socket. After a part was transmitted the poll is over. Otherwise the
/// connection is asked for a packet behind what was produced, and whatever it gives is handed to
/// the socket together with what was left over.
///
/// Here `asked` is the state in which it is asked: the buffer as it is, or from its front on if it
/// was flushed.
pub proof fn lemma_send_poll(
    before: Inner,
    event: SendEvent,
    asked: SendState,
    after: Inner,
    action: SendAction,
)
    requires
        before.send@.wf(),
        before.send@.bytes.len() <= usize::MAX,
        !asked.flush,
        asked.bytes == before.send@.bytes,
        before.send@.flush ==> asked.pos == 0 && asked.end == 0,
        !before.send@.flush ==> asked.pos == before.send@.pos && asked.end == before.send@.end,
        crate::backend::send::possible(before.send@, event),
        send_outcome(before, event, after, action),
    ensures
        event matches SendEvent::Transmitted(n) ==> {
            &&& action is Ready
            &&& after.connection == before.connection
            &&& after.send@.pos == before.send@.pos + n
            &&& after.send@.end == before.send@.end
            &&& after.send@.bytes == before.send@.bytes
        },
        event is Polled && before.send@.flush && before.send@.pos != before.send@.end ==> {
            &&& action matches SendAction::Flush { from } && from == before.send@.pos
            &&& after.connection == before.connection
            &&& after.send@ == before.send@
        },
        event matches SendEvent::Flushed(n) ==> (before.send@.pos + n != before.send@.end ==> {
            &&& action matches SendAction::Flush { from } && from == before.send@.pos + n
            &&& after.connection == before.connection
        }),
        ({
            ||| event is Polled && (!before.send@.flush || before.send@.pos == before.send@.end)
            ||| event matches SendEvent::Flushed(n) && before.send@.pos + n == before.send@.end
        }) ==> {
            &&& after.send@.pos == asked.pos
            &&& exists|
                result: Result<usize, TransportError>,
                answered: quiche::Connection,
                written: SendState,
            |
                {
                    &&& #[trigger] crate::backend::send::can_produce(
                        before.connection,
                        asked,
                        result,
                        answered,
                        written,
                    )
                    &&& written.bytes == after.send@.bytes
                    &&& result matches Ok(n) ==> {
                        &&& action matches SendAction::Transmit { from, to } && from == asked.pos && to
                            == asked.end + n
                        &&& after.send@.end == asked.end + n
                        &&& after.connection == answered
                    }
                    &&& result matches Err(err) ==> {
                        &&& after.send@.end == asked.end
                        &&& err is Done ==> if asked.pos < asked.end {
                            action matches SendAction::Transmit { from, to } && from == asked.pos
                                && to == asked.end
                        } else {
                            action is Pending
                        }
                        &&& err is BufferTooShort ==> action is Ready && after.send@.flush
                        &&& !(err is BufferTooShort) ==> !after.send@.flush
                        &&& !(err is Done) && !(err is BufferTooShort) ==> action is Pending
                            || action is Failed
                    }
                }
        },
        after.send@.bytes.len() == before.send@.bytes.len(),
{
    let (next, step) = crate::backend::send::step_of(before.send@, event);
    if step is Produce {
        let (result, answered, written) = choose|
            result: Result<usize, TransportError>,
            answered: quiche::Connection,
            written: SendState,
        |
            #[trigger] can_answer(before.connection, next, result, answered, written)
                && after.send@ == crate::backend::send::produced_of(written, result).0
                && produce_outcome(
                answered,
                crate::backend::send::produced_of(written, result).1,
                after.connection,
                action,
            );
        assert(crate::backend::send::can_produce(
            before.connection,
            next,
            result,
            answered,
            written,
        ));
        assert(next == asked);
        lemma_answer_is_sent(answered, written, result, after.connection, action);
    }
}

/// What was produced, and not handed over yet, is not lost or changed by asking for a packet: only
/// what lies behind it is written.
pub proof fn lemma_produced_is_kept(
    connection: quiche::Connection,
    asked: SendState,
    result: Result<usize, TransportError>,
    answered: quiche::Connection,
    written: SendState,
)
    requires
        asked.wf(),
        can_answer(connection, asked, result, answered, written),
    ensures
        written.pos == asked.pos,
        written.end == asked.end,
        written.flush == asked.flush,
        written.bytes.len() == asked.bytes.len(),
        forall|i: int| 0 <= i < asked.end ==> written.bytes[i] == asked.bytes[i],
        result matches Ok(n) ==> asked.end + n <= asked.bytes.len(),
        crate::backend::transport::status(connection).closed && asked.end < asked.bytes.len() ==> {
            &&& result == Err::<usize, TransportError>(TransportError::Done)
            &&& answered == connection
        },
{
    assert forall|i: int| 0 <= i < asked.end implies written.bytes[i] == asked.bytes[i] by {
        assert(written.bytes[i] == written.bytes.subrange(0, asked.end)[i]);
        assert(asked.bytes[i] == asked.bytes.subrange(0, asked.end)[i]);
    }
}

/// The connection handles its timeout at a moment if and only if its timer is set to a moment that
/// is not after it; otherwise it is left alone.
pub proof fn lemma_timeout_handled_on_time(before: Inner, now: Instant, after: Inner)
    requires
        expired(before, now, after),
    ensures
        before.timer is Unset ==> after.connection == before.connection,
        before.timer matches Timer::SetTo(time) ==> if crate::backend::timer::place(time)
            <= crate::backend::timer::place(now) {
            crate::backend::transport::can_time_out(before.connection, after.connection)
        } else {
            after.connection == before.connection
        },
{
}

/// The timer is set to when the timeout has passed that the connection asks for, and stopped if it
/// asks for none. Only where the clock cannot express that moment is there a failure, and then the
/// timer stays as it is.
pub proof fn lemma_timer_set_to_timeout(before: Inner, now: Instant, after: Inner, r: bool)
    requires
        rearmed(before, now, after, r),
    ensures
        exists|timeout: Option<Duration>|
            {
                &&& #[trigger] crate::backend::transport::can_ask(before.connection, timeout)
                &&& timeout is None ==> r && after.timer is Unset
                &&& timeout matches Some(duration) ==> {
                    &&& r <==> now.add_req(duration)
                    &&& r ==> after.timer == Timer::SetTo(now.add_spec(duration))
                    &&& !r ==> after.timer == before.timer
                }
            },
        crate::backend::transport::status(before.connection).closed ==> r && after.timer is Unset,
{
}

/// A poll of the timer first handles the timeout, at a moment that the clock shows, and then asks
/// the connection for the next one: a connection whose timer is not set is not touched, and a
/// closed one has no timer afterwards.
pub proof fn lemma_timer_poll(before: Inner, after: Inner, r: bool)
    requires
        timer_outcome(before, after, r),
    ensures
        before.timer is Unset ==> after.connection == before.connection,
        before.timer matches Timer::SetTo(time) ==> exists|checked: Instant|
            {
                &&& #[trigger] crate::backend::timer::can_show(checked)
                &&& if crate::backend::timer::place(time) <= crate::backend::timer::place(checked) {
                    crate::backend::transport::can_time_out(before.connection, after.connection)
                } else {
                    after.connection == before.connection
                }
            },
        exists|now: Instant, timeout: Option<Duration>|
            {
                &&& #[trigger] crate::backend::timer::can_show(now)
                &&& #[trigger] crate::backend::transport::can_ask(after.connection, timeout)
                &&& timeout is None ==> r && after.timer is Unset
                &&& timeout matches Some(duration) ==> {
                    &&& r <==> now.add_req(duration)
                    &&& r ==> after.timer == Timer::SetTo(now.add_spec(duration))
                    &&& !r ==> after.timer == before.timer
                }
            },
        crate::backend::transport::status(after.connection).closed ==> r && after.timer is Unset,
{
    let (checked, between, now) = choose|checked: Instant, between: Inner, now: Instant|
        {
            &&& crate::backend::timer::can_show(checked)
            &&& crate::backend::timer::can_show(now)
            &&& #[trigger] expired(before, checked, between)
            &&& #[trigger] rearmed(between, now, after, r)
            &&& between.timer == before.timer
            &&& between.connection == after.connection
        };
    lemma_timeout_handled_on_time(before, checked, between);
    lemma_timer_set_to_timeout(between, now, after, r);
    assert(crate::backend::timer::can_show(checked));
    assert(crate::backend::timer::can_show(now));
}

/// A connection that the transport made is taken up as it is, with an empty buffer for one datagram
/// and no timer; an error of the transport is passed on. One does not become the other.
pub proof fn lemma_connection_taken_up(
    result: Result<quiche::Connection, TransportError>,
    r: Result<Inner, TransportError>,
)
    requires
        taken_up(result, r),
    ensures
        result is Ok <==> r is Ok,
        result matches Ok(connection) ==> (r matches Ok(inner) && {
            &&& inner.connection == connection
            &&& inner.send@.bytes.len() == MAX_DATAGRAM_SIZE
            &&& inner.send@.pos == 0
            &&& inner.send@.end == 0
            &&& !inner.send@.flush
            &&& inner.timer is Unset
        }),
        result matches Err(err) ==> r == Err::<Inner, TransportError>(err),
{
}

/// Connecting asks the transport for a connection with exactly this name, this connection ID, this
/// path and this config, and comes to what the transport answers.
pub proof fn lemma_connecting(
    server_name: Option<Seq<char>>,
    scid: Seq<u8>,
    path: quiche::RecvInfo,
    config: quiche::Config,
    r: Result<Inner, TransportError>,
)
    requires
        connect_outcome(server_name, scid, path, config, r),
    ensures
        r matches Ok(inner) ==> {
            &&& crate::backend::transport::can_connect(
                server_name,
                scid,
                path,
                config,
                Ok(inner.connection),
            )
            &&& inner.send@.end == 0
            &&& inner.send@.bytes.len() == MAX_DATAGRAM_SIZE
            &&& inner.timer is Unset
        },
        r matches Err(err) ==> crate::backend::transport::can_connect(
            server_name,
            scid,
            path,
            config,
            Err(err),
        ),
{
}

/// The only names that cannot be those of a server are those with a zero character.
pub proof fn lemma_unspeakable(name: Seq<char>)
    ensures
        unspeakable(Some(name)) <==> name.contains('\0'),
        !unspeakable(None),
{
}

} // verus!
