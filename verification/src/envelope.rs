//! The envelope that a frame carries: a message, or the causes of a failure.

use crate::error::{joined, Error};
use crate::stream::ReadWrite;
use crate::tunnel::{layers_of, received_as, sent_as, Tunnel};
use vstd::prelude::*;

verus! {

/// The failure case of an envelope: the causes that the peer reports, each
/// one layer of context.
#[derive(Debug, PartialEq, Eq)]
pub struct EventError {
    pub errors: Vec<String>,
}

impl View for EventError {
    type V = Seq<Seq<char>>;

    open spec fn view(&self) -> Seq<Seq<char>> {
        self.errors.deep_view()
    }
}

/// What a client sends: a message of the client's set `M`, or a failure.
#[derive(Debug, PartialEq, Eq)]
pub enum ClientMsgOrErr<M> {
    /// The success case, with its message if one is set.
    Msg(Option<M>),
    /// The failure case.
    Failure(EventError),
    /// Neither case is set.
    Unset,
}

/// What a server sends: a message of the server's set `M`, or a failure.
#[derive(Debug, PartialEq, Eq)]
pub enum ServerMsgOrErr<M> {
    /// The success case, with its message if one is set.
    Msg(Option<M>),
    /// The failure case.
    Failure(EventError),
    /// Neither case is set.
    Unset,
}

/// The chain that a receiver builds from reported causes: `label` outermost,
/// then the causes in the order the peer listed them, then the end marker.
pub open spec fn remote_failure(label: Seq<char>, causes: Seq<Seq<char>>) -> Seq<Seq<char>> {
    seq![label] + causes + seq!["[end err]"@]
}

/// What a server makes of `received`, the outcome of receiving a client's
/// envelope: the message, or the layers of the failure.
pub open spec fn client_outcome<M>(received: Result<ClientMsgOrErr<M>, Seq<Seq<char>>>) -> Result<
    M,
    Seq<Seq<char>>,
> {
    match received {
        Err(e) => Err(seq!["Error in recv pkt"@] + e),
        Ok(ClientMsgOrErr::Msg(Some(msg))) => Ok(msg),
        Ok(ClientMsgOrErr::Msg(None)) => Err(seq!["Empty pkt from client"@]),
        Ok(ClientMsgOrErr::Failure(event)) => Err(remote_failure("Error from client:"@, event@)),
        Ok(ClientMsgOrErr::Unset) => Err(seq!["Bad pkt from client"@]),
    }
}

/// What a client makes of `received`, the outcome of receiving a server's
/// envelope: the message, or the layers of the failure.
pub open spec fn server_outcome<M>(received: Result<ServerMsgOrErr<M>, Seq<Seq<char>>>) -> Result<
    M,
    Seq<Seq<char>>,
> {
    match received {
        Err(e) => Err(seq!["Error in recv pkt"@] + e),
        Ok(ServerMsgOrErr::Msg(Some(msg))) => Ok(msg),
        Ok(ServerMsgOrErr::Msg(None)) => Err(seq!["Empty pkt from server"@]),
        Ok(ServerMsgOrErr::Failure(event)) => Err(remote_failure("Error from server:"@, event@)),
        Ok(ServerMsgOrErr::Unset) => Err(seq!["Bad pkt from server"@]),
    }
}

/// The single layer that tells of a report that could not be sent, `cause`
/// being the layers of the failed send.
pub open spec fn send_failure(cause: Seq<Seq<char>>) -> Seq<char> {
    "Error in send: Peer has closed connection? ("@ + joined(cause) + ")"@
}

/// What the sender of a report is left with: the failure it reported, with
/// every layer, or else the failure of the send.
pub open spec fn report_outcome(sent: Result<(), Seq<Seq<char>>>, err: Seq<Seq<char>>) -> Seq<
    Seq<char>,
> {
    match sent {
        Ok(_) => err,
        Err(cause) => seq![send_failure(cause)],
    }
}

/// Receiving a client's envelope through `decode` and `decode_error` took the
/// stream from `before` to `after` and ended in `r`.
pub open spec fn client_received_as<
    S: ReadWrite,
    M,
    D: FnOnce(&[u8]) -> Option<ClientMsgOrErr<M>>,
    F: FnOnce(&[u8]) -> Result<EventError, Error>,
>(before: S, after: S, decode: D, decode_error: F, r: Result<M, Seq<Seq<char>>>) -> bool {
    exists|received: Result<ClientMsgOrErr<M>, Seq<Seq<char>>>| #[trigger]
        received_as(before, after, decode, decode_error, received) && r == client_outcome(
            received,
        )
}

/// Receiving a server's envelope through `decode` and `decode_error` took the
/// stream from `before` to `after` and ended in `r`.
pub open spec fn server_received_as<
    S: ReadWrite,
    M,
    D: FnOnce(&[u8]) -> Option<ServerMsgOrErr<M>>,
    F: FnOnce(&[u8]) -> Result<EventError, Error>,
>(before: S, after: S, decode: D, decode_error: F, r: Result<M, Seq<Seq<char>>>) -> bool {
    exists|received: Result<ServerMsgOrErr<M>, Seq<Seq<char>>>| #[trigger]
        received_as(before, after, decode, decode_error, received) && r == server_outcome(
            received,
        )
}

impl EventError {
    /// The report that goes to a peer for `err`: its outermost layer and
    /// nothing below it, so that no inner detail leaves this side.
    pub fn outermost_of(err: &Error) -> (event: EventError)
        ensures
            err@.len() > 0,
            event@ == seq![err@[0]],
    {
        let mut errors: Vec<String> = Vec::new();
        errors.push(err.outermost().to_owned());
        assert(errors.deep_view() =~= seq![err@[0]]);
        EventError { errors }
    }

    /// The failure that a receiver raises for this report, under `label`.
    ///
    /// Starting from the end marker, the causes are laid on from the last to
    /// the first, each outside the one before, so that the first cause ends
    /// up just below `label`.
    pub fn raise(&self, label: &str) -> (e: Error)
        ensures
            e@ == remote_failure(label@, self@),
    {
        let mut error = Error::msg("[end err]");
        let mut i: usize = self.errors.len();
        assert(self@.skip(i as int) =~= Seq::<Seq<char>>::empty());
        while i > 0
            invariant
                i <= self.errors@.len(),
                error@ =~= self@.skip(i as int) + seq!["[end err]"@],
            decreases i,
        {
            i -= 1;
            error = error.context(self.errors[i].as_str());
            assert(self@.skip(i as int) =~= seq![self@[i as int]] + self@.skip(i + 1));
        }
        assert(self@.skip(0) =~= self@);
        let error = error.context(label);
        assert(error@ =~= remote_failure(label@, self@));
        error
    }
}

impl<M> ClientMsgOrErr<M> {
    /// The message of a client's envelope, or the failure that the envelope
    /// or its reception stands for, `received` being what reception gave.
    pub fn open(received: Result<ClientMsgOrErr<M>, Error>) -> (r: Result<M, Error>)
        ensures
            layers_of(r) == client_outcome(layers_of(received)),
    {
        match received {
            Err(e) => Err(e.context("Error in recv pkt")),
            Ok(ClientMsgOrErr::Msg(Some(msg))) => Ok(msg),
            Ok(ClientMsgOrErr::Msg(None)) => Err(Error::msg("Empty pkt from client")),
            Ok(ClientMsgOrErr::Failure(event)) => Err(event.raise("Error from client:")),
            Ok(ClientMsgOrErr::Unset) => Err(Error::msg("Bad pkt from client")),
        }
    }
}

impl<M> ServerMsgOrErr<M> {
    /// The message of a server's envelope, or the failure that the envelope
    /// or its reception stands for, `received` being what reception gave.
    pub fn open(received: Result<ServerMsgOrErr<M>, Error>) -> (r: Result<M, Error>)
        ensures
            layers_of(r) == server_outcome(layers_of(received)),
    {
        match received {
            Err(e) => Err(e.context("Error in recv pkt")),
            Ok(ServerMsgOrErr::Msg(Some(msg))) => Ok(msg),
            Ok(ServerMsgOrErr::Msg(None)) => Err(Error::msg("Empty pkt from server")),
            Ok(ServerMsgOrErr::Failure(event)) => Err(event.raise("Error from server:")),
            Ok(ServerMsgOrErr::Unset) => Err(Error::msg("Bad pkt from server")),
        }
    }
}

/// Receives a client's envelope and opens it.
///
/// A reception failure comes back under `Error in recv pkt`. A success case
/// without a message, a reported failure and an envelope with no case set
/// each give their own failure.
pub fn recv_client_msg_or_error<S, M, D, F>(stream: &mut S, decode: D, decode_error: F) -> (r:
    Result<M, Error>)
    where
        S: ReadWrite,
        D: FnOnce(&[u8]) -> Option<ClientMsgOrErr<M>>,
        F: FnOnce(&[u8]) -> Result<EventError, Error>,
    requires
        forall|payload: &[u8]| call_requires(decode, (payload,)),
        forall|payload: &[u8]| call_requires(decode_error, (payload,)),
    ensures
        client_received_as(*old(stream), *final(stream), decode, decode_error, layers_of(r)),
{
    let received = Tunnel::recv(stream, decode, decode_error);
    ClientMsgOrErr::open(received)
}

/// Receives a server's envelope and opens it.
///
/// A reception failure comes back under `Error in recv pkt`. A success case
/// without a message, a reported failure and an envelope with no case set
/// each give their own failure.
pub fn recv_server_msg_or_error<S, M, D, F>(stream: &mut S, decode: D, decode_error: F) -> (r:
    Result<M, Error>)
    where
        S: ReadWrite,
        D: FnOnce(&[u8]) -> Option<ServerMsgOrErr<M>>,
        F: FnOnce(&[u8]) -> Result<EventError, Error>,
    requires
        forall|payload: &[u8]| call_requires(decode, (payload,)),
        forall|payload: &[u8]| call_requires(decode_error, (payload,)),
    ensures
        server_received_as(*old(stream), *final(stream), decode, decode_error, layers_of(r)),
{
    let received = Tunnel::recv(stream, decode, decode_error);
    ServerMsgOrErr::open(received)
}

/// What the sender of a report keeps: `err` itself where the report went
/// out, and otherwise one layer that tells of the failed send.
pub fn after_report(sent: Result<(), Error>, err: Error) -> (out: Error)
    ensures
        out@ == report_outcome(layers_of(sent), err@),
        sent is Ok ==> out == err,
{
    match sent {
        Ok(_) => err,
        Err(cause) => {
            let mut line = "Error in send: Peer has closed connection? (".to_owned();
            line.append(cause.report().as_str());
            line.append(")");
            Error::msg(line.as_str())
        },
    }
}

/// Reports `err` to the client and hands it back.
///
/// Only the outermost layer of `err` is put in the envelope; the caller keeps
/// every layer. Where the report cannot be sent, the failure of the send
/// comes back in place of `err`.
pub fn send_server_err_event<S, M, E>(sock: &mut S, err: Error, encode: E) -> (out: Error)
    where
        S: ReadWrite,
        E: FnOnce(ServerMsgOrErr<M>) -> Result<Vec<u8>, Error>,
    requires
        forall|event: ServerMsgOrErr<M>| call_requires(encode, (event,)),
    ensures
        err@.len() > 0,
        exists|event: EventError, sent: Result<(), Seq<Seq<char>>>|
            {
                &&& event@ == seq![err@[0]]
                &&& #[trigger] sent_as(
                    *old(sock),
                    *final(sock),
                    ServerMsgOrErr::<M>::Failure(event),
                    encode,
                    sent,
                )
                &&& out@ == report_outcome(sent, err@)
            },
{
    let event = EventError::outermost_of(&err);
    let sent = Tunnel::send(sock, ServerMsgOrErr::Failure(event), encode);
    after_report(sent, err)
}

/// Reports `err` to the server and hands it back.
///
/// Only the outermost layer of `err` is put in the envelope; the caller keeps
/// every layer. Where the report cannot be sent, the failure of the send
/// comes back in place of `err`.
pub fn send_client_err_event<S, M, E>(sock: &mut S, err: Error, encode: E) -> (out: Error)
    where
        S: ReadWrite,
        E: FnOnce(ClientMsgOrErr<M>) -> Result<Vec<u8>, Error>,
    requires
        forall|event: ClientMsgOrErr<M>| call_requires(encode, (event,)),
    ensures
        err@.len() > 0,
        exists|event: EventError, sent: Result<(), Seq<Seq<char>>>|
            {
                &&& event@ == seq![err@[0]]
                &&& #[trigger] sent_as(
                    *old(sock),
                    *final(sock),
                    ClientMsgOrErr::<M>::Failure(event),
                    encode,
                    sent,
                )
                &&& out@ == report_outcome(sent, err@)
            },
{
    let event = EventError::outermost_of(&err);
    let sent = Tunnel::send(sock, ClientMsgOrErr::Failure(event), encode);
    after_report(sent, err)
}

/// A reported failure shows the peer one layer and no more.
///
/// `event` is the report made for a failure with the layers `err`. What the
/// receiver of that report ends with is the label of the direction, the
/// outermost layer of `err` and the end marker: none of the layers below the
/// outermost is in it.
pub proof fn lemma_report_shows_one_layer<M>(err: Seq<Seq<char>>, event: EventError)
    requires
        err.len() > 0,
        event@ == seq![err[0]],
    ensures
        server_outcome(Ok::<ServerMsgOrErr<M>, Seq<Seq<char>>>(ServerMsgOrErr::Failure(event)))
            == Err::<M, Seq<Seq<char>>>(seq!["Error from server:"@, err[0], "[end err]"@]),
        client_outcome(Ok::<ClientMsgOrErr<M>, Seq<Seq<char>>>(ClientMsgOrErr::Failure(event)))
            == Err::<M, Seq<Seq<char>>>(seq!["Error from client:"@, err[0], "[end err]"@]),
{
    assert(remote_failure("Error from server:"@, event@) =~= seq![
        "Error from server:"@,
        err[0],
        "[end err]"@,
    ]);
    assert(remote_failure("Error from client:"@, event@) =~= seq![
        "Error from client:"@,
        err[0],
        "[end err]"@,
    ]);
}

/// The causes of a report come back in the order in which the peer listed
/// them, between the label and the end marker.
pub proof fn lemma_remote_failure_layers(label: Seq<char>, causes: Seq<Seq<char>>, i: int)
    requires
        0 <= i < causes.len(),
    ensures
        remote_failure(label, causes).len() == causes.len() + 2,
        remote_failure(label, causes)[0] == label,
        remote_failure(label, causes)[i + 1] == causes[i],
        remote_failure(label, causes).last() == "[end err]"@,
{
}

} // verus!
