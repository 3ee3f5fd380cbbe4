//! Typed dispatch: one expected variant out of an envelope, one given
//! variant into an envelope.

use crate::envelope::{
    client_outcome, client_received_as, recv_client_msg_or_error, recv_server_msg_or_error,
    send_failure, server_outcome, server_received_as, ClientMsgOrErr, EventError, ServerMsgOrErr,
};
use crate::error::{with_context, Error};
use crate::stream::ReadWrite;
use crate::tunnel::{layers_of, sent_as, Tunnel};
use vstd::prelude::*;

verus! {

/// What a receiver that expects one variant makes of `picked`: the outcome of
/// a reception, the message in it already asked for that variant.
///
/// A failure gains the layer `Received error msg`. A message of another
/// variant is refused; a message of the expected one yields its value.
pub open spec fn dispatch_outcome<T>(picked: Result<Option<T>, Seq<Seq<char>>>) -> Result<
    T,
    Seq<Seq<char>>,
> {
    match picked {
        Err(e) => Err(seq!["Received error msg"@] + e),
        Ok(Some(value)) => Ok(value),
        Ok(None) => Err(seq!["Bad packet type"@]),
    }
}

/// `picked` is `got` with its message, if there is one, asked by `select` for
/// the value of the expected variant.
pub open spec fn selects<M, T, X: FnOnce(M) -> Option<T>>(
    select: X,
    got: Result<M, Seq<Seq<char>>>,
    picked: Result<Option<T>, Seq<Seq<char>>>,
) -> bool {
    match got {
        Err(e) => picked == Err::<Option<T>, Seq<Seq<char>>>(e),
        Ok(msg) => picked matches Ok(value) && call_ensures(select, (msg,), value),
    }
}

/// What the sender of a server's message is left with, `sent` being the
/// outcome of the send.
pub open spec fn server_send_outcome(sent: Result<(), Seq<Seq<char>>>) -> Result<
    (),
    Seq<Seq<char>>,
> {
    match sent {
        Ok(_) => Ok(()),
        Err(e) => Err(seq!["Error in send: Peer has closed connection?"@] + e),
    }
}

/// What the sender of a client's message is left with, `sent` being the
/// outcome of the send.
pub open spec fn client_send_outcome(sent: Result<(), Seq<Seq<char>>>) -> Result<
    (),
    Seq<Seq<char>>,
> {
    match sent {
        Ok(_) => Ok(()),
        Err(e) => Err(seq![send_failure(e)]),
    }
}

/// The value of the expected variant, `picked` being the outcome of a
/// reception in which the message was asked for that variant (`None` where
/// it is of another).
pub fn expect_variant<T>(picked: Result<Option<T>, Error>) -> (r: Result<T, Error>)
    ensures
        layers_of(r) == dispatch_outcome(layers_of(picked)),
{
    match picked {
        Err(e) => Err(e.context("Received error msg")),
        Ok(Some(value)) => Ok(value),
        Ok(None) => Err(Error::msg("Bad packet type")),
    }
}

/// Receives a client's envelope and takes from it the value of one variant.
///
/// `select` tells the expected variant: it gives the value inside a message
/// of that variant and `None` for any other. It is asked only where a
/// message was received.
pub fn recv_client_msg_type<S, M, T, D, F, X>(
    sock: &mut S,
    decode: D,
    decode_error: F,
    select: X,
) -> (r: Result<T, Error>)
    where
        S: ReadWrite,
        D: FnOnce(&[u8]) -> Option<ClientMsgOrErr<M>>,
        F: FnOnce(&[u8]) -> Result<EventError, Error>,
        X: FnOnce(M) -> Option<T>,
    requires
        forall|payload: &[u8]| call_requires(decode, (payload,)),
        forall|payload: &[u8]| call_requires(decode_error, (payload,)),
        forall|msg: M| call_requires(select, (msg,)),
    ensures
        exists|got: Result<M, Seq<Seq<char>>>, picked: Result<Option<T>, Seq<Seq<char>>>|
            {
                &&& client_received_as(*old(sock), *final(sock), decode, decode_error, got)
                &&& #[trigger] selects(select, got, picked)
                &&& layers_of(r) == dispatch_outcome(picked)
            },
{
    match recv_client_msg_or_error(sock, decode, decode_error) {
        Err(e) => {
            assert(selects(
                select,
                Err::<M, Seq<Seq<char>>>(e@),
                Err::<Option<T>, Seq<Seq<char>>>(e@),
            ));
            expect_variant(Err(e))
        },
        Ok(msg) => {
            let ghost given = msg;
            let value = select(msg);
            assert(call_ensures(select, (given,), value));
            assert(selects(
                select,
                Ok::<M, Seq<Seq<char>>>(given),
                Ok::<Option<T>, Seq<Seq<char>>>(value),
            ));
            expect_variant(Ok(value))
        },
    }
}

/// Receives a server's envelope and takes from it the value of one variant.
///
/// `select` tells the expected variant: it gives the value inside a message
/// of that variant and `None` for any other. It is asked only where a
/// message was received.
pub fn recv_server_msg_type<S, M, T, D, F, X>(
    sock: &mut S,
    decode: D,
    decode_error: F,
    select: X,
) -> (r: Result<T, Error>)
    where
        S: ReadWrite,
        D: FnOnce(&[u8]) -> Option<ServerMsgOrErr<M>>,
        F: FnOnce(&[u8]) -> Result<EventError, Error>,
        X: FnOnce(M) -> Option<T>,
    requires
        forall|payload: &[u8]| call_requires(decode, (payload,)),
        forall|payload: &[u8]| call_requires(decode_error, (payload,)),
        forall|msg: M| call_requires(select, (msg,)),
    ensures
        exists|got: Result<M, Seq<Seq<char>>>, picked: Result<Option<T>, Seq<Seq<char>>>|
            {
                &&& server_received_as(*old(sock), *final(sock), decode, decode_error, got)
                &&& #[trigger] selects(select, got, picked)
                &&& layers_of(r) == dispatch_outcome(picked)
            },
{
    match recv_server_msg_or_error(sock, decode, decode_error) {
        Err(e) => {
            assert(selects(
                select,
                Err::<M, Seq<Seq<char>>>(e@),
                Err::<Option<T>, Seq<Seq<char>>>(e@),
            ));
            expect_variant(Err(e))
        },
        Ok(msg) => {
            let ghost given = msg;
            let value = select(msg);
            assert(call_ensures(select, (given,), value));
            assert(selects(
                select,
                Ok::<M, Seq<Seq<char>>>(given),
                Ok::<Option<T>, Seq<Seq<char>>>(value),
            ));
            expect_variant(Ok(value))
        },
    }
}

/// Sends `msg`, a message of the server's set, in the success case of an
/// envelope. A failure comes back under one more layer.
pub fn send_server_msg_type<S, M, E>(sock: &mut S, msg: M, encode: E) -> (r: Result<(), Error>)
    where
        S: ReadWrite,
        E: FnOnce(ServerMsgOrErr<M>) -> Result<Vec<u8>, Error>,
    requires
        forall|envelope: ServerMsgOrErr<M>| call_requires(encode, (envelope,)),
    ensures
        exists|sent: Result<(), Seq<Seq<char>>>| #[trigger]
            sent_as(*old(sock), *final(sock), ServerMsgOrErr::Msg(Some(msg)), encode, sent)
                && layers_of(r) == server_send_outcome(sent),
{
    let sent = Tunnel::send(sock, ServerMsgOrErr::Msg(Some(msg)), encode);
    with_context(sent, "Error in send: Peer has closed connection?")
}

/// Sends `msg`, a message of the client's set, in the success case of an
/// envelope. A failure comes back as one layer that tells of it.
pub fn send_client_msg_type<S, M, E>(sock: &mut S, msg: M, encode: E) -> (r: Result<(), Error>)
    where
        S: ReadWrite,
        E: FnOnce(ClientMsgOrErr<M>) -> Result<Vec<u8>, Error>,
    requires
        forall|envelope: ClientMsgOrErr<M>| call_requires(encode, (envelope,)),
    ensures
        exists|sent: Result<(), Seq<Seq<char>>>| #[trigger]
            sent_as(*old(sock), *final(sock), ClientMsgOrErr::Msg(Some(msg)), encode, sent)
                && layers_of(r) == client_send_outcome(sent),
{
    match Tunnel::send(sock, ClientMsgOrErr::Msg(Some(msg)), encode) {
        Ok(_) => Ok(()),
        Err(cause) => {
            let mut line = "Error in send: Peer has closed connection? (".to_owned();
            line.append(cause.report().as_str());
            line.append(")");
            Err(Error::msg(line.as_str()))
        },
    }
}

/// A message that arrives in the success case of an envelope is handed out
/// exactly where it is of the expected variant.
///
/// `msg` arrived in a server's envelope, or in a client's, and `select` was
/// asked for it. Where `select` gives a value for `msg`, the receiver ends
/// with that value; where it gives none, the receiver ends with the refusal
/// `Bad packet type` and with no value at all.
pub proof fn lemma_dispatch_by_variant<M, T, X: FnOnce(M) -> Option<T>>(
    msg: M,
    select: X,
    picked: Result<Option<T>, Seq<Seq<char>>>,
)
    requires
        selects(
            select,
            server_outcome(Ok::<ServerMsgOrErr<M>, Seq<Seq<char>>>(ServerMsgOrErr::Msg(Some(msg)))),
            picked,
        ) || selects(
            select,
            client_outcome(Ok::<ClientMsgOrErr<M>, Seq<Seq<char>>>(ClientMsgOrErr::Msg(Some(msg)))),
            picked,
        ),
    ensures
        picked matches Ok(found) && call_ensures(select, (msg,), found),
        picked matches Ok(Some(value)) ==> dispatch_outcome(picked) == Ok::<T, Seq<Seq<char>>>(
            value,
        ),
        picked matches Ok(None) ==> dispatch_outcome(picked) == Err::<T, Seq<Seq<char>>>(
            seq!["Bad packet type"@],
        ),
{
}

} // verus!
