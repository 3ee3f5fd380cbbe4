//! The frame codec: one length-prefixed unit of bytes per message.

use crate::envelope::EventError;
use crate::error::{with_context, Error};
use crate::stream::ReadWrite;
use byteorder::{ByteOrder, LittleEndian, ReadBytesExt};
use std::io::Cursor;
use vstd::bytes::{
    lemma_auto_spec_u64_to_from_le_bytes, spec_u64_from_le_bytes, spec_u64_to_le_bytes,
};
use vstd::prelude::*;

verus! {

/// The version of the protocol, for a peer to compare with its own.
pub const VERSION: &'static str = "0.1.1";

/// The largest payload that a frame may declare, in bytes.
pub const MAX_PACKET_LEN: usize = 100 * 1024 * 1024;

/// The number of bytes in a frame's header.
pub const HEADER_LEN: usize = 8;

/// `std::io::Error`, which the cursor under `read_u64_le` fails with. It is
/// carried through and never looked into.
#[verifier::external_type_specification]
#[verifier::external_body]
pub struct ExIoError(std::io::Error);

/// `byteorder::LittleEndian::write_u64`: puts `n` into the first eight bytes
/// of the buffer, least significant byte first, and leaves the rest alone.
/// It panics on a shorter buffer, which `requires` rules out.
#[verifier::external_body]
fn write_u64_le(buffer: &mut Vec<u8>, n: u64)
    requires
        old(buffer)@.len() >= 8,
    ensures
        final(buffer)@ == spec_u64_to_le_bytes(n) + old(buffer)@.skip(8),
{
    LittleEndian::write_u64(buffer, n);
}

/// `byteorder::ReadBytesExt::read_u64::<LittleEndian>` on a cursor over the
/// buffer: the first eight bytes read least significant byte first, or the
/// reader's error when the buffer holds fewer than eight.
#[verifier::external_body]
fn read_u64_le(buffer: Vec<u8>) -> (r: Result<u64, std::io::Error>)
    ensures
        r is Ok <==> buffer@.len() >= 8,
        r matches Ok(n) ==> n == spec_u64_from_le_bytes(buffer@.take(8)),
{
    let mut rdr = Cursor::new(buffer);
    ReadBytesExt::read_u64::<LittleEndian>(&mut rdr)
}

/// `std::io::Error`'s `Display`: the text of the error. Nothing is claimed
/// of the text.
#[verifier::external_body]
fn io_error_text(e: &std::io::Error) -> String {
    e.to_string()
}

/// A payload on the wire: its length as eight little-endian bytes, then the
/// payload itself.
pub open spec fn frame_of(payload: Seq<u8>) -> Seq<u8> {
    spec_u64_to_le_bytes(payload.len() as u64) + payload
}

/// The payload length that an eight-byte header declares.
pub open spec fn declared_len(header: Seq<u8>) -> nat {
    spec_u64_from_le_bytes(header) as nat
}

/// What a receiver is told when a header declares more than the bound.
pub open spec fn too_big() -> Seq<Seq<char>> {
    seq!["Packet too big!"@]
}

/// A result with its failure, if any, seen as a chain of layers.
pub open spec fn layers_of<T>(r: Result<T, Error>) -> Result<T, Seq<Seq<char>>> {
    match r {
        Ok(value) => Ok(value),
        Err(e) => Err(e@),
    }
}

/// The stream went from `before` to `after` by handing over one whole frame,
/// the one that carries `payload`.
pub open spec fn took_frame<S: ReadWrite>(before: S, after: S, payload: Seq<u8>) -> bool {
    &&& payload.len() <= MAX_PACKET_LEN
    &&& after.sent() == before.sent()
    &&& after.received() == before.received() + frame_of(payload)
}

/// Receiving a frame failed with the layers `e` while the stream went from
/// `before` to `after`.
///
/// Either the stream failed, at the header with nothing handed over or in
/// the payload with an admissible header handed over; or the stream handed
/// over a header that declares too much, and then nothing more was read.
pub open spec fn frame_failure<S: ReadWrite>(before: S, after: S, e: Seq<Seq<char>>) -> bool {
    &&& after.sent() == before.sent()
    &&& {
        ||| read_failure(e) && after.received() == before.received()
        ||| exists|header: Seq<u8>|
            {
                &&& header.len() == 8
                &&& after.received() == before.received() + header
                &&& if #[trigger] declared_len(header) > MAX_PACKET_LEN {
                    e == too_big()
                } else {
                    read_failure(e)
                }
            }
    }
}

/// The layers of a failure of the stream while reading: its own, under
/// `Cannot read pkt`.
pub open spec fn read_failure(e: Seq<Seq<char>>) -> bool {
    e.len() >= 2 && e[0] == "Cannot read pkt"@
}

/// The layers of a failure of the stream while writing: its own, under
/// `Cannot write pkt`.
pub open spec fn write_failure(e: Seq<Seq<char>>) -> bool {
    e.len() >= 2 && e[0] == "Cannot write pkt"@
}

/// The second reading of a payload, seen as causes or as layers.
pub open spec fn report_of(given: Result<EventError, Error>) -> Result<
    Seq<Seq<char>>,
    Seq<Seq<char>>,
> {
    match given {
        Ok(event) => Ok(event@),
        Err(e) => Err(e@),
    }
}

/// What a receiver makes of the two readings of a payload: the message, or
/// else the reported causes in reverse under their end marker, or else a
/// decoding failure.
pub open spec fn decoded_outcome<T>(
    primary: Option<T>,
    fallback: Result<Seq<Seq<char>>, Seq<Seq<char>>>,
) -> Result<T, Seq<Seq<char>>> {
    match primary {
        Some(msg) => Ok(msg),
        None => match fallback {
            Ok(causes) => Err(causes.reverse() + seq!["Error from server"@]),
            Err(e) => Err(seq!["Cannot decode pkt"@] + e),
        },
    }
}

/// `encode` may give `out` for `req`: a payload, or the layers of a failure.
pub open spec fn encodes_to<T, E: FnOnce(T) -> Result<Vec<u8>, Error>>(
    encode: E,
    req: T,
    out: Result<Seq<u8>, Seq<Seq<char>>>,
) -> bool {
    exists|given: Result<Vec<u8>, Error>| #[trigger]
        call_ensures(encode, (req,), given) && out == match given {
            Ok(payload) => Ok(payload@),
            Err(e) => Err(e@),
        }
}

/// `decode` may find `out` in `payload`.
pub open spec fn decodes_to<T, D: FnOnce(&[u8]) -> Option<T>>(
    decode: D,
    payload: Seq<u8>,
    out: Option<T>,
) -> bool {
    exists|bytes: &[u8]| bytes@ == payload && #[trigger] call_ensures(decode, (bytes,), out)
}

/// `decode_error` may read `payload` as `out`: the causes of a report, or the
/// layers of its own failure.
pub open spec fn reports_as<F: FnOnce(&[u8]) -> Result<EventError, Error>>(
    decode_error: F,
    payload: Seq<u8>,
    out: Result<Seq<Seq<char>>, Seq<Seq<char>>>,
) -> bool {
    exists|bytes: &[u8], given: Result<EventError, Error>|
        bytes@ == payload && #[trigger] call_ensures(decode_error, (bytes,), given) && out
            == report_of(given)
}

/// Sending `req` through `encode` took the stream from `before` to `after`
/// and ended in `r`.
///
/// On success the stream took the frame of a payload that `encode` gave for
/// `req`, and nothing else. A failure, of `encode` or of the stream, leaves
/// the history of the stream as it was.
pub open spec fn sent_as<S: ReadWrite, T, E: FnOnce(T) -> Result<Vec<u8>, Error>>(
    before: S,
    after: S,
    req: T,
    encode: E,
    r: Result<(), Seq<Seq<char>>>,
) -> bool {
    &&& after.received() == before.received()
    &&& match r {
        Ok(_) => exists|payload: Seq<u8>| #[trigger]
            encodes_to(encode, req, Ok(payload)) && after.sent() == before.sent() + frame_of(
                payload,
            ),
        Err(e) => after.sent() == before.sent() && {
            ||| write_failure(e) && exists|payload: Seq<u8>| #[trigger]
                encodes_to(encode, req, Ok(payload))
            ||| exists|cause: Seq<Seq<char>>| #[trigger]
                encodes_to(encode, req, Err(cause)) && e == seq!["Cannot encode pkt"@] + cause
        },
    }
}

/// Receiving through `decode` and `decode_error` took the stream from
/// `before` to `after` and ended in `r`.
///
/// A message is what `decode` found in the payload of the frame that the
/// stream handed over. A failure is that of the frame, or what
/// `decoded_outcome` makes of a payload in which `decode` found no message.
pub open spec fn received_as<
    S: ReadWrite,
    T,
    D: FnOnce(&[u8]) -> Option<T>,
    F: FnOnce(&[u8]) -> Result<EventError, Error>,
>(before: S, after: S, decode: D, decode_error: F, r: Result<T, Seq<Seq<char>>>) -> bool {
    &&& after.sent() == before.sent()
    &&& match r {
        Ok(msg) => exists|payload: Seq<u8>| #[trigger]
            took_frame(before, after, payload) && decodes_to(decode, payload, Some(msg)),
        Err(e) => {
            ||| frame_failure(before, after, e)
            ||| exists|payload: Seq<u8>, fallback: Result<Seq<Seq<char>>, Seq<Seq<char>>>|
                {
                    &&& took_frame(before, after, payload)
                    &&& decodes_to(decode, payload, None::<T>)
                    &&& #[trigger] reports_as(decode_error, payload, fallback)
                    &&& Err::<T, Seq<Seq<char>>>(e) == decoded_outcome(None::<T>, fallback)
                }
        },
    }
}

/// The tunnel: frames out, frames in.
pub struct Tunnel {}

impl Tunnel {
    /// The bytes of the frame that carries `payload`.
    pub fn frame(payload: &[u8]) -> (bytes: Vec<u8>)
        ensures
            bytes@ == frame_of(payload@),
    {
        let mut buffer: Vec<u8> = vec![0u8; 8];
        write_u64_le(&mut buffer, payload.len() as u64);
        let ghost header = buffer@;
        assert(header =~= spec_u64_to_le_bytes(payload@.len() as u64));
        let mut i: usize = 0;
        while i < payload.len()
            invariant
                i <= payload@.len(),
                buffer@ =~= header + payload@.take(i as int),
            decreases payload@.len() - i,
        {
            buffer.push(payload[i]);
            i += 1;
        }
        assert(payload@.take(i as int) =~= payload@);
        buffer
    }

    /// Sends `payload` as one frame, in a single write.
    ///
    /// On success the stream has taken exactly the frame. A failure is the
    /// stream's own, under the layer `Cannot write pkt`.
    pub fn send_frame<S: ReadWrite>(stream: &mut S, payload: &[u8]) -> (r: Result<(), Error>)
        ensures
            final(stream).received() == old(stream).received(),
            r is Ok ==> final(stream).sent() == old(stream).sent() + frame_of(payload@),
            r matches Err(e) ==> write_failure(e@) && final(stream).sent() == old(stream).sent(),
    {
        let buffer = Tunnel::frame(payload);
        with_context(stream.write_all(buffer.as_slice()), "Cannot write pkt")
    }

    /// Sends `req` as one frame, its payload being what `encode` makes of it.
    ///
    /// A failure of `encode` comes back under the layer `Cannot encode pkt`
    /// and leaves the stream untouched; a failure of the stream comes back
    /// under `Cannot write pkt`.
    pub fn send<S, T, E>(stream: &mut S, req: T, encode: E) -> (r: Result<(), Error>)
        where
            S: ReadWrite,
            E: FnOnce(T) -> Result<Vec<u8>, Error>,
        requires
            call_requires(encode, (req,)),
        ensures
            sent_as(*old(stream), *final(stream), req, encode, layers_of(r)),
    {
        let encoded = encode(req);
        assert(call_ensures(encode, (req,), encoded));
        assert(encodes_to(
            encode,
            req,
            match encoded {
                Ok(payload) => Ok(payload@),
                Err(e) => Err(e@),
            },
        ));
        match with_context(encoded, "Cannot encode pkt") {
            Ok(payload) => Tunnel::send_frame(stream, payload.as_slice()),
            Err(e) => Err(e),
        }
    }

    /// The payload length that `header` declares, if the bound admits it.
    ///
    /// A header is eight bytes. The length is refused when it exceeds
    /// `MAX_PACKET_LEN`, before anything is allocated for the payload.
    pub fn body_len(header: Vec<u8>) -> (r: Result<usize, Error>)
        ensures
            header@.len() >= 8 && declared_len(header@.take(8)) <= MAX_PACKET_LEN ==> r == Ok::<
                usize,
                Error,
            >(declared_len(header@.take(8)) as usize),
            header@.len() >= 8 && declared_len(header@.take(8)) > MAX_PACKET_LEN ==> (r matches Err(
                e,
            ) && e@ == too_big()),
            header@.len() < 8 ==> (r matches Err(e) && e@.len() == 2 && e@[0]
                == "Cannot read len"@),
    {
        match read_u64_le(header) {
            Ok(declared) => {
                if declared > MAX_PACKET_LEN as u64 {
                    Err(Error::msg("Packet too big!"))
                } else {
                    Ok(declared as usize)
                }
            },
            Err(e) => {
                let text = io_error_text(&e);
                Err(Error::msg(text.as_str()).context("Cannot read len"))
            },
        }
    }

    /// Receives one frame and returns its payload.
    ///
    /// Reads the eight-byte header, refuses a declared length above
    /// `MAX_PACKET_LEN` without reading further, and otherwise reads exactly
    /// the declared number of bytes. A failure of the stream, at the header or
    /// in the payload, comes back under the layer `Cannot read pkt`.
    pub fn recv_frame<S: ReadWrite>(stream: &mut S) -> (r: Result<Vec<u8>, Error>)
        ensures
            r matches Ok(payload) ==> took_frame(*old(stream), *final(stream), payload@),
            r matches Err(e) ==> frame_failure(*old(stream), *final(stream), e@),
    {
        let header = match with_context(stream.read_exact(HEADER_LEN), "Cannot read pkt") {
            Ok(header) => header,
            Err(e) => {
                return Err(e);
            },
        };
        let ghost head = header@;
        assert(head.take(8) =~= head);
        let len = match Tunnel::body_len(header) {
            Ok(len) => len,
            Err(e) => {
                return Err(e);
            },
        };
        let ghost mid = stream.received();
        let payload = match with_context(stream.read_exact(len), "Cannot read pkt") {
            Ok(payload) => payload,
            Err(e) => {
                return Err(e);
            },
        };
        proof {
            lemma_auto_spec_u64_to_from_le_bytes();
            assert(spec_u64_to_le_bytes(spec_u64_from_le_bytes(head)) == head);
            assert(payload@.len() as u64 == spec_u64_from_le_bytes(head));
            assert(mid + payload@ =~= old(stream).received() + (head + payload@));
        }
        Ok(payload)
    }

    /// What a receiver makes of a payload once both readings of it are known:
    /// `primary` as the message expected, `fallback` as a failure report.
    ///
    /// The message wins. Without one, a report becomes the failure that the
    /// peer described, and a payload that is neither is a decoding failure.
    pub fn decoded<T>(primary: Option<T>, fallback: Result<EventError, Error>) -> (r: Result<
        T,
        Error,
    >)
        ensures
            layers_of(r) == decoded_outcome(primary, report_of(fallback)),
    {
        match primary {
            Some(msg) => Ok(msg),
            None => match fallback {
                Ok(event) => {
                    let mut err = Error::msg("Error from server");
                    let mut i: usize = 0;
                    assert(event@.take(0).reverse() =~= Seq::<Seq<char>>::empty());
                    while i < event.errors.len()
                        invariant
                            i <= event.errors@.len(),
                            err@ =~= event@.take(i as int).reverse() + seq!["Error from server"@],
                        decreases event.errors@.len() - i,
                    {
                        err = err.context(event.errors[i].as_str());
                        i += 1;
                        assert(event@.take(i as int).reverse() =~= seq![event@[i - 1]]
                            + event@.take(i - 1).reverse());
                    }
                    assert(event@.take(i as int) =~= event@);
                    Err(err)
                },
                Err(e) => Err(e.context("Cannot decode pkt")),
            },
        }
    }

    /// Receives one frame and reads its payload as a message.
    ///
    /// `decode` reads the payload as the message expected. Where it finds
    /// none, `decode_error` reads the same payload, once, as a failure report.
    pub fn recv<S, T, D, F>(stream: &mut S, decode: D, decode_error: F) -> (r: Result<T, Error>)
        where
            S: ReadWrite,
            D: FnOnce(&[u8]) -> Option<T>,
            F: FnOnce(&[u8]) -> Result<EventError, Error>,
        requires
            forall|payload: &[u8]| call_requires(decode, (payload,)),
            forall|payload: &[u8]| call_requires(decode_error, (payload,)),
        ensures
            received_as(*old(stream), *final(stream), decode, decode_error, layers_of(r)),
    {
        let payload = match Tunnel::recv_frame(stream) {
            Ok(payload) => payload,
            Err(e) => {
                return Err(e);
            },
        };
        let bytes = payload.as_slice();
        let primary = decode(bytes);
        assert(call_ensures(decode, (bytes,), primary));
        assert(decodes_to(decode, payload@, primary));
        match primary {
            Some(msg) => Ok(msg),
            None => {
                let fallback = decode_error(bytes);
                assert(call_ensures(decode_error, (bytes,), fallback));
                assert(reports_as(decode_error, payload@, report_of(fallback)));
                Tunnel::decoded(None, fallback)
            },
        }
    }
}

/// A frame is its eight-byte header, which declares the payload's length,
/// followed by the payload and nothing else.
pub proof fn lemma_frame_parts(payload: Seq<u8>)
    requires
        payload.len() <= u64::MAX,
    ensures
        frame_of(payload).len() == 8 + payload.len(),
        declared_len(frame_of(payload).take(8)) == payload.len(),
        frame_of(payload).skip(8) == payload,
{
    lemma_auto_spec_u64_to_from_le_bytes();
    let header = spec_u64_to_le_bytes(payload.len() as u64);
    assert(frame_of(payload).take(8) =~= header);
    assert(frame_of(payload).skip(8) =~= payload);
}

/// Two payloads with the same frame are the same payload.
pub proof fn lemma_frame_unique(a: Seq<u8>, b: Seq<u8>)
    requires
        a.len() <= u64::MAX,
        b.len() <= u64::MAX,
        frame_of(a) == frame_of(b),
    ensures
        a == b,
{
    lemma_frame_parts(a);
    lemma_frame_parts(b);
}

/// A header that declares more than `MAX_PACKET_LEN` ends the reception, and
/// ends it in one way.
///
/// The stream handed over `wire`, which starts with such a header. Then no
/// payload came out of it; and if the reception failed, it failed with
/// `Packet too big!` right after the header, with nothing of what follows
/// the header read.
pub proof fn lemma_oversized_refused<S: ReadWrite>(
    before: S,
    after: S,
    wire: Seq<u8>,
    payload: Seq<u8>,
    e: Seq<Seq<char>>,
)
    requires
        wire.len() >= 8,
        declared_len(wire.take(8)) > MAX_PACKET_LEN,
        after.received() == before.received() + wire,
    ensures
        !took_frame(before, after, payload),
        frame_failure(before, after, e) ==> e == too_big() && wire.len() == 8,
{
    let base = before.received();
    assert((base + wire).skip(base.len() as int) =~= wire);
    if took_frame(before, after, payload) {
        lemma_frame_parts(payload);
        assert((base + frame_of(payload)).skip(base.len() as int) =~= frame_of(payload));
    }
    if frame_failure(before, after, e) {
        if after.received() == before.received() {
            assert((base + wire).len() == base.len());
        } else {
            let header = choose|header: Seq<u8>|
                {
                    &&& header.len() == 8
                    &&& after.received() == before.received() + header
                    &&& if #[trigger] declared_len(header) > MAX_PACKET_LEN {
                        e == too_big()
                    } else {
                        read_failure(e)
                    }
                };
            assert((base + header).skip(base.len() as int) =~= header);
            assert(header == wire);
            assert(wire.take(8) =~= wire);
        }
    }
}

/// What one side sends, the other receives.
///
/// The sending stream took `wire` for `msg`. The receiving stream handed
/// over `wire` or a part of it, `rest` being what it did not hand over. If
/// `encode` keeps the payload of `msg` within the bound and `decode` finds in
/// that payload nothing but `msg`, the receiver ends with `msg`, unless its
/// stream failed.
pub proof fn lemma_round_trip<S1, S2, T, E, D, F>(
    tx_before: S1,
    tx_after: S1,
    rx_before: S2,
    rx_after: S2,
    wire: Seq<u8>,
    rest: Seq<u8>,
    msg: T,
    encode: E,
    decode: D,
    decode_error: F,
    r: Result<T, Seq<Seq<char>>>,
)
    where
        S1: ReadWrite,
        S2: ReadWrite,
        E: FnOnce(T) -> Result<Vec<u8>, Error>,
        D: FnOnce(&[u8]) -> Option<T>,
        F: FnOnce(&[u8]) -> Result<EventError, Error>,
    requires
        sent_as(tx_before, tx_after, msg, encode, Ok(())),
        forall|payload: Seq<u8>| #[trigger]
            encodes_to(encode, msg, Ok(payload)) ==> payload.len() <= MAX_PACKET_LEN,
        forall|payload: Seq<u8>, found: Option<T>|
            encodes_to(encode, msg, Ok(payload)) && #[trigger] decodes_to(decode, payload, found)
                ==> found == Some(msg),
        tx_after.sent() == tx_before.sent() + wire,
        rx_after.received() + rest == rx_before.received() + wire,
        received_as(rx_before, rx_after, decode, decode_error, r),
    ensures
        r == Ok::<T, Seq<Seq<char>>>(msg) || (r matches Err(e) && read_failure(e)),
{
    let payload = choose|payload: Seq<u8>| #[trigger]
        encodes_to(encode, msg, Ok(payload)) && tx_after.sent() == tx_before.sent() + frame_of(
            payload,
        );
    lemma_frame_parts(payload);
    let tx = tx_before.sent();
    let rx = rx_before.received();
    assert((tx + wire).skip(tx.len() as int) =~= wire);
    assert((tx + frame_of(payload)).skip(tx.len() as int) =~= frame_of(payload));
    assert(wire == frame_of(payload));
    // What the receiver was handed, after where it stood, is a prefix of the frame.
    let taken = rx_after.received();
    assert(taken + rest == rx + wire);
    match r {
        Ok(found) => {
            let got = choose|got: Seq<u8>| #[trigger]
                took_frame(rx_before, rx_after, got) && decodes_to(decode, got, Some(found));
            lemma_frame_parts(got);
            assert(taken == rx + frame_of(got));
            lemma_same_start(rx, frame_of(got), rest, wire);
            assert(frame_of(got).take(8) =~= wire.take(8));
            assert(got.len() == payload.len());
            assert(rest.len() == 0);
            assert(frame_of(got) + rest =~= frame_of(got));
            lemma_frame_unique(got, payload);
        },
        Err(e) => {
            if !read_failure(e) {
                if frame_failure(rx_before, rx_after, e) {
                    let header = choose|header: Seq<u8>|
                        {
                            &&& header.len() == 8
                            &&& rx_after.received() == rx_before.received() + header
                            &&& #[trigger] declared_len(header) > MAX_PACKET_LEN
                            &&& e == too_big()
                        };
                    lemma_same_start(rx, header, rest, wire);
                    assert(header =~= wire.take(8));
                    assert(false);
                } else {
                    let (got, fallback) = choose|
                        got: Seq<u8>,
                        fallback: Result<Seq<Seq<char>>, Seq<Seq<char>>>,
                    |
                        {
                            &&& took_frame(rx_before, rx_after, got)
                            &&& decodes_to(decode, got, None::<T>)
                            &&& #[trigger] reports_as(decode_error, got, fallback)
                            &&& Err::<T, Seq<Seq<char>>>(e) == decoded_outcome(None::<T>, fallback)
                        };
                    lemma_frame_parts(got);
                    lemma_same_start(rx, frame_of(got), rest, wire);
                    assert(frame_of(got).take(8) =~= wire.take(8));
                    assert(rest.len() == 0);
                    assert(frame_of(got) + rest =~= frame_of(got));
                    lemma_frame_unique(got, payload);
                    assert(false);
                }
            }
        },
    }
}

/// Where `base + taken + rest` is `base + wire`, `taken + rest` is `wire`.
proof fn lemma_same_start(base: Seq<u8>, taken: Seq<u8>, rest: Seq<u8>, wire: Seq<u8>)
    requires
        (base + taken) + rest == base + wire,
    ensures
        taken + rest == wire,
        taken.len() + rest.len() == wire.len(),
        taken.len() <= wire.len() ==> taken == wire.take(taken.len() as int),
{
    assert(((base + taken) + rest).skip(base.len() as int) =~= taken + rest);
    assert((base + wire).skip(base.len() as int) =~= wire);
    assert((taken + rest).take(taken.len() as int) =~= taken);
}

} // verus!
