//! The byte stream under the tunnel: what a transport offers, the record of
//! what went through it, and a stream that lives in memory.

use crate::error::Error;
use vstd::prelude::*;

verus! {

/// A blocking bidirectional transport: a socket, a pair of pipes, the
/// standard input and output of a process.
///
/// This is the trait to implement for a transport. Nothing is assumed of an
/// implementation: `Recorded` checks what it hands back.
pub trait Transport {
    /// Reads exactly `len` bytes, or fails if the transport ends or breaks
    /// first.
    fn read_exact(&mut self, len: usize) -> Result<Vec<u8>, Error>;

    /// Writes all of `bytes`, or fails if the transport does not take them
    /// all.
    fn write_all(&mut self, bytes: &[u8]) -> Result<(), Error>;
}

/// A byte stream as the tunnel sees it: one that either moves all the bytes
/// asked for or fails, and whose history is known.
///
/// The two spec functions are the stream's history: the bytes of the reads
/// and of the writes that succeeded. Nothing is promised of the bytes to
/// come; a call that succeeds extends the history, a call that fails leaves
/// it as it was.
pub trait ReadWrite {
    /// Every byte handed to the reader so far, in order.
    spec fn received(&self) -> Seq<u8>;

    /// Every byte taken from the writer so far, in order.
    spec fn sent(&self) -> Seq<u8>;

    /// Reads exactly `len` bytes, or fails if the stream ends or breaks first.
    fn read_exact(&mut self, len: usize) -> (r: Result<Vec<u8>, Error>)
        ensures
            final(self).sent() == old(self).sent(),
            r matches Ok(bytes) ==> bytes@.len() == len
                && final(self).received() == old(self).received() + bytes@,
            r is Err ==> final(self).received() == old(self).received(),
    ;

    /// Writes all of `bytes`, or fails if the stream does not take them all.
    fn write_all(&mut self, bytes: &[u8]) -> (r: Result<(), Error>)
        ensures
            final(self).received() == old(self).received(),
            r is Ok ==> final(self).sent() == old(self).sent() + bytes@,
            r is Err ==> final(self).sent() == old(self).sent(),
    ;
}

/// What a stream returns for a read of `len` bytes to which its transport
/// answered `given`: the bytes if there are `len` of them, the transport's
/// failure if it failed, and a failure of its own if the transport came back
/// with another number of bytes.
pub open spec fn read_outcome(
    given: Result<Vec<u8>, Error>,
    len: usize,
    r: Result<Vec<u8>, Error>,
) -> bool {
    match given {
        Ok(bytes) => if bytes@.len() == len {
            r == Ok::<Vec<u8>, Error>(bytes)
        } else {
            r matches Err(e) && e@ == seq!["failed to fill whole buffer"@]
        },
        Err(e) => r == Err::<Vec<u8>, Error>(e),
    }
}

/// A transport together with the record of what went through it.
pub struct Recorded<T> {
    transport: T,
    received: Ghost<Seq<u8>>,
    sent: Ghost<Seq<u8>>,
}

impl<T: Transport> Recorded<T> {
    /// The transport under the stream.
    pub closed spec fn transport(&self) -> T {
        self.transport
    }

    /// The stream over `transport`, with nothing gone through it yet.
    pub fn new(transport: T) -> (s: Self)
        ensures
            s.transport() == transport,
            s.received() == Seq::<u8>::empty(),
            s.sent() == Seq::<u8>::empty(),
    {
        Recorded { transport, received: Ghost(Seq::empty()), sent: Ghost(Seq::empty()) }
    }

    /// The transport, back from under the stream.
    pub fn into_inner(self) -> (transport: T)
        ensures
            transport == self.transport(),
    {
        self.transport
    }
}

impl<T: Transport> ReadWrite for Recorded<T> {
    closed spec fn received(&self) -> Seq<u8> {
        self.received@
    }

    closed spec fn sent(&self) -> Seq<u8> {
        self.sent@
    }

    /// Asks the transport, once, for `len` bytes and hands on its answer. A
    /// transport that comes back with another number of bytes than it was
    /// asked for has failed.
    fn read_exact(&mut self, len: usize) -> (r: Result<Vec<u8>, Error>)
        ensures
            exists|transport: &mut T, given: Result<Vec<u8>, Error>|
                {
                    &&& *transport == old(self).transport()
                    &&& *final(transport) == final(self).transport()
                    &&& #[trigger] call_ensures(T::read_exact, (transport, len), given)
                    &&& read_outcome(given, len, r)
                },
    {
        let given = self.transport.read_exact(len);
        match given {
            Ok(bytes) => {
                if bytes.len() == len {
                    self.received = Ghost(self.received@ + bytes@);
                    Ok(bytes)
                } else {
                    Err(Error::msg("failed to fill whole buffer"))
                }
            },
            Err(e) => Err(e),
        }
    }

    /// Hands `bytes` to the transport, once, and hands on its answer.
    fn write_all(&mut self, bytes: &[u8]) -> (r: Result<(), Error>)
        ensures
            exists|transport: &mut T, handed: &[u8]|
                {
                    &&& *transport == old(self).transport()
                    &&& *final(transport) == final(self).transport()
                    &&& handed@ == bytes@
                    &&& #[trigger] call_ensures(T::write_all, (transport, handed), r)
                },
    {
        let given = self.transport.write_all(bytes);
        if given.is_ok() {
            self.sent = Ghost(self.sent@ + bytes@);
        }
        given
    }
}

/// A stream in memory that hands back, in order, the bytes written to it.
#[derive(Debug, Clone, PartialEq, Eq)]
pub struct Loopback {
    taken: Vec<u8>,
    waiting: Vec<u8>,
}

impl Loopback {
    /// The bytes written and not yet read.
    pub closed spec fn pending(&self) -> Seq<u8> {
        self.waiting@
    }

    /// An empty stream: nothing written, nothing to read.
    pub fn new() -> (s: Loopback)
        ensures
            s.sent() == Seq::<u8>::empty(),
            s.received() == Seq::<u8>::empty(),
            s.pending() == Seq::<u8>::empty(),
    {
        let s = Loopback { taken: Vec::new(), waiting: Vec::new() };
        assert(s.taken@ + s.waiting@ =~= Seq::<u8>::empty());
        s
    }

    /// How many bytes a reader can still take.
    pub fn available(&self) -> (n: usize)
        ensures
            n == self.pending().len(),
    {
        self.waiting.len()
    }

    /// A copy of everything written so far.
    pub fn written(&self) -> (bytes: Vec<u8>)
        ensures
            bytes@ == self.sent(),
    {
        let mut bytes = self.taken.clone();
        let mut i: usize = 0;
        while i < self.waiting.len()
            invariant
                i <= self.waiting@.len(),
                bytes@ =~= self.taken@ + self.waiting@.take(i as int),
            decreases self.waiting@.len() - i,
        {
            bytes.push(self.waiting[i]);
            i += 1;
        }
        assert(self.waiting@.take(i as int) =~= self.waiting@);
        bytes
    }

    /// What was written is what was read followed by what is pending.
    pub proof fn lemma_history(&self)
        ensures
            self.sent() == self.received() + self.pending(),
    {
    }
}

impl ReadWrite for Loopback {
    closed spec fn received(&self) -> Seq<u8> {
        self.taken@
    }

    closed spec fn sent(&self) -> Seq<u8> {
        self.taken@ + self.waiting@
    }

    /// Succeeds exactly when `len` bytes are pending, and then takes the
    /// first `len` of them; a failure takes nothing.
    fn read_exact(&mut self, len: usize) -> (r: Result<Vec<u8>, Error>)
        ensures
            r is Ok <==> len <= old(self).pending().len(),
            r matches Ok(bytes) ==> bytes@ == old(self).pending().take(len as int)
                && final(self).pending() == old(self).pending().skip(len as int),
            r matches Err(e) ==> e@ == seq!["failed to fill whole buffer"@]
                && *final(self) == *old(self),
    {
        if self.waiting.len() < len {
            return Err(Error::msg("failed to fill whole buffer"));
        }
        let ghost taken = self.taken@;
        let ghost waiting = self.waiting@;
        let mut bytes: Vec<u8> = Vec::new();
        let mut i: usize = 0;
        while i < len
            invariant
                i <= len <= waiting.len(),
                self.waiting@ == waiting,
                bytes@ =~= waiting.take(i as int),
                self.taken@ =~= taken + waiting.take(i as int),
            decreases len - i,
        {
            bytes.push(self.waiting[i]);
            self.taken.push(self.waiting[i]);
            i += 1;
        }
        let mut rest: Vec<u8> = Vec::new();
        while i < self.waiting.len()
            invariant
                len <= i <= waiting.len(),
                self.waiting@ == waiting,
                self.taken@ == taken + waiting.take(len as int),
                rest@ =~= waiting.subrange(len as int, i as int),
            decreases waiting.len() - i,
        {
            rest.push(self.waiting[i]);
            i += 1;
        }
        self.waiting = rest;
        proof {
            assert(self.waiting@ =~= waiting.skip(len as int));
            assert(self.taken@ + self.waiting@ =~= taken + waiting);
        }
        Ok(bytes)
    }

    /// Always succeeds: the bytes join the end of what is pending.
    fn write_all(&mut self, bytes: &[u8]) -> (r: Result<(), Error>)
        ensures
            r is Ok,
            final(self).pending() == old(self).pending() + bytes@,
    {
        let ghost waiting = self.waiting@;
        let mut i: usize = 0;
        while i < bytes.len()
            invariant
                i <= bytes@.len(),
                self.taken@ == old(self).taken@,
                self.waiting@ =~= waiting + bytes@.take(i as int),
            decreases bytes@.len() - i,
        {
            self.waiting.push(bytes[i]);
            i += 1;
        }
        proof {
            assert(bytes@.take(i as int) =~= bytes@);
            assert(self.taken@ + self.waiting@ =~= (old(self).taken@ + waiting) + bytes@);
        }
        Ok(())
    }
}

} // verus!
