//! The byte channel a connection runs over, and an in-memory implementation.
use vstd::prelude::*;

verus! {

/// A reliable, ordered, bidirectional byte channel that moves whole 8-byte units.
///
/// The spec functions model the channel: what reads took, what writes handed
/// over, what has arrived and waits, whether writes can fail, and the last
/// error. An implementation is covered by the contracts below, and by those of
/// `BgbStream` built on them, only if it gives its own model and is verified
/// against it, as `MemoryChannel` is. The default bodies are no such model (no
/// read could meet its contract under them): they exist only so that code
/// outside verification, such as a TCP socket adapter, can implement the trait,
/// and for such an implementation nothing here is proved.
pub trait ByteChannel {
    /// What a failed read, write or query of the channel reports.
    type Error;

    /// Every byte that reads have taken, in order.
    closed spec fn taken(&self) -> Seq<u8> {
        Seq::empty()
    }

    /// Every byte that writes have handed to the channel, in order.
    closed spec fn given(&self) -> Seq<u8> {
        Seq::empty()
    }

    /// The bytes that have arrived and wait to be read, oldest first. More may
    /// arrive at any time, behind them.
    closed spec fn waiting(&self) -> Seq<u8> {
        Seq::empty()
    }

    /// Whether every write succeeds.
    closed spec fn accepts_writes(&self) -> bool {
        false
    }

    /// The error that the last failed call reported.
    closed spec fn last_error(&self) -> Option<Self::Error> {
        None
    }

    /// Blocks until eight bytes have arrived and takes them.
    fn read_exact(&mut self) -> (r: Result<[u8; 8], Self::Error>)
        ensures
            final(self).given() == old(self).given(),
            final(self).accepts_writes() == old(self).accepts_writes(),
            match r {
                Ok(b) => final(self).taken() == old(self).taken() + b@,
                Err(e) => final(self).last_error() == Some(e),
            },
            old(self).waiting().len() >= 8 ==> (r matches Ok(b) && b@ == old(self).waiting().take(8)
                && old(self).waiting().skip(8).is_prefix_of(final(self).waiting())),
    ;

    /// Blocks until all eight bytes are accepted by the channel.
    fn write_all(&mut self, bytes: &[u8; 8]) -> (r: Result<(), Self::Error>)
        ensures
            final(self).taken() == old(self).taken(),
            old(self).waiting().is_prefix_of(final(self).waiting()),
            final(self).accepts_writes() == old(self).accepts_writes(),
            match r {
                Ok(()) => final(self).given() == old(self).given() + bytes@,
                Err(e) => final(self).last_error() == Some(e),
            },
            old(self).accepts_writes() ==> r is Ok,
    ;

    /// How many bytes, up to eight, wait to be read; takes none.
    fn peek_len(&mut self) -> (r: Result<usize, Self::Error>)
        ensures
            final(self).taken() == old(self).taken(),
            final(self).given() == old(self).given(),
            old(self).waiting().is_prefix_of(final(self).waiting()),
            final(self).accepts_writes() == old(self).accepts_writes(),
            match r {
                Ok(n) => n as int == if old(self).waiting().len() < 8 {
                    old(self).waiting().len() as int
                } else {
                    8
                },
                Err(e) => final(self).last_error() == Some(e),
            },
    ;
}

/// A channel over two byte queues held in memory: bytes put into the inbox
/// are read in order, and written bytes collect in the outbox until drained.
///
/// It keeps ghost histories of the bytes read and written, which
/// draining the outbox does not clear.
pub struct MemoryChannel {
    incoming: std::collections::VecDeque<u8>,
    outgoing: Vec<u8>,
    taken: Ghost<Seq<u8>>,
    given: Ghost<Seq<u8>>,
    last_error: Ghost<Option<MemoryChannelError>>,
}

/// The inbox of a memory channel holds fewer bytes than a read needs.
#[derive(Debug, Clone, Copy, PartialEq, Eq, Structural)]
pub enum MemoryChannelError {
    Exhausted,
}

impl MemoryChannel {
    /// The bytes written and not yet drained, oldest first.
    pub closed spec fn outgoing(&self) -> Seq<u8> {
        self.outgoing@
    }

    /// A channel with nothing to read and nothing written.
    pub fn new() -> (r: MemoryChannel)
        ensures
            r.waiting() == Seq::<u8>::empty(),
            r.outgoing() == Seq::<u8>::empty(),
            r.taken() == Seq::<u8>::empty(),
            r.given() == Seq::<u8>::empty(),
            r.last_error() == None::<MemoryChannelError>,
            r.accepts_writes(),
    {
        MemoryChannel {
            incoming: std::collections::VecDeque::new(),
            outgoing: Vec::new(),
            taken: Ghost(Seq::empty()),
            given: Ghost(Seq::empty()),
            last_error: Ghost(None),
        }
    }

    /// Appends `bytes` to what the channel will hand to reads.
    pub fn push_incoming(&mut self, bytes: &Vec<u8>)
        ensures
            final(self).waiting() == old(self).waiting() + bytes@,
            final(self).outgoing() == old(self).outgoing(),
            final(self).taken() == old(self).taken(),
            final(self).given() == old(self).given(),
            final(self).last_error() == old(self).last_error(),
            final(self).accepts_writes(),
    {
        let mut i: usize = 0;
        while i < bytes.len()
            invariant
                i <= bytes@.len(),
                self.waiting() == old(self).waiting() + bytes@.take(i as int),
                self.outgoing() == old(self).outgoing(),
                self.taken == old(self).taken,
                self.given == old(self).given,
                self.last_error == old(self).last_error,
            decreases bytes@.len() - i,
        {
            self.incoming.push_back(bytes[i]);
            i = i + 1;
            assert(bytes@.take(i as int) =~= bytes@.take(i - 1) + seq![bytes@[i - 1]]);
        }
        assert(bytes@.take(i as int) =~= bytes@);
    }

    /// Takes every written byte that was not drained before.
    pub fn drain_outgoing(&mut self) -> (r: Vec<u8>)
        ensures
            r@ == old(self).outgoing(),
            final(self).outgoing() == Seq::<u8>::empty(),
            final(self).waiting() == old(self).waiting(),
            final(self).taken() == old(self).taken(),
            final(self).given() == old(self).given(),
            final(self).last_error() == old(self).last_error(),
            final(self).accepts_writes(),
    {
        let mut r: Vec<u8> = Vec::new();
        std::mem::swap(&mut r, &mut self.outgoing);
        r
    }

    /// Takes the eight oldest waiting bytes, if there are eight.
    fn take_unit(&mut self) -> (r: Option<[u8; 8]>)
        ensures
            final(self).outgoing() == old(self).outgoing(),
            final(self).taken() == old(self).taken(),
            final(self).given() == old(self).given(),
            final(self).last_error() == old(self).last_error(),
            match r {
                Some(b) => old(self).waiting().len() >= 8 && b@ == old(self).waiting().take(8)
                    && final(self).waiting() == old(self).waiting().skip(8),
                None => old(self).waiting().len() < 8 && final(self).waiting() == old(
                    self,
                ).waiting(),
            },
    {
        if self.incoming.len() < 8 {
            return None;
        }
        let b: [u8; 8] = [
            self.incoming[0],
            self.incoming[1],
            self.incoming[2],
            self.incoming[3],
            self.incoming[4],
            self.incoming[5],
            self.incoming[6],
            self.incoming[7],
        ];
        let mut i: usize = 0;
        while i < 8
            invariant
                i <= 8,
                self.incoming@ == old(self).incoming@.skip(i as int),
                old(self).incoming@.len() >= 8,
                self.outgoing@ == old(self).outgoing@,
                self.taken == old(self).taken,
                self.given == old(self).given,
                self.last_error == old(self).last_error,
            decreases 8 - i,
        {
            self.incoming.pop_front();
            i = i + 1;
        }
        assert(b@ =~= old(self).incoming@.take(8));
        Some(b)
    }

    /// Appends eight bytes to the outbox.
    fn put_unit(&mut self, bytes: &[u8; 8])
        ensures
            final(self).outgoing() == old(self).outgoing() + bytes@,
            final(self).waiting() == old(self).waiting(),
            final(self).taken() == old(self).taken(),
            final(self).given() == old(self).given(),
            final(self).last_error() == old(self).last_error(),
    {
        let mut i: usize = 0;
        while i < 8
            invariant
                i <= 8,
                self.incoming@ == old(self).incoming@,
                self.outgoing@ == old(self).outgoing@ + bytes@.take(i as int),
                self.taken == old(self).taken,
                self.given == old(self).given,
                self.last_error == old(self).last_error,
            decreases 8 - i,
        {
            self.outgoing.push(bytes[i]);
            i = i + 1;
            assert(bytes@.take(i as int) =~= bytes@.take(i - 1) + seq![bytes@[i - 1]]);
        }
        assert(bytes@.take(8) =~= bytes@);
    }

    /// How many bytes, up to eight, are waiting.
    fn pending_len(&self) -> (r: usize)
        ensures
            r as int == if self.waiting().len() < 8 { self.waiting().len() as int } else { 8 },
    {
        if self.incoming.len() < 8 {
            self.incoming.len()
        } else {
            8
        }
    }
}

impl ByteChannel for MemoryChannel {
    type Error = MemoryChannelError;

    closed spec fn taken(&self) -> Seq<u8> {
        self.taken@
    }

    closed spec fn given(&self) -> Seq<u8> {
        self.given@
    }

    closed spec fn waiting(&self) -> Seq<u8> {
        self.incoming@
    }

    closed spec fn accepts_writes(&self) -> bool {
        true
    }

    closed spec fn last_error(&self) -> Option<MemoryChannelError> {
        self.last_error@
    }

    fn read_exact(&mut self) -> (r: Result<[u8; 8], MemoryChannelError>) {
        match self.take_unit() {
            Some(b) => {
                self.taken = Ghost(self.taken@ + b@);
                proof {
                    assert(self.incoming@.is_prefix_of(self.incoming@));
                }
                Ok(b)
            },
            None => {
                self.last_error = Ghost(Some(MemoryChannelError::Exhausted));
                Err(MemoryChannelError::Exhausted)
            },
        }
    }

    fn write_all(&mut self, bytes: &[u8; 8]) -> (r: Result<(), MemoryChannelError>) {
        self.put_unit(bytes);
        self.given = Ghost(self.given@ + bytes@);
        assert(self.incoming@.is_prefix_of(self.incoming@));
        Ok(())
    }

    fn peek_len(&mut self) -> (r: Result<usize, MemoryChannelError>) {
        assert(self.incoming@.is_prefix_of(self.incoming@));
        Ok(self.pending_len())
    }
}

} // verus!
