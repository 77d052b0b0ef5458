//! A connection that exchanges one 8-byte packet at a time over a byte channel.
use vstd::prelude::*;
use crate::channel::ByteChannel;
use crate::raw::{BGBCommand, RawBGBCommand, lemma_bytes_round_trip, packet_bytes, packet_of};
use crate::typed::{
    CommandError, TypedBgbCommand, command_bytes, decode, lemma_wire_round_trip, well_formed,
};

verus! {

/// Why an operation on a connection failed.
#[derive(Debug, PartialEq, Eq, Structural)]
pub enum StreamError<E> {
    /// The channel failed; its error is passed on unchanged.
    Io(E),
    /// Eight bytes arrived that are no command.
    MalformedData(CommandError),
    /// The peer's first command was not a valid `Version`.
    HandshakeFailed,
}

/// `after` is `before` followed by one 8-byte unit.
pub open spec fn took_unit(before: Seq<u8>, after: Seq<u8>) -> bool {
    after.len() == before.len() + 8 && after.take(before.len() as int) == before
}

/// The last eight bytes of `s`.
pub open spec fn last_unit(s: Seq<u8>) -> Seq<u8> {
    s.skip(s.len() - 8)
}

/// The command that opens a handshake, and the only one accepted in reply.
pub open spec fn hello() -> TypedBgbCommand {
    TypedBgbCommand::Version { valid: true }
}

/// Whether a handshake accepts the peer's first eight bytes.
pub open spec fn accepts_reply(unit: Seq<u8>) -> bool {
    decode(packet_of(unit)) == Ok::<TypedBgbCommand, CommandError>(hello())
}

/// Whether a peek that saw `n` bytes found a whole packet waiting.
pub fn unit_waiting(n: usize) -> (r: bool)
    ensures
        r == (n >= 8),
{
    n >= 8
}

/// A connection that owns its channel. It keeps no state besides the channel:
/// no partial packet is ever buffered.
pub struct BgbStream<T: ByteChannel> {
    inner: T,
}

impl<T: ByteChannel> BgbStream<T> {
    /// The channel the connection runs over.
    pub closed spec fn channel(&self) -> T {
        self.inner
    }

    /// Every byte that the connection took from its channel, in order.
    pub open spec fn received(&self) -> Seq<u8> {
        self.channel().taken()
    }

    /// Every byte that the connection handed to its channel, in order.
    pub open spec fn sent(&self) -> Seq<u8> {
        self.channel().given()
    }

    /// Takes ownership of an open channel; no I/O is done.
    pub fn wrap(inner: T) -> (r: BgbStream<T>)
        ensures
            r.channel() == inner,
    {
        BgbStream { inner }
    }

    /// The channel, for inspection.
    pub fn get_ref(&self) -> (r: &T)
        ensures
            *r == self.channel(),
    {
        &self.inner
    }

    /// The channel, for direct use.
    pub fn get_mut(&mut self) -> (r: &mut T)
        ensures
            *r == old(self).channel(),
            final(self).channel() == *final(r),
    {
        &mut self.inner
    }

    /// Gives the channel back.
    pub fn into_inner(self) -> (r: T)
        ensures
            r == self.channel(),
    {
        self.inner
    }

    /// Reads eight bytes and returns the packet they form. A channel error is
    /// passed on unchanged.
    pub fn read_raw(&mut self) -> (r: Result<RawBGBCommand, StreamError<T::Error>>)
        ensures
            final(self).sent() == old(self).sent(),
            final(self).channel().accepts_writes() == old(self).channel().accepts_writes(),
            match r {
                Ok(p) => final(self).received() == old(self).received() + packet_bytes(p),
                Err(StreamError::Io(e)) => final(self).channel().last_error() == Some(e),
                Err(_) => false,
            },
            old(self).channel().waiting().len() >= 8 ==> (r matches Ok(p) && p == packet_of(
                old(self).channel().waiting().take(8),
            ) && old(self).channel().waiting().skip(8).is_prefix_of(final(self).channel().waiting())),
    {
        match self.inner.read_exact() {
            Ok(buf) => {
                let p = RawBGBCommand::deserialize(&buf);
                proof {
                    lemma_bytes_round_trip(buf@);
                }
                Ok(p)
            },
            Err(e) => Err(StreamError::Io(e)),
        }
    }

    /// Reads eight bytes and decodes them. A packet that is no command gives
    /// `MalformedData`, and the connection stays usable; a channel error is
    /// passed on unchanged.
    pub fn read(&mut self) -> (r: Result<TypedBgbCommand, StreamError<T::Error>>)
        ensures
            final(self).sent() == old(self).sent(),
            final(self).channel().accepts_writes() == old(self).channel().accepts_writes(),
            match r {
                Ok(c) => took_unit(old(self).received(), final(self).received())
                    && decode(packet_of(last_unit(final(self).received()))) == Ok::<
                    TypedBgbCommand,
                    CommandError,
                >(c),
                Err(StreamError::MalformedData(e)) => took_unit(
                    old(self).received(),
                    final(self).received(),
                ) && decode(packet_of(last_unit(final(self).received()))) == Err::<
                    TypedBgbCommand,
                    CommandError,
                >(e),
                Err(StreamError::Io(e)) => final(self).channel().last_error() == Some(e),
                Err(StreamError::HandshakeFailed) => false,
            },
            old(self).channel().waiting().len() >= 8 ==> !(r matches Err(StreamError::Io(_)))
                && last_unit(final(self).received()) == old(self).channel().waiting().take(8)
                && old(self).channel().waiting().skip(8).is_prefix_of(
                final(self).channel().waiting(),
            ),
    {
        match self.read_raw() {
            Ok(raw) => {
                proof {
                    let before = old(self).received();
                    assert(self.received().take(before.len() as int) =~= before);
                    assert(last_unit(self.received()) =~= packet_bytes(raw));
                    crate::raw::lemma_packet_round_trip(raw);
                    assert(packet_of(last_unit(self.received())) == raw);
                }
                match TypedBgbCommand::from_raw(&raw) {
                    Ok(c) => Ok(c),
                    Err(e) => Err(StreamError::MalformedData(e)),
                }
            },
            Err(e) => Err(e),
        }
    }

    /// Writes the eight bytes of `command` to the channel. A channel error is
    /// passed on unchanged.
    pub fn write<C: BGBCommand>(&mut self, command: &C) -> (r: Result<(), StreamError<T::Error>>)
        ensures
            final(self).received() == old(self).received(),
            old(self).channel().waiting().is_prefix_of(final(self).channel().waiting()),
            final(self).channel().accepts_writes() == old(self).channel().accepts_writes(),
            match r {
                Ok(()) => final(self).sent() == old(self).sent() + command.wire(),
                Err(StreamError::Io(e)) => final(self).channel().last_error() == Some(e),
                Err(_) => false,
            },
            old(self).channel().accepts_writes() ==> r is Ok,
    {
        match self.inner.write_all(&command.serialize()) {
            Ok(()) => Ok(()),
            Err(e) => Err(StreamError::Io(e)),
        }
    }

    /// Reads a packet only if a whole one is waiting; otherwise takes nothing
    /// and returns `None`.
    pub fn maybe_read_raw(&mut self) -> (r: Result<Option<RawBGBCommand>, StreamError<T::Error>>)
        ensures
            final(self).sent() == old(self).sent(),
            final(self).channel().accepts_writes() == old(self).channel().accepts_writes(),
            match r {
                Ok(Some(p)) => old(self).channel().waiting().len() >= 8 && p == packet_of(
                    old(self).channel().waiting().take(8),
                ) && final(self).received() == old(self).received() + packet_bytes(p),
                Ok(None) => old(self).channel().waiting().len() < 8 && final(self).received() == old(
                    self,
                ).received(),
                Err(StreamError::Io(e)) => final(self).channel().last_error() == Some(e),
                Err(_) => false,
            },
            r matches Ok(None) ==> old(self).channel().waiting().is_prefix_of(
                final(self).channel().waiting(),
            ),
            r matches Ok(Some(_)) ==> old(self).channel().waiting().skip(8).is_prefix_of(
                final(self).channel().waiting(),
            ),
            r is Err ==> final(self).received() == old(self).received(),
    {
        match self.inner.peek_len() {
            Ok(n) => {
                if unit_waiting(n) {
                    let ghost w0 = old(self).channel().waiting();
                    let ghost w1 = self.channel().waiting();
                    assert(w1.take(8) =~= w0.take(8));
                    assert(w0.skip(8).is_prefix_of(w1.skip(8))) by {
                        assert(w0.skip(8) =~= w1.skip(8).subrange(0, w0.len() - 8));
                    }
                    match self.read_raw() {
                        Ok(p) => Ok(Some(p)),
                        Err(e) => Err(e),
                    }
                } else {
                    Ok(None)
                }
            },
            Err(e) => Err(StreamError::Io(e)),
        }
    }

    /// As `maybe_read_raw`, decoding the packet as `read` does.
    pub fn maybe_read(&mut self) -> (r: Result<Option<TypedBgbCommand>, StreamError<T::Error>>)
        ensures
            final(self).sent() == old(self).sent(),
            final(self).channel().accepts_writes() == old(self).channel().accepts_writes(),
            match r {
                Ok(None) => old(self).channel().waiting().len() < 8 && final(self).received() == old(
                    self,
                ).received(),
                Err(StreamError::Io(e)) => final(self).channel().last_error() == Some(e),
                Err(StreamError::HandshakeFailed) => false,
                Ok(Some(c)) => old(self).channel().waiting().len() >= 8 && final(self).received()
                    == old(self).received() + old(self).channel().waiting().take(8) && decode(
                    packet_of(old(self).channel().waiting().take(8)),
                ) == Ok::<TypedBgbCommand, CommandError>(c),
                Err(StreamError::MalformedData(e)) => old(self).channel().waiting().len() >= 8
                    && final(self).received() == old(self).received() + old(
                    self,
                ).channel().waiting().take(8) && decode(
                    packet_of(old(self).channel().waiting().take(8)),
                ) == Err::<TypedBgbCommand, CommandError>(e),
            },
            r matches Ok(None) ==> old(self).channel().waiting().is_prefix_of(
                final(self).channel().waiting(),
            ),
            (r matches Ok(Some(_)) || r matches Err(StreamError::MalformedData(_))) ==> old(
                self,
            ).channel().waiting().skip(8).is_prefix_of(final(self).channel().waiting()),
            r matches Err(StreamError::Io(_)) ==> final(self).received() == old(self).received(),
    {
        match self.maybe_read_raw() {
            Ok(Some(raw)) => {
                proof {
                    lemma_bytes_round_trip(old(self).channel().waiting().take(8));
                }
                match TypedBgbCommand::from_raw(&raw) {
                    Ok(c) => Ok(Some(c)),
                    Err(e) => Err(StreamError::MalformedData(e)),
                }
            },
            Ok(None) => Ok(None),
            Err(e) => Err(e),
        }
    }

    /// First half of the handshake: sends `Version { valid: true }`.
    pub fn begin_handshake(&mut self) -> (r: Result<(), StreamError<T::Error>>)
        ensures
            final(self).received() == old(self).received(),
            old(self).channel().waiting().is_prefix_of(final(self).channel().waiting()),
            final(self).channel().accepts_writes() == old(self).channel().accepts_writes(),
            match r {
                Ok(()) => final(self).sent() == old(self).sent() + command_bytes(hello()),
                Err(StreamError::Io(e)) => final(self).channel().last_error() == Some(e),
                Err(_) => false,
            },
            old(self).channel().accepts_writes() ==> r is Ok,
    {
        self.write(&TypedBgbCommand::Version { valid: true })
    }

    /// Second half of the handshake: reads one command and succeeds exactly
    /// when it is `Version { valid: true }`. Any other command, or a packet
    /// that is no command, gives `HandshakeFailed`; a channel error is passed
    /// on unchanged.
    pub fn finish_handshake(&mut self) -> (r: Result<(), StreamError<T::Error>>)
        ensures
            final(self).sent() == old(self).sent(),
            final(self).channel().accepts_writes() == old(self).channel().accepts_writes(),
            r matches Err(StreamError::Io(e)) ==> final(self).channel().last_error() == Some(e),
            !(r matches Err(StreamError::MalformedData(_))),
            !(r matches Err(StreamError::Io(_))) ==> took_unit(
                old(self).received(),
                final(self).received(),
            ) && (r is Ok <==> accepts_reply(last_unit(final(self).received()))),
            old(self).channel().waiting().len() >= 8 ==> !(r matches Err(StreamError::Io(_)))
                && last_unit(final(self).received()) == old(self).channel().waiting().take(8)
                && old(self).channel().waiting().skip(8).is_prefix_of(
                final(self).channel().waiting(),
            ),
    {
        match self.read() {
            Ok(c) => {
                if c == (TypedBgbCommand::Version { valid: true }) {
                    Ok(())
                } else {
                    Err(StreamError::HandshakeFailed)
                }
            },
            Err(StreamError::Io(e)) => Err(StreamError::Io(e)),
            Err(_) => Err(StreamError::HandshakeFailed),
        }
    }

    /// The whole handshake, the same on both ends: send `Version { valid: true }`,
    /// then read one command, and succeed exactly when it is the same. The
    /// write comes first; when it fails nothing is read.
    pub fn handshake(&mut self) -> (r: Result<(), StreamError<T::Error>>)
        ensures
            final(self).channel().accepts_writes() == old(self).channel().accepts_writes(),
            r matches Err(StreamError::Io(e)) ==> final(self).channel().last_error() == Some(e),
            !(r matches Err(StreamError::MalformedData(_))),
            !(r matches Err(StreamError::Io(_))) ==> final(self).sent() == old(self).sent()
                + command_bytes(hello()) && took_unit(old(self).received(), final(self).received())
                && (r is Ok <==> accepts_reply(last_unit(final(self).received()))),
            old(self).channel().accepts_writes() && old(self).channel().waiting().len() >= 8 ==> !(
            r matches Err(StreamError::Io(_))) && last_unit(final(self).received()) == old(
                self,
            ).channel().waiting().take(8) && old(self).channel().waiting().skip(8).is_prefix_of(
                final(self).channel().waiting(),
            ),
            final(self).received() != old(self).received() ==> final(self).sent() == old(
                self,
            ).sent() + command_bytes(hello()),
    {
        match self.begin_handshake() {
            Ok(()) => {
                let ghost w0 = old(self).channel().waiting();
                let ghost w1 = self.channel().waiting();
                proof {
                    if w0.len() >= 8 {
                        assert(w1.take(8) =~= w0.take(8));
                        assert(w0.skip(8) =~= w1.skip(8).subrange(0, w0.len() - 8));
                    }
                }
                self.finish_handshake()
            },
            Err(e) => Err(e),
        }
    }
}

/// When the bytes waiting on a connection start with the wire form of a
/// well-formed command that the peer wrote, a read takes exactly those eight
/// bytes and returns that command, and a handshake accepts them if and only if
/// the command is `Version { valid: true }`.
pub proof fn lemma_peer_command_arrives(c: TypedBgbCommand, rest: Seq<u8>)
    requires
        well_formed(c),
    ensures
        (command_bytes(c) + rest).len() >= 8,
        (command_bytes(c) + rest).take(8) == command_bytes(c),
        decode(packet_of((command_bytes(c) + rest).take(8))) == Ok::<TypedBgbCommand, CommandError>(
            c,
        ),
        accepts_reply((command_bytes(c) + rest).take(8)) <==> c == hello(),
{
    lemma_wire_round_trip(c);
    assert((command_bytes(c) + rest).take(8) =~= command_bytes(c));
}

} // verus!
