//! Codec and connection logic for the Game Boy link-cable network protocol.
//!
//! Every message is one 8-byte packet. [`RawBGBCommand`] is the packet itself,
//! [`TypedBgbCommand`] the closed set of commands it can carry, and
//! [`BgbStream`] a connection over any [`ByteChannel`] that exchanges one
//! packet at a time and performs the version handshake.
pub mod channel;
pub mod raw;
pub mod stream;
pub mod typed;

pub use channel::{ByteChannel, MemoryChannel, MemoryChannelError};
pub use raw::{BGBCommand, RawBGBCommand, RawBgbCommand};
pub use stream::{BgbStream, StreamError};
pub use typed::{CommandError, TypedBgbCommand};
