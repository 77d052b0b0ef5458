//! The typed commands and their mapping to and from the raw packet.
use vstd::prelude::*;
use crate::raw::{BGBCommand, RawBGBCommand, packet_bytes, packet_of};

verus! {

/// A command of the link-cable protocol, with only the fields it carries.
#[derive(Debug, Clone, Copy, PartialEq, Eq, Structural)]
pub enum TypedBgbCommand {
    Version { valid: bool },
    /// `button_number` is a 3-bit field: only its low three bits are sent.
    Joypad { button_number: u8, pressed: bool },
    Sync1 { data: u8, high_speed: bool, double_speed: bool, timestamp: u32 },
    Sync2 { data: u8 },
    Sync3Response,
    Sync3Timestamp { timestamp: u32 },
    Status { running: bool, paused: bool, support_reconnect: bool },
    WantDisconnect,
}

/// Why a packet does not decode to a command.
#[derive(Debug, Clone, Copy, PartialEq, Eq, Structural)]
pub enum CommandError {
    /// `b1` is not the tag of any command.
    UnknownCommand { tag: u8 },
    /// The tag is that of `Sync3`, but `b2` is neither 0 nor 1.
    InvalidSync3Variant { value: u8 },
}

impl CommandError {
    /// A short description of the error.
    pub fn message(&self) -> (r: &'static str)
        ensures
            r@ == self.spec_message(),
    {
        match self {
            CommandError::UnknownCommand { .. } => "invalid command number",
            CommandError::InvalidSync3Variant { .. } => "invalid sync3 command",
        }
    }

    pub open spec fn spec_message(&self) -> Seq<char> {
        match self {
            CommandError::UnknownCommand { .. } => "invalid command number"@,
            CommandError::InvalidSync3Variant { .. } => "invalid sync3 command"@,
        }
    }
}

/// `v` if `b`, else 0.
pub open spec fn flag(b: bool, v: u8) -> u8 {
    if b { v } else { 0 }
}

/// Whether bit mask `m` is set in `x`.
pub open spec fn has_bit(x: u8, m: u8) -> bool {
    x & m != 0
}

/// A packet with the given tag and fields.
pub open spec fn packet(b1: u8, b2: u8, b3: u8, i1: u32) -> RawBGBCommand {
    RawBGBCommand { b1, b2, b3, b4: 0, i1 }
}

/// The canonical packet of a command.
pub open spec fn encode(c: TypedBgbCommand) -> RawBGBCommand {
    match c {
        TypedBgbCommand::Version { valid } => if valid {
            packet(1, 1, 4, 0)
        } else {
            packet(1, 0, 0, 0)
        },
        TypedBgbCommand::Joypad { button_number, pressed } => packet(
            101,
            (button_number & 7) | flag(pressed, 8),
            0,
            0,
        ),
        TypedBgbCommand::Sync1 { data, high_speed, double_speed, timestamp } => packet(
            104,
            data,
            0x81u8 | flag(high_speed, 2) | flag(double_speed, 4),
            timestamp,
        ),
        TypedBgbCommand::Sync2 { data } => packet(105, data, 0x80, 0),
        TypedBgbCommand::Sync3Response => packet(106, 1, 0, 0),
        TypedBgbCommand::Sync3Timestamp { timestamp } => packet(106, 0, 0, timestamp),
        TypedBgbCommand::Status { running, paused, support_reconnect } => packet(
            108,
            flag(running, 1) | flag(paused, 2) | flag(support_reconnect, 4),
            0,
            0,
        ),
        TypedBgbCommand::WantDisconnect => packet(109, 0, 0, 0),
    }
}

/// The command a packet stands for, chosen by `b1` alone.
pub open spec fn decode(p: RawBGBCommand) -> Result<TypedBgbCommand, CommandError> {
    if p.b1 == 1 {
        Ok(
            TypedBgbCommand::Version {
                valid: p.b2 == 1 && p.b3 == 4 && p.b4 == 0 && p.i1 == 0,
            },
        )
    } else if p.b1 == 101 {
        Ok(TypedBgbCommand::Joypad { button_number: p.b2 & 7, pressed: has_bit(p.b2, 8) })
    } else if p.b1 == 104 {
        Ok(
            TypedBgbCommand::Sync1 {
                data: p.b2,
                high_speed: has_bit(p.b3, 2),
                double_speed: has_bit(p.b3, 4),
                timestamp: p.i1,
            },
        )
    } else if p.b1 == 105 {
        Ok(TypedBgbCommand::Sync2 { data: p.b2 })
    } else if p.b1 == 106 {
        if p.b2 == 1 {
            Ok(TypedBgbCommand::Sync3Response)
        } else if p.b2 == 0 {
            Ok(TypedBgbCommand::Sync3Timestamp { timestamp: p.i1 })
        } else {
            Err(CommandError::InvalidSync3Variant { value: p.b2 })
        }
    } else if p.b1 == 108 {
        Ok(
            TypedBgbCommand::Status {
                running: has_bit(p.b2, 1),
                paused: has_bit(p.b2, 2),
                support_reconnect: has_bit(p.b2, 4),
            },
        )
    } else if p.b1 == 109 {
        Ok(TypedBgbCommand::WantDisconnect)
    } else {
        Err(CommandError::UnknownCommand { tag: p.b1 })
    }
}

/// A command that the wire can carry unchanged: a button number fits in three bits.
pub open spec fn well_formed(c: TypedBgbCommand) -> bool {
    match c {
        TypedBgbCommand::Joypad { button_number, .. } => button_number < 8,
        _ => true,
    }
}

/// The wire bytes of a command.
pub open spec fn command_bytes(c: TypedBgbCommand) -> Seq<u8> {
    packet_bytes(encode(c))
}

impl TypedBgbCommand {
    /// The canonical packet of this command.
    pub fn to_raw(&self) -> (r: RawBGBCommand)
        ensures
            r == encode(*self),
    {
        match *self {
            TypedBgbCommand::Version { valid } => {
                if valid {
                    RawBGBCommand { b1: 1, b2: 1, b3: 4, b4: 0, i1: 0 }
                } else {
                    RawBGBCommand { b1: 1, b2: 0, b3: 0, b4: 0, i1: 0 }
                }
            },
            TypedBgbCommand::Joypad { button_number, pressed } => RawBGBCommand {
                b1: 101,
                b2: (button_number & 0b111) | (if pressed { 0b1000u8 } else { 0 }),
                b3: 0,
                b4: 0,
                i1: 0,
            },
            TypedBgbCommand::Sync1 { data, high_speed, double_speed, timestamp } => RawBGBCommand {
                b1: 104,
                b2: data,
                b3: 0b1000_0001u8 | (if high_speed { 0b10u8 } else { 0 }) | (if double_speed {
                    0b100u8
                } else {
                    0
                }),
                b4: 0,
                i1: timestamp,
            },
            TypedBgbCommand::Sync2 { data } => RawBGBCommand { b1: 105, b2: data, b3: 0x80, b4: 0, i1: 0 },
            TypedBgbCommand::Sync3Response => RawBGBCommand { b1: 106, b2: 1, b3: 0, b4: 0, i1: 0 },
            TypedBgbCommand::Sync3Timestamp { timestamp } => RawBGBCommand {
                b1: 106,
                b2: 0,
                b3: 0,
                b4: 0,
                i1: timestamp,
            },
            TypedBgbCommand::Status { running, paused, support_reconnect } => RawBGBCommand {
                b1: 108,
                b2: (if running { 1u8 } else { 0 }) | (if paused { 0b10u8 } else { 0 }) | (
                if support_reconnect {
                    0b100u8
                } else {
                    0
                }),
                b3: 0,
                b4: 0,
                i1: 0,
            },
            TypedBgbCommand::WantDisconnect => RawBGBCommand { b1: 109, b2: 0, b3: 0, b4: 0, i1: 0 },
        }
    }

    /// The command a packet stands for. Bits that a command does not use are
    /// ignored; an unknown tag or a `Sync3` packet whose `b2` is neither 0 nor 1
    /// is an error.
    pub fn from_raw(raw: &RawBGBCommand) -> (r: Result<TypedBgbCommand, CommandError>)
        ensures
            r == decode(*raw),
    {
        let RawBGBCommand { b1, b2, b3, b4, i1 } = *raw;
        match b1 {
            1 => Ok(TypedBgbCommand::Version { valid: b2 == 1 && b3 == 4 && b4 == 0 && i1 == 0 }),
            101 => Ok(
                TypedBgbCommand::Joypad { button_number: b2 & 0b111, pressed: b2 & (0b1000u8) > 0 },
            ),
            104 => Ok(
                TypedBgbCommand::Sync1 {
                    data: b2,
                    high_speed: b3 & (0b10u8) > 0,
                    double_speed: b3 & (0b100u8) > 0,
                    timestamp: i1,
                },
            ),
            105 => Ok(TypedBgbCommand::Sync2 { data: b2 }),
            106 => {
                if b2 == 1 {
                    Ok(TypedBgbCommand::Sync3Response)
                } else if b2 == 0 {
                    Ok(TypedBgbCommand::Sync3Timestamp { timestamp: i1 })
                } else {
                    Err(CommandError::InvalidSync3Variant { value: b2 })
                }
            },
            108 => Ok(
                TypedBgbCommand::Status {
                    running: b2 & 1 > 0,
                    paused: b2 & (0b10u8) > 0,
                    support_reconnect: b2 & (0b100u8) > 0,
                },
            ),
            109 => Ok(TypedBgbCommand::WantDisconnect),
            _ => Err(CommandError::UnknownCommand { tag: b1 }),
        }
    }

    /// The command that eight wire bytes stand for.
    pub fn deserialize(bytes: &[u8; 8]) -> (r: Result<TypedBgbCommand, CommandError>)
        ensures
            r == decode(packet_of(bytes@)),
    {
        TypedBgbCommand::from_raw(&RawBGBCommand::deserialize(bytes))
    }
}

impl BGBCommand for TypedBgbCommand {
    open spec fn wire(&self) -> Seq<u8> {
        command_bytes(*self)
    }

    fn serialize(&self) -> (r: [u8; 8]) {
        self.to_raw().serialize()
    }
}

/// Decoding the packet of a well-formed command gives the command back.
pub proof fn lemma_decode_encode(c: TypedBgbCommand)
    requires
        well_formed(c),
    ensures
        decode(encode(c)) == Ok::<TypedBgbCommand, CommandError>(c),
{
    match c {
        TypedBgbCommand::Joypad { button_number: n, pressed } => {
            if pressed {
                assert(n < 8 ==> ((n & 7) | 8u8) & 7 == n && ((n & 7) | 8u8) & 8 != 0) by (bit_vector);
            } else {
                assert(n < 8 ==> ((n & 7) | 0u8) & 7 == n && ((n & 7) | 0u8) & 8 == 0) by (bit_vector);
            }
        },
        TypedBgbCommand::Sync1 { high_speed: h, double_speed: d, .. } => {
            let (x, y) = (flag(h, 2), flag(d, 4));
            assert((x == 0 || x == 2) && (y == 0 || y == 4) ==> (((0x81u8 | x) | y) & 2 != 0 <==> x
                == 2) && (((0x81u8 | x) | y) & 4 != 0 <==> y == 4)) by (bit_vector);
        },
        TypedBgbCommand::Status { running: r, paused: p, support_reconnect: s } => {
            let (x, y, z) = (flag(r, 1), flag(p, 2), flag(s, 4));
            assert((x == 0 || x == 1) && (y == 0 || y == 2) && (z == 0 || z == 4) ==> (((x | y) | z)
                & 1 != 0 <==> x == 1) && (((x | y) | z) & 2 != 0 <==> y == 2) && (((x | y) | z) & 4
                != 0 <==> z == 4)) by (bit_vector);
        },
        _ => {},
    }
}

/// The two `Version` commands share their tag and differ in the rest of the packet.
pub proof fn lemma_version_packets_differ()
    ensures
        encode(TypedBgbCommand::Version { valid: false }).b1 == encode(
            TypedBgbCommand::Version { valid: true },
        ).b1,
        encode(TypedBgbCommand::Version { valid: false }).b1 == 1,
        ({
            let f = encode(TypedBgbCommand::Version { valid: false });
            let t = encode(TypedBgbCommand::Version { valid: true });
            (f.b2, f.b3, f.b4, f.i1) != (t.b2, t.b3, t.b4, t.i1)
        }),
{
}

/// Decoding the wire bytes of a well-formed command gives the command back.
pub proof fn lemma_wire_round_trip(c: TypedBgbCommand)
    requires
        well_formed(c),
    ensures
        command_bytes(c).len() == 8,
        decode(packet_of(command_bytes(c))) == Ok::<TypedBgbCommand, CommandError>(c),
{
    crate::raw::lemma_packet_round_trip(encode(c));
    lemma_decode_encode(c);
}

} // verus!
