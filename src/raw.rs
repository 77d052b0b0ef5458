//! The fixed 8-byte wire packet: four bytes and one little-endian `u32`.
use vstd::prelude::*;

verus! {

/// Something that has an 8-byte wire form.
pub trait BGBCommand {
    /// The bytes this value is sent as.
    spec fn wire(&self) -> Seq<u8>;

    fn serialize(&self) -> (r: [u8; 8])
        ensures
            r@ == self.wire(),
    ;
}

/// One packet as it travels on the wire: `b1 b2 b3 b4 i1(LE)`.
#[derive(Debug, Clone, Copy, PartialEq, Eq, Structural)]
pub struct RawBGBCommand {
    pub b1: u8,
    pub b2: u8,
    pub b3: u8,
    pub b4: u8,
    pub i1: u32,
}

/// The same packet type under the spelling used by the typed layer.
pub type RawBgbCommand = RawBGBCommand;

/// The four little-endian bytes of `x`.
pub open spec fn le_bytes(x: u32) -> Seq<u8> {
    seq![
        (x % 256) as u8,
        (x / 256 % 256) as u8,
        (x / 65536 % 256) as u8,
        (x / 16777216) as u8,
    ]
}

/// The `u32` whose little-endian bytes are `b[0..4]`.
pub open spec fn le_value(b: Seq<u8>) -> u32
    recommends
        b.len() == 4,
{
    (b[0] + 256 * b[1] + 65536 * b[2] + 16777216 * b[3]) as u32
}

/// The wire form of a packet.
pub open spec fn packet_bytes(p: RawBGBCommand) -> Seq<u8> {
    seq![p.b1, p.b2, p.b3, p.b4] + le_bytes(p.i1)
}

/// The packet read from eight wire bytes.
pub open spec fn packet_of(b: Seq<u8>) -> RawBGBCommand
    recommends
        b.len() == 8,
{
    RawBGBCommand { b1: b[0], b2: b[1], b3: b[2], b4: b[3], i1: le_value(b.subrange(4, 8)) }
}

impl BGBCommand for RawBGBCommand {
    open spec fn wire(&self) -> Seq<u8> {
        packet_bytes(*self)
    }

    fn serialize(&self) -> (r: [u8; 8]) {
        let i: u32 = self.i1;
        let r: [u8; 8] = [
            self.b1,
            self.b2,
            self.b3,
            self.b4,
            (i % 256) as u8,
            (i / 256 % 256) as u8,
            (i / 65536 % 256) as u8,
            (i / 16777216) as u8,
        ];
        assert(r@ =~= packet_bytes(*self));
        r
    }
}

impl RawBGBCommand {
    /// Reads a packet from eight bytes; every byte pattern is accepted.
    pub fn deserialize(bytes: &[u8; 8]) -> (r: RawBGBCommand)
        ensures
            r == packet_of(bytes@),
    {
        let i1: u32 = bytes[4] as u32 + 256 * (bytes[5] as u32) + 65536 * (bytes[6] as u32)
            + 16777216 * (bytes[7] as u32);
        RawBGBCommand { b1: bytes[0], b2: bytes[1], b3: bytes[2], b4: bytes[3], i1 }
    }
}

/// Reading back what a packet is written as gives the packet again.
pub proof fn lemma_packet_round_trip(p: RawBGBCommand)
    ensures
        packet_bytes(p).len() == 8,
        packet_of(packet_bytes(p)) == p,
{
    let b = packet_bytes(p);
    assert(b.subrange(4, 8) =~= le_bytes(p.i1));
    let x = p.i1 as int;
    assert(x == x % 256 + 256 * (x / 256 % 256) + 65536 * (x / 65536 % 256) + 16777216 * (x
        / 16777216)) by (nonlinear_arith)
        requires
            0 <= x < 0x1_0000_0000,
    ;
}

/// Writing out the packet read from any eight bytes gives those bytes again.
pub proof fn lemma_bytes_round_trip(b: Seq<u8>)
    requires
        b.len() == 8,
    ensures
        packet_bytes(packet_of(b)) == b,
{
    let (b4, b5, b6, b7) = (b[4] as int, b[5] as int, b[6] as int, b[7] as int);
    let x = b4 + 256 * b5 + 65536 * b6 + 16777216 * b7;
    assert(x % 256 == b4 && x / 256 % 256 == b5 && x / 65536 % 256 == b6 && x / 16777216 == b7)
        by (nonlinear_arith)
        requires
            0 <= b4 < 256,
            0 <= b5 < 256,
            0 <= b6 < 256,
            0 <= b7 < 256,
            x == b4 + 256 * b5 + 65536 * b6 + 16777216 * b7,
    ;
    assert(packet_bytes(packet_of(b)) =~= b);
}

} // verus!
