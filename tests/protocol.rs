use bgb_link::{
    BGBCommand, BgbStream, ByteChannel, CommandError, MemoryChannel, MemoryChannelError,
    RawBGBCommand, StreamError, TypedBgbCommand,
};

fn raw(b1: u8, b2: u8, b3: u8, b4: u8, i1: u32) -> RawBGBCommand {
    RawBGBCommand { b1, b2, b3, b4, i1 }
}

fn all_sample_commands() -> Vec<TypedBgbCommand> {
    vec![
        TypedBgbCommand::Version { valid: true },
        TypedBgbCommand::Version { valid: false },
        TypedBgbCommand::Joypad { button_number: 0, pressed: false },
        TypedBgbCommand::Joypad { button_number: 7, pressed: true },
        TypedBgbCommand::Joypad { button_number: 5, pressed: true },
        TypedBgbCommand::Sync1 { data: 0, high_speed: false, double_speed: false, timestamp: 0 },
        TypedBgbCommand::Sync1 {
            data: 255,
            high_speed: true,
            double_speed: true,
            timestamp: u32::MAX,
        },
        TypedBgbCommand::Sync2 { data: 0 },
        TypedBgbCommand::Sync2 { data: 255 },
        TypedBgbCommand::Sync3Response,
        TypedBgbCommand::Sync3Timestamp { timestamp: 0 },
        TypedBgbCommand::Sync3Timestamp { timestamp: u32::MAX },
        TypedBgbCommand::Status { running: true, paused: true, support_reconnect: true },
        TypedBgbCommand::Status { running: false, paused: false, support_reconnect: false },
        TypedBgbCommand::WantDisconnect,
    ]
}

#[test]
fn decode_of_encode_is_identity_on_samples() {
    for c in all_sample_commands() {
        assert_eq!(TypedBgbCommand::from_raw(&c.to_raw()), Ok(c));
        assert_eq!(TypedBgbCommand::deserialize(&c.serialize()), Ok(c));
    }
}

#[test]
fn serialize_of_deserialize_is_identity_on_samples() {
    let samples: [[u8; 8]; 4] = [
        [0; 8],
        [255; 8],
        [1, 2, 3, 4, 0x78, 0x56, 0x34, 0x12],
        [106, 2, 9, 250, 0, 255, 0, 128],
    ];
    for b in samples {
        assert_eq!(RawBGBCommand::deserialize(&b).serialize(), b);
    }
    assert_eq!(
        RawBGBCommand::deserialize(&[1, 2, 3, 4, 0x78, 0x56, 0x34, 0x12]).i1,
        0x1234_5678
    );
}

#[test]
fn largest_timestamp_is_little_endian() {
    assert_eq!(raw(1, 2, 3, 4, u32::MAX).serialize(), [1, 2, 3, 4, 255, 255, 255, 255]);
    assert_eq!(raw(0, 0, 0, 0, 0x0102_0304).serialize(), [0, 0, 0, 0, 4, 3, 2, 1]);
}

#[test]
fn version_packets_share_tag_and_differ_elsewhere() {
    let f = TypedBgbCommand::Version { valid: false }.to_raw();
    let t = TypedBgbCommand::Version { valid: true }.to_raw();
    assert_eq!(f.b1, 1);
    assert_eq!(t.b1, 1);
    assert_ne!((f.b2, f.b3, f.b4, f.i1), (t.b2, t.b3, t.b4, t.i1));
}

#[test]
fn decode_valid_version() {
    assert_eq!(
        TypedBgbCommand::from_raw(&raw(1, 1, 4, 0, 0)),
        Ok(TypedBgbCommand::Version { valid: true })
    );
    assert_eq!(
        TypedBgbCommand::from_raw(&raw(1, 1, 4, 0, 1)),
        Ok(TypedBgbCommand::Version { valid: false })
    );
}

#[test]
fn decode_joypad_five_pressed() {
    assert_eq!(
        TypedBgbCommand::from_raw(&raw(101, 0b1101, 0, 0, 0)),
        Ok(TypedBgbCommand::Joypad { button_number: 5, pressed: true })
    );
}

#[test]
fn decode_ignores_unused_bits() {
    assert_eq!(
        TypedBgbCommand::from_raw(&raw(101, 0b1111_0101, 9, 9, 9)),
        Ok(TypedBgbCommand::Joypad { button_number: 5, pressed: false })
    );
    assert_eq!(
        TypedBgbCommand::from_raw(&raw(108, 0b1111_1010, 1, 2, 3)),
        Ok(TypedBgbCommand::Status { running: false, paused: true, support_reconnect: false })
    );
    assert_eq!(
        TypedBgbCommand::from_raw(&raw(104, 7, 0b0111_1000, 0, 42)),
        Ok(TypedBgbCommand::Sync1 {
            data: 7,
            high_speed: false,
            double_speed: false,
            timestamp: 42
        })
    );
}

#[test]
fn joypad_button_is_masked_to_three_bits() {
    let p = TypedBgbCommand::Joypad { button_number: 13, pressed: false }.to_raw();
    assert_eq!(p.b2, 5);
}

#[test]
fn decode_sync3_bad_variant() {
    assert_eq!(
        TypedBgbCommand::from_raw(&raw(106, 2, 0, 0, 0)),
        Err(CommandError::InvalidSync3Variant { value: 2 })
    );
}

#[test]
fn decode_unknown_tag() {
    assert_eq!(
        TypedBgbCommand::from_raw(&raw(246, 0, 0, 0, 0)),
        Err(CommandError::UnknownCommand { tag: 246 })
    );
    assert_eq!(
        TypedBgbCommand::deserialize(&[0, 0, 0, 0, 0, 0, 0, 0]),
        Err(CommandError::UnknownCommand { tag: 0 })
    );
}

#[test]
fn error_messages() {
    assert_eq!(CommandError::UnknownCommand { tag: 3 }.message(), "invalid command number");
    assert_eq!(CommandError::InvalidSync3Variant { value: 3 }.message(), "invalid sync3 command");
}

#[test]
fn memory_channel_moves_bytes_in_order() {
    let mut ch = MemoryChannel::new();
    assert_eq!(ch.peek_len(), Ok(0));
    ch.push_incoming(&vec![1, 2, 3, 4, 5]);
    assert_eq!(ch.peek_len(), Ok(5));
    assert_eq!(ch.read_exact(), Err(MemoryChannelError::Exhausted));
    ch.push_incoming(&vec![6, 7, 8, 9]);
    assert_eq!(ch.peek_len(), Ok(8));
    assert_eq!(ch.read_exact(), Ok([1, 2, 3, 4, 5, 6, 7, 8]));
    assert_eq!(ch.peek_len(), Ok(1));
    assert_eq!(ch.write_all(&[9, 8, 7, 6, 5, 4, 3, 2]), Ok(()));
    assert_eq!(ch.drain_outgoing(), vec![9, 8, 7, 6, 5, 4, 3, 2]);
    assert_eq!(ch.drain_outgoing(), Vec::<u8>::new());
}

#[test]
fn stream_write_sends_the_packet() {
    let mut s = BgbStream::wrap(MemoryChannel::new());
    let c = TypedBgbCommand::Sync1 {
        data: 42,
        high_speed: true,
        double_speed: false,
        timestamp: 69420,
    };
    assert_eq!(s.write(&c), Ok(()));
    assert_eq!(s.write(&raw(5, 4, 3, 2, 1)), Ok(()));
    assert_eq!(
        s.get_mut().drain_outgoing(),
        vec![104, 42, 0b1000_0011, 0, 0x2c, 0x0f, 0x01, 0, 5, 4, 3, 2, 1, 0, 0, 0]
    );
}

#[test]
fn stream_read_decodes_and_reports_malformed() {
    let mut ch = MemoryChannel::new();
    ch.push_incoming(&vec![101, 0b1101, 0, 0, 0, 0, 0, 0]);
    ch.push_incoming(&vec![246, 0, 0, 0, 0, 0, 0, 0]);
    ch.push_incoming(&vec![105, 254, 0x80, 0, 0, 0, 0, 0]);
    let mut s = BgbStream::wrap(ch);
    assert_eq!(s.read(), Ok(TypedBgbCommand::Joypad { button_number: 5, pressed: true }));
    assert_eq!(
        s.read(),
        Err(StreamError::MalformedData(CommandError::UnknownCommand { tag: 246 }))
    );
    assert_eq!(s.read(), Ok(TypedBgbCommand::Sync2 { data: 254 }));
    assert_eq!(s.read(), Err(StreamError::Io(MemoryChannelError::Exhausted)));
}

#[test]
fn stream_read_raw_takes_eight_bytes() {
    let mut ch = MemoryChannel::new();
    ch.push_incoming(&vec![5, 4, 3, 2, 0, 0, 0, 1]);
    let mut s = BgbStream::wrap(ch);
    assert_eq!(s.read_raw(), Ok(raw(5, 4, 3, 2, 1 << 24)));
    assert_eq!(s.read_raw(), Err(StreamError::Io(MemoryChannelError::Exhausted)));
}

#[test]
fn maybe_read_waits_for_a_whole_packet() {
    let mut s = BgbStream::wrap(MemoryChannel::new());
    assert_eq!(s.maybe_read_raw(), Ok(None));
    s.get_mut().push_incoming(&vec![109, 0, 0, 0]);
    assert_eq!(s.maybe_read(), Ok(None));
    s.get_mut().push_incoming(&vec![0, 0, 0, 0, 106, 1, 0, 0]);
    assert_eq!(s.maybe_read(), Ok(Some(TypedBgbCommand::WantDisconnect)));
    assert_eq!(s.maybe_read(), Ok(None));
    s.get_mut().push_incoming(&vec![0, 0, 0, 0]);
    assert_eq!(s.maybe_read_raw(), Ok(Some(raw(106, 1, 0, 0, 0))));
    s.get_mut().push_incoming(&vec![106, 7, 0, 0, 0, 0, 0, 0]);
    assert_eq!(
        s.maybe_read(),
        Err(StreamError::MalformedData(CommandError::InvalidSync3Variant { value: 7 }))
    );
    assert_eq!(s.into_inner().peek_len(), Ok(0));
}

/// Hands the bytes that `from` wrote so far to `to`.
fn deliver(from: &mut BgbStream<MemoryChannel>, to: &mut BgbStream<MemoryChannel>) {
    let bytes = from.get_mut().drain_outgoing();
    to.get_mut().push_incoming(&bytes);
}

#[test]
fn end_to_end_handshake_and_joypad() {
    let mut client = BgbStream::wrap(MemoryChannel::new());
    let mut server = BgbStream::wrap(MemoryChannel::new());
    assert_eq!(client.begin_handshake(), Ok(()));
    assert_eq!(server.begin_handshake(), Ok(()));
    deliver(&mut client, &mut server);
    deliver(&mut server, &mut client);
    assert_eq!(client.finish_handshake(), Ok(()));
    assert_eq!(server.finish_handshake(), Ok(()));

    let j = TypedBgbCommand::Joypad { button_number: 5, pressed: true };
    assert_eq!(client.write(&j), Ok(()));
    deliver(&mut client, &mut server);
    assert_eq!(server.read(), Ok(j));
    assert_eq!(server.write(&j), Ok(()));
    deliver(&mut server, &mut client);
    assert_eq!(client.read(), Ok(j));
}

#[test]
fn handshake_fails_when_peer_sends_another_command_first() {
    let mut server = BgbStream::wrap(MemoryChannel::new());
    assert_eq!(server.write(&TypedBgbCommand::WantDisconnect), Ok(()));
    let mut client = BgbStream::wrap(MemoryChannel::new());
    deliver(&mut server, &mut client);
    assert_eq!(client.handshake(), Err(StreamError::HandshakeFailed));
    assert_eq!(
        client.get_mut().drain_outgoing(),
        TypedBgbCommand::Version { valid: true }.serialize().to_vec()
    );
}

#[test]
fn handshake_fails_on_invalid_version_or_malformed_packet() {
    let mut a = BgbStream::wrap(MemoryChannel::new());
    a.get_mut().push_incoming(&TypedBgbCommand::Version { valid: false }.serialize().to_vec());
    assert_eq!(a.handshake(), Err(StreamError::HandshakeFailed));
    let mut b = BgbStream::wrap(MemoryChannel::new());
    b.get_mut().push_incoming(&vec![200, 0, 0, 0, 0, 0, 0, 0]);
    assert_eq!(b.handshake(), Err(StreamError::HandshakeFailed));
    let mut c = BgbStream::wrap(MemoryChannel::new());
    assert_eq!(c.handshake(), Err(StreamError::Io(MemoryChannelError::Exhausted)));
}

#[test]
fn handshake_succeeds_on_valid_version() {
    let mut a = BgbStream::wrap(MemoryChannel::new());
    a.get_mut().push_incoming(&vec![1, 1, 4, 0, 0, 0, 0, 0]);
    assert_eq!(a.handshake(), Ok(()));
    assert_eq!(a.get_mut().peek_len(), Ok(0));
}

#[test]
fn joypad_write_on_empty_channel() {
    let mut s = BgbStream::wrap(MemoryChannel::new());
    let j = TypedBgbCommand::Joypad { button_number: 5, pressed: true };
    assert_eq!(s.write(&j), Ok(()));
    assert_eq!(s.into_inner().drain_outgoing(), vec![101u8, 0b1101, 0, 0, 0, 0, 0, 0]);
}

#[test]
fn read_after_short_channel_keeps_waiting_bytes() {
    let mut s = BgbStream::wrap(MemoryChannel::new());
    s.get_mut().push_incoming(&vec![109, 0, 0]);
    assert_eq!(s.read(), Err(StreamError::Io(MemoryChannelError::Exhausted)));
    s.get_mut().push_incoming(&vec![0, 0, 0, 0, 0]);
    assert_eq!(s.read(), Ok(TypedBgbCommand::WantDisconnect));
}

#[test]
fn peek_count_decides_whole_packet() {
    assert!(bgb_link::stream::unit_waiting(8));
    assert!(!bgb_link::stream::unit_waiting(7));
    assert!(!bgb_link::stream::unit_waiting(0));
}
