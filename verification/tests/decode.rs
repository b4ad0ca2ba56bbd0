use midi::{
    ChannelMessage, ChannelMode, Data, DecodeError, QuarterFrameType, SysMessage, SysRTMessage,
    VoiceMessage,
};

#[test]
fn voice_kind_ignores_channel_bits() {
    let patterns: [(u8, VoiceMessage); 6] = [
        (0x80, VoiceMessage::NoteOff),
        (0x90, VoiceMessage::NoteOn),
        (0xa0, VoiceMessage::Aftertouch),
        (0xb0, VoiceMessage::ControlChange),
        (0xc0, VoiceMessage::ProgramChange),
        (0xe0, VoiceMessage::PitchBendChange),
    ];
    for (pattern, kind) in patterns {
        for channel in 0x0u8..=0xf {
            let window = [pattern | channel, 0x42];
            assert_eq!(VoiceMessage::from_bytes(&window), Some(kind));
            assert_eq!(Data::from_bytes(&window), Ok(Data::Voice(kind, 0x42)));
        }
    }
}

#[test]
fn voice_no_match_outside_patterns() {
    assert_eq!(VoiceMessage::from_bytes(&[0x00]), None);
    assert_eq!(VoiceMessage::from_bytes(&[0x7f]), None);
    assert_eq!(VoiceMessage::from_bytes(&[0xd3]), None);
    assert_eq!(VoiceMessage::from_bytes(&[0xf8]), None);
}

#[test]
fn mono_mode_takes_every_channel_count() {
    for n in 0x00u8..=0x7f {
        let window = [0xb0, 125, n];
        assert_eq!(
            ChannelMessage::from_bytes(&window),
            Ok(ChannelMessage::AllNotesOff(Some(ChannelMode::MonoMode(n))))
        );
    }
}

#[test]
fn channel_mode_controllers_map_to_variants() {
    assert_eq!(
        ChannelMessage::from_bytes(&[0xb2, 120, 0]),
        Ok(ChannelMessage::AllSoundOff)
    );
    assert_eq!(
        ChannelMessage::from_bytes(&[0xb2, 121, 0]),
        Ok(ChannelMessage::ResetAllControllers)
    );
    assert_eq!(
        ChannelMessage::from_bytes(&[0xb2, 122, 127]),
        Ok(ChannelMessage::LocalControl(true))
    );
    assert_eq!(
        ChannelMessage::from_bytes(&[0xb2, 122, 0]),
        Ok(ChannelMessage::LocalControl(false))
    );
    assert_eq!(
        ChannelMessage::from_bytes(&[0xb2, 123, 0]),
        Ok(ChannelMessage::AllNotesOff(None))
    );
    assert_eq!(
        ChannelMessage::from_bytes(&[0xb2, 124, 0]),
        Ok(ChannelMessage::AllNotesOff(Some(ChannelMode::OmniMode(false))))
    );
    assert_eq!(
        ChannelMessage::from_bytes(&[0xb2, 126, 0]),
        Ok(ChannelMessage::AllNotesOff(Some(ChannelMode::OmniMode(true))))
    );
    assert_eq!(
        ChannelMessage::from_bytes(&[0xb2, 127, 0]),
        Ok(ChannelMessage::AllNotesOff(Some(ChannelMode::PolyMode)))
    );
}

#[test]
fn channel_mode_no_match_outside_reserved_range() {
    assert_eq!(ChannelMessage::from_bytes(&[0xb0, 119, 0]), Err(false));
    assert_eq!(ChannelMessage::from_bytes(&[0xb0, 0, 0]), Err(false));
    assert_eq!(ChannelMessage::from_bytes(&[0x90]), Err(false));
    assert_eq!(ChannelMessage::from_bytes(&[0xf8]), Err(false));
}

#[test]
fn quarter_frame_hour_lsbs_example() {
    let window = [0xf1, 0b0110_0011];
    assert_eq!(
        SysMessage::from_bytes(&window),
        Ok(SysMessage::QuarterFrame(QuarterFrameType::HourLSBs, 3))
    );
    assert_eq!(
        Data::from_bytes(&window),
        Ok(Data::System(SysMessage::QuarterFrame(
            QuarterFrameType::HourLSBs,
            3
        )))
    );
}

#[test]
fn quarter_frame_type_covers_all_eight_selectors() {
    assert_eq!(QuarterFrameType::from(0x00), QuarterFrameType::FrameLSBs);
    assert_eq!(QuarterFrameType::from(0x10), QuarterFrameType::FrameMSB);
    assert_eq!(QuarterFrameType::from(0x20), QuarterFrameType::SecondLSBs);
    assert_eq!(QuarterFrameType::from(0x30), QuarterFrameType::SecondMSBs);
    assert_eq!(QuarterFrameType::from(0x40), QuarterFrameType::MinuteLSBs);
    assert_eq!(QuarterFrameType::from(0x50), QuarterFrameType::MinuteMSBs);
    assert_eq!(QuarterFrameType::from(0x60), QuarterFrameType::HourLSBs);
    assert_eq!(QuarterFrameType::from(0x70), QuarterFrameType::HourMSBAndRate);
    // the top bit is outside the selector and must not disturb the mapping
    assert_eq!(QuarterFrameType::from(0xf5), QuarterFrameType::HourMSBAndRate);
}

#[test]
fn quarter_frame_value_is_low_nibble() {
    for data in [0x00u8, 0x0f, 0x6a, 0x73, 0xff] {
        match SysMessage::from_bytes(&[0xf1, data]) {
            Ok(SysMessage::QuarterFrame(_, v)) => assert_eq!(v, data & 0x0f),
            other => panic!("expected a quarter frame, got {:?}", other),
        }
    }
}

#[test]
fn song_position_assembles_little_endian_seven_bit_groups() {
    let window = [0xf2, 0x10, 0x02];
    let expected: u16 = 0x10 | (0x02 << 7);
    assert_eq!(expected, 272);
    assert_eq!(
        SysMessage::from_bytes(&window),
        Ok(SysMessage::SongPosition(expected))
    );
    assert_eq!(
        Data::from_bytes(&window),
        Ok(Data::System(SysMessage::SongPosition(expected)))
    );
}

#[test]
fn song_position_round_trips_through_reference_encoding() {
    for (lsb, msb) in [(0x10u8, 0x02u8), (0x00, 0x00), (0x7f, 0x7f), (0x01, 0x40)] {
        match SysMessage::from_bytes(&[0xf2, lsb, msb]) {
            Ok(SysMessage::SongPosition(v)) => {
                assert!(v < 0x4000);
                assert_eq!((v & 0x7f) as u8, lsb);
                assert_eq!(((v >> 7) & 0x7f) as u8, msb);
            }
            other => panic!("expected a song position, got {:?}", other),
        }
    }
}

#[test]
fn song_select_and_payloadless_commons() {
    assert_eq!(
        SysMessage::from_bytes(&[0xf3, 0x45]),
        Ok(SysMessage::SongSelect(0x45))
    );
    assert_eq!(SysMessage::from_bytes(&[0xf6]), Ok(SysMessage::TuneRequest));
    assert_eq!(
        SysMessage::from_bytes(&[0xf7]),
        Ok(SysMessage::EndOfExclusive)
    );
}

#[test]
fn undefined_system_common_nibble_is_malformed() {
    // low nibble 0100 lies in the System Common range but is undefined
    assert_eq!(SysMessage::from_bytes(&[0b1111_0100]), Err(true));
    assert_eq!(
        Data::from_bytes(&[0b1111_0100]),
        Err(DecodeError::Malformed)
    );
    assert_eq!(SysMessage::from_bytes(&[0xf5]), Err(true));
    assert_eq!(Data::from_bytes(&[0xf5]), Err(DecodeError::Malformed));
}

#[test]
fn bare_sysex_start_is_malformed() {
    // payload assembly up to the terminator belongs to the framing layer
    assert_eq!(SysMessage::from_bytes(&[0xf0]), Err(true));
    assert_eq!(Data::from_bytes(&[0xf0]), Err(DecodeError::Malformed));
}

#[test]
fn sys_common_no_match_outside_its_range() {
    assert_eq!(SysMessage::from_bytes(&[0xf8]), Err(false));
    assert_eq!(SysMessage::from_bytes(&[0xfb]), Err(false));
    assert_eq!(SysMessage::from_bytes(&[0x12]), Err(false));
    assert_eq!(SysMessage::from_bytes(&[0x00]), Err(false));
}

#[test]
fn real_time_bytes_map_to_their_kinds() {
    assert_eq!(
        SysRTMessage::from_bytes(&[0xf8]),
        Some(SysRTMessage::TimingClock)
    );
    assert_eq!(SysRTMessage::from_bytes(&[0xf9]), Some(SysRTMessage::Start));
    assert_eq!(
        SysRTMessage::from_bytes(&[0xfa]),
        Some(SysRTMessage::Continue)
    );
    assert_eq!(SysRTMessage::from_bytes(&[0xfc]), Some(SysRTMessage::Stop));
    assert_eq!(
        SysRTMessage::from_bytes(&[0xfe]),
        Some(SysRTMessage::ActiveSensing)
    );
    assert_eq!(SysRTMessage::from_bytes(&[0xff]), Some(SysRTMessage::Reset));
    for status in [0xf8u8, 0xf9, 0xfa, 0xfc, 0xfe, 0xff] {
        assert!(matches!(
            Data::from_bytes(&[status]),
            Ok(Data::SystemRealTime(_))
        ));
    }
}

#[test]
fn undefined_real_time_byte_is_unrecognized() {
    // 0xFB falls through all four decoders with no match
    assert_eq!(SysRTMessage::from_bytes(&[0b1111_1011]), None);
    assert_eq!(
        Data::from_bytes(&[0b1111_1011]),
        Err(DecodeError::Unrecognized)
    );
    assert_eq!(SysRTMessage::from_bytes(&[0xfd]), None);
    assert_eq!(Data::from_bytes(&[0xfd]), Err(DecodeError::Unrecognized));
}

#[test]
fn non_status_bytes_are_unrecognized() {
    assert_eq!(Data::from_bytes(&[0x00]), Err(DecodeError::Unrecognized));
    assert_eq!(Data::from_bytes(&[0x7f]), Err(DecodeError::Unrecognized));
    assert_eq!(Data::from_bytes(&[0xd4, 0x00]), Err(DecodeError::Unrecognized));
}

#[test]
fn classifier_gives_voice_priority_over_channel_mode() {
    // a Control-Change byte matches the voice family first, so the classifier
    // reports Voice even where the controller byte lies in the mode range
    let window = [0xb0, 125, 7];
    assert_eq!(
        Data::from_bytes(&window),
        Ok(Data::Voice(VoiceMessage::ControlChange, 125))
    );
}

#[test]
fn decoding_twice_yields_equal_values() {
    let windows: [&[u8]; 6] = [
        &[0x93, 0x40],
        &[0xb1, 123, 0],
        &[0xf1, 0x63],
        &[0xf2, 0x10, 0x02],
        &[0xf4],
        &[0xfb],
    ];
    for window in windows {
        let first = Data::from_bytes(window);
        let second = Data::from_bytes(window);
        assert_eq!(first, second);
    }
}
