//! Decoder for the MIDI 1.0 wire format.
//!
//! Given a byte window that begins at a status byte and carries enough
//! trailing bytes for that message's fixed payload, the decoder classifies
//! and extracts one logical message. It is stateless: it neither buffers
//! partial messages nor tracks running status, and it never looks past the
//! bytes the matched message needs. Framing and transport belong to the
//! caller.

use vstd::prelude::*;

verus! {

/// The six channel-voice message kinds, identified by the top nibble of the
/// status byte. The low nibble is the channel number and never influences
/// classification.
#[derive(Debug, PartialEq, Eq, Clone, Copy)]
pub enum VoiceMessage {
    NoteOff,
    NoteOn,
    Aftertouch,
    ControlChange,
    ProgramChange,
    PitchBendChange,
}

/// How an "All Notes Off" channel-mode message also reconfigures the channel.
#[derive(Debug, PartialEq, Eq, Clone, Copy)]
pub enum ChannelMode {
    OmniMode(bool),
    MonoMode(u8),
    PolyMode,
}

/// The channel-mode message family: Control-Change messages whose controller
/// number lies in the reserved range 120–127.
#[derive(Debug, PartialEq, Eq, Clone, Copy)]
pub enum ChannelMessage {
    AllSoundOff,
    ResetAllControllers,
    LocalControl(bool),
    AllNotesOff(Option<ChannelMode>),
}

/// The eight sub-fields of a MIDI Time Code quarter-frame message, selected
/// by bits 4–6 of the quarter frame's data byte.
#[derive(Debug, PartialEq, Eq, Clone, Copy)]
pub enum QuarterFrameType {
    FrameLSBs,
    FrameMSB,
    SecondLSBs,
    SecondMSBs,
    MinuteLSBs,
    MinuteMSBs,
    HourLSBs,
    HourMSBAndRate,
}

/// System Common messages: status bytes `0xF0`–`0xF7`.
#[derive(Debug, PartialEq, Eq, Clone)]
pub enum SysMessage {
    SystemExclusive(Vec<u8>),
    QuarterFrame(QuarterFrameType, u8),
    SongPosition(u16),
    SongSelect(u8),
    TuneRequest,
    EndOfExclusive,
}

/// The six System Real-Time messages, each a single reserved status byte with
/// no payload. `0xFB` and `0xFD` are undefined codes and match nothing.
#[derive(Debug, PartialEq, Eq, Clone, Copy)]
pub enum SysRTMessage {
    TimingClock,
    Start,
    Continue,
    Stop,
    ActiveSensing,
    Reset,
}

/// One decoded MIDI message: exactly one variant is populated per decode.
#[derive(Debug, PartialEq, Eq, Clone)]
pub enum Data {
    Voice(VoiceMessage, u8),
    Channel(ChannelMessage),
    System(SysMessage),
    SystemRealTime(SysRTMessage),
}

/// Why a byte window failed to decode. `Unrecognized` means no message family
/// claimed the leading byte: the caller may skip it and resynchronize.
/// `Malformed` means a family was recognized but the message's structure
/// within it is invalid; it must not be reinterpreted as a later family.
#[derive(Debug, PartialEq, Eq, Clone, Copy, Structural)]
pub enum DecodeError {
    Unrecognized,
    Malformed,
}

/// The voice-message kind a status byte selects, if any. Only the top nibble
/// is consulted: the low nibble is the channel number, a wildcard here.
pub open spec fn spec_voice_kind(status: u8) -> Option<VoiceMessage> {
    if status & 0xf0 == 0x80 {
        Some(VoiceMessage::NoteOff)
    } else if status & 0xf0 == 0x90 {
        Some(VoiceMessage::NoteOn)
    } else if status & 0xf0 == 0xa0 {
        Some(VoiceMessage::Aftertouch)
    } else if status & 0xf0 == 0xb0 {
        Some(VoiceMessage::ControlChange)
    } else if status & 0xf0 == 0xc0 {
        Some(VoiceMessage::ProgramChange)
    } else if status & 0xf0 == 0xe0 {
        Some(VoiceMessage::PitchBendChange)
    } else {
        None
    }
}

/// Whether a status byte belongs to the channel-voice family.
pub open spec fn is_voice_status(status: u8) -> bool {
    spec_voice_kind(status) is Some
}

impl VoiceMessage {
    /// Classifies the leading status byte of the window as a channel-voice
    /// message, or reports "no match" so a later family may be tried.
    pub fn from_bytes(b: &[u8]) -> (r: Option<VoiceMessage>)
        requires
            b@.len() >= 1,
        ensures
            r == spec_voice_kind(b@[0]),
    {
        let top = b[0] & 0xf0;
        if top == 0x80 {
            Some(VoiceMessage::NoteOff)
        } else if top == 0x90 {
            Some(VoiceMessage::NoteOn)
        } else if top == 0xa0 {
            Some(VoiceMessage::Aftertouch)
        } else if top == 0xb0 {
            Some(VoiceMessage::ControlChange)
        } else if top == 0xc0 {
            Some(VoiceMessage::ProgramChange)
        } else if top == 0xe0 {
            Some(VoiceMessage::PitchBendChange)
        } else {
            None
        }
    }
}

/// Whether a status byte is a Control Change on some channel: the family that
/// carries channel-mode messages.
pub open spec fn is_control_change(status: u8) -> bool {
    status & 0xf0 == 0xb0
}

/// The channel-mode message a window decodes to. `Err(false)` is "no match"
/// (not a Control Change, or an ordinary controller number below 120);
/// `Err(true)` would be a recognized-but-malformed message, which cannot
/// arise here since all eight reserved controller numbers decode.
pub open spec fn spec_channel_message(b: Seq<u8>) -> Result<ChannelMessage, bool> {
    if !is_control_change(b[0]) {
        Err(false)
    } else if b[1] == 120 {
        Ok(ChannelMessage::AllSoundOff)
    } else if b[1] == 121 {
        Ok(ChannelMessage::ResetAllControllers)
    } else if b[1] == 122 {
        Ok(ChannelMessage::LocalControl(b[2] == 127))
    } else if b[1] == 123 {
        Ok(ChannelMessage::AllNotesOff(None))
    } else if b[1] == 124 {
        Ok(ChannelMessage::AllNotesOff(Some(ChannelMode::OmniMode(false))))
    } else if b[1] == 125 {
        Ok(ChannelMessage::AllNotesOff(Some(ChannelMode::MonoMode(b[2]))))
    } else if b[1] == 126 {
        Ok(ChannelMessage::AllNotesOff(Some(ChannelMode::OmniMode(true))))
    } else if b[1] == 127 {
        Ok(ChannelMessage::AllNotesOff(Some(ChannelMode::PolyMode)))
    } else {
        Err(false)
    }
}

impl ChannelMessage {
    /// Decodes a channel-mode message: a Control-Change status byte whose
    /// controller byte lies in the reserved range 120–127. Controllers 122
    /// (local control) and 125 (mono mode) read one further data byte.
    /// `Err(false)` means "no match": the classifier may try the next family.
    pub fn from_bytes(b: &[u8]) -> (r: Result<ChannelMessage, bool>)
        requires
            b@.len() >= 1,
            is_control_change(b@[0]) ==> b@.len() >= 2,
            is_control_change(b@[0]) && (b@[1] == 122 || b@[1] == 125) ==> b@.len() >= 3,
        ensures
            r == spec_channel_message(b@),
    {
        if b[0] & 0xf0 != 0xb0 {
            return Err(false);
        }
        let controller = b[1];
        if controller == 120 {
            Ok(ChannelMessage::AllSoundOff)
        } else if controller == 121 {
            Ok(ChannelMessage::ResetAllControllers)
        } else if controller == 122 {
            Ok(ChannelMessage::LocalControl(b[2] == 127))
        } else if controller == 123 {
            Ok(ChannelMessage::AllNotesOff(None))
        } else if controller == 124 {
            Ok(ChannelMessage::AllNotesOff(Some(ChannelMode::OmniMode(false))))
        } else if controller == 125 {
            Ok(ChannelMessage::AllNotesOff(Some(ChannelMode::MonoMode(b[2]))))
        } else if controller == 126 {
            Ok(ChannelMessage::AllNotesOff(Some(ChannelMode::OmniMode(true))))
        } else if controller == 127 {
            Ok(ChannelMessage::AllNotesOff(Some(ChannelMode::PolyMode)))
        } else {
            Err(false)
        }
    }
}

/// The quarter-frame sub-field selected by bits 4–6 of the quarter frame's
/// data byte. Three bits always select one of the eight kinds, so the mapping
/// is total.
pub open spec fn spec_quarter_frame_type(data: u8) -> QuarterFrameType {
    let sel = (data >> 4) & 0x07;
    if sel == 0 {
        QuarterFrameType::FrameLSBs
    } else if sel == 1 {
        QuarterFrameType::FrameMSB
    } else if sel == 2 {
        QuarterFrameType::SecondLSBs
    } else if sel == 3 {
        QuarterFrameType::SecondMSBs
    } else if sel == 4 {
        QuarterFrameType::MinuteLSBs
    } else if sel == 5 {
        QuarterFrameType::MinuteMSBs
    } else if sel == 6 {
        QuarterFrameType::HourLSBs
    } else {
        QuarterFrameType::HourMSBAndRate
    }
}

impl From<u8> for QuarterFrameType {
    /// Maps a quarter frame's data byte to the sub-field its bits 4–6 select.
    fn from(i: u8) -> (r: QuarterFrameType) {
        let sel = (i >> 4) & 0x07;
        if sel == 0 {
            QuarterFrameType::FrameLSBs
        } else if sel == 1 {
            QuarterFrameType::FrameMSB
        } else if sel == 2 {
            QuarterFrameType::SecondLSBs
        } else if sel == 3 {
            QuarterFrameType::SecondMSBs
        } else if sel == 4 {
            QuarterFrameType::MinuteLSBs
        } else if sel == 5 {
            QuarterFrameType::MinuteMSBs
        } else if sel == 6 {
            QuarterFrameType::HourLSBs
        } else {
            QuarterFrameType::HourMSBAndRate
        }
    }
}

impl vstd::std_specs::convert::FromSpecImpl<u8> for QuarterFrameType {
    open spec fn obeys_from_spec() -> bool {
        true
    }

    open spec fn from_spec(i: u8) -> QuarterFrameType {
        spec_quarter_frame_type(i)
    }
}

/// The 14-bit song-position value assembled from its two data bytes: the
/// first data byte carries the low seven bits, the second the high seven.
pub open spec fn spec_song_position(lsb: u8, msb: u8) -> u16 {
    ((lsb & 0x7f) as u16) | (((msb & 0x7f) as u16) << 7)
}

/// The low data byte a song-position value encodes to: its low seven bits.
pub open spec fn spec_song_position_lsb(v: u16) -> u8 {
    (v & 0x7f) as u8
}

/// The high data byte a song-position value encodes to: its high seven bits.
pub open spec fn spec_song_position_msb(v: u16) -> u8 {
    ((v >> 7) & 0x7f) as u8
}

/// The System Common message a window decodes to. `Err(false)` is "no match"
/// (the status byte lies outside `0xF0`–`0xF7`); `Err(true)` is a recognized
/// but malformed message: a bare System Exclusive start, whose payload only
/// the framing layer can delimit, or one of the undefined low nibbles 4–5.
pub open spec fn spec_sys_message(b: Seq<u8>) -> Result<SysMessage, bool> {
    if b[0] & 0xf0 != 0xf0 {
        Err(false)
    } else {
        let lo = b[0] & 0x0f;
        if lo == 0x00 {
            Err(true)
        } else if lo == 0x01 {
            Ok(SysMessage::QuarterFrame(spec_quarter_frame_type(b[1]), b[1] & 0x0f))
        } else if lo == 0x02 {
            Ok(SysMessage::SongPosition(spec_song_position(b[1], b[2])))
        } else if lo == 0x03 {
            Ok(SysMessage::SongSelect(b[1]))
        } else if lo == 0x06 {
            Ok(SysMessage::TuneRequest)
        } else if lo == 0x07 {
            Ok(SysMessage::EndOfExclusive)
        } else if lo <= 0x05 {
            Err(true)
        } else {
            Err(false)
        }
    }
}

/// How many bytes of window a System Common status byte commits the decoder
/// to read: the status byte itself plus the matched message's fixed payload.
pub open spec fn sys_needed_len(status: u8) -> nat {
    if status & 0xf0 == 0xf0 {
        let lo = status & 0x0f;
        if lo == 0x02 {
            3
        } else if lo == 0x01 || lo == 0x03 {
            2
        } else {
            1
        }
    } else {
        1
    }
}

impl SysMessage {
    /// Decodes a System Common message: a status byte in `0xF0`–`0xF7`.
    /// Quarter frames and song selects carry one data byte, song positions
    /// two; tune requests and end-of-exclusive none. A bare System Exclusive
    /// start and the undefined low nibbles 4–5 are malformed (`Err(true)`);
    /// status bytes outside the range are "no match" (`Err(false)`).
    pub fn from_bytes(b: &[u8]) -> (r: Result<SysMessage, bool>)
        requires
            b@.len() >= 1,
            b@.len() >= sys_needed_len(b@[0]),
        ensures
            r == spec_sys_message(b@),
            (r matches Ok(SysMessage::QuarterFrame(_, v)) ==> v < 16),
            (r matches Ok(SysMessage::SongPosition(p)) ==> p < 0x4000),
    {
        if b[0] & 0xf0 != 0xf0 {
            return Err(false);
        }
        let lo = b[0] & 0x0f;
        if lo == 0x00 {
            Err(true)
        } else if lo == 0x01 {
            let data = b[1];
            proof {
                assert(data & 0x0f < 16) by (bit_vector);
            }
            Ok(SysMessage::QuarterFrame(QuarterFrameType::from(data), data & 0x0f))
        } else if lo == 0x02 {
            let lsb = b[1];
            let msb = b[2];
            proof {
                assert((((lsb & 0x7f) as u16) | (((msb & 0x7f) as u16) << 7)) < 0x4000)
                    by (bit_vector);
            }
            Ok(SysMessage::SongPosition(((lsb & 0x7f) as u16) | (((msb & 0x7f) as u16) << 7)))
        } else if lo == 0x03 {
            Ok(SysMessage::SongSelect(b[1]))
        } else if lo == 0x06 {
            Ok(SysMessage::TuneRequest)
        } else if lo == 0x07 {
            Ok(SysMessage::EndOfExclusive)
        } else if lo <= 0x05 {
            Err(true)
        } else {
            Err(false)
        }
    }
}

/// The System Real-Time message a status byte decodes to, if any. Exactly six
/// reserved bytes match; the undefined codes `0xFB` and `0xFD` match nothing
/// and fall through to "unrecognized".
pub open spec fn spec_sys_rt(status: u8) -> Option<SysRTMessage> {
    if status == 0xf8 {
        Some(SysRTMessage::TimingClock)
    } else if status == 0xf9 {
        Some(SysRTMessage::Start)
    } else if status == 0xfa {
        Some(SysRTMessage::Continue)
    } else if status == 0xfc {
        Some(SysRTMessage::Stop)
    } else if status == 0xfe {
        Some(SysRTMessage::ActiveSensing)
    } else if status == 0xff {
        Some(SysRTMessage::Reset)
    } else {
        None
    }
}

impl SysRTMessage {
    /// Classifies the leading byte as one of the six System Real-Time
    /// messages, which carry no payload, or reports "no match".
    pub fn from_bytes(b: &[u8]) -> (r: Option<SysRTMessage>)
        requires
            b@.len() >= 1,
        ensures
            r == spec_sys_rt(b@[0]),
    {
        let status = b[0];
        if status == 0xf8 {
            Some(SysRTMessage::TimingClock)
        } else if status == 0xf9 {
            Some(SysRTMessage::Start)
        } else if status == 0xfa {
            Some(SysRTMessage::Continue)
        } else if status == 0xfc {
            Some(SysRTMessage::Stop)
        } else if status == 0xfe {
            Some(SysRTMessage::ActiveSensing)
        } else if status == 0xff {
            Some(SysRTMessage::Reset)
        } else {
            None
        }
    }
}

/// How many bytes of window the classifier reads for a given leading status
/// byte: the status byte itself plus the matched message's fixed payload. The
/// caller's framing layer must hand over at least this many bytes.
pub open spec fn classify_needed_len(status: u8) -> nat {
    if is_voice_status(status) {
        2
    } else {
        sys_needed_len(status)
    }
}

/// The classification of a byte window: the four families are tried in the
/// fixed order voice, channel mode, System Common, System Real-Time, and the
/// first success wins. A malformed message aborts classification at once —
/// its bytes must not be reinterpreted as a later family — while "no match"
/// falls through; if no family matches, the window is unrecognized.
pub open spec fn spec_classify(b: Seq<u8>) -> Result<Data, DecodeError> {
    match spec_voice_kind(b[0]) {
        Some(kind) => Ok(Data::Voice(kind, b[1])),
        None => match spec_channel_message(b) {
            Ok(m) => Ok(Data::Channel(m)),
            Err(hard) => if hard {
                Err(DecodeError::Malformed)
            } else {
                match spec_sys_message(b) {
                    Ok(m) => Ok(Data::System(m)),
                    Err(hard2) => if hard2 {
                        Err(DecodeError::Malformed)
                    } else {
                        match spec_sys_rt(b[0]) {
                            Some(m) => Ok(Data::SystemRealTime(m)),
                            None => Err(DecodeError::Unrecognized),
                        }
                    },
                }
            },
        },
    }
}

impl Data {
    /// Decodes one MIDI message from a byte window that begins at a status
    /// byte and holds at least the matched message's fixed payload. Each
    /// family is tried in the fixed priority order voice, channel mode,
    /// System Common, System Real-Time; the first success is returned.
    /// `Err(Malformed)` reports a recognized but structurally invalid
    /// message, never reinterpreted as a later family; `Err(Unrecognized)`
    /// means no family claimed the leading byte.
    pub fn from_bytes(b: &[u8]) -> (r: Result<Data, DecodeError>)
        requires
            b@.len() >= 1,
            b@.len() >= classify_needed_len(b@[0]),
        ensures
            r == spec_classify(b@),
    {
        if let Some(kind) = VoiceMessage::from_bytes(b) {
            return Ok(Data::Voice(kind, b[1]));
        }
        match ChannelMessage::from_bytes(b) {
            Ok(m) => {
                return Ok(Data::Channel(m));
            },
            Err(hard) => {
                if hard {
                    return Err(DecodeError::Malformed);
                }
            },
        }
        match SysMessage::from_bytes(b) {
            Ok(m) => {
                return Ok(Data::System(m));
            },
            Err(hard) => {
                if hard {
                    return Err(DecodeError::Malformed);
                }
            },
        }
        if let Some(m) = SysRTMessage::from_bytes(b) {
            return Ok(Data::SystemRealTime(m));
        }
        Err(DecodeError::Unrecognized)
    }
}

/// Channel bits never change the matched kind: two windows whose status bytes
/// share a top nibble that is a voice pattern classify to `Voice` with the
/// same kind, whatever their low nibbles, each carrying its own data byte.
pub proof fn lemma_classify_channel_invariant(b1: Seq<u8>, b2: Seq<u8>, kind: VoiceMessage)
    requires
        spec_voice_kind(b1[0]) == Some(kind),
        b1[0] >> 4 == b2[0] >> 4,
    ensures
        spec_classify(b1) == Ok::<Data, DecodeError>(Data::Voice(kind, b1[1])),
        spec_classify(b2) == Ok::<Data, DecodeError>(Data::Voice(kind, b2[1])),
{
    let s1 = b1[0];
    let s2 = b2[0];
    assert(s1 & 0xf0 == s2 & 0xf0) by (bit_vector)
        requires
            s1 >> 4 == s2 >> 4,
    ;
}

/// A Control-Change status byte with controller byte 125 requests mono mode
/// with the following data byte as the channel count, for every data byte
/// value 0–127.
pub proof fn lemma_mono_mode_takes_channel_count(b: Seq<u8>)
    requires
        is_control_change(b[0]),
        b[1] == 125,
        b[2] < 128,
    ensures
        spec_channel_message(b) == Ok::<ChannelMessage, bool>(
            ChannelMessage::AllNotesOff(Some(ChannelMode::MonoMode(b[2]))),
        ),
{
}

/// Song-position assembly is invertible: re-encoding the assembled value
/// reproduces both seven-bit data bytes bit for bit, and the value always
/// fits in 14 bits.
pub proof fn lemma_song_position_round_trip(lsb: u8, msb: u8)
    requires
        lsb < 128,
        msb < 128,
    ensures
        spec_song_position_lsb(spec_song_position(lsb, msb)) == lsb,
        spec_song_position_msb(spec_song_position(lsb, msb)) == msb,
        spec_song_position(lsb, msb) < 0x4000,
{
    assert((((((lsb & 0x7f) as u16) | (((msb & 0x7f) as u16) << 7)) & 0x7f) as u8) == lsb)
        by (bit_vector)
        requires
            lsb < 128,
    ;
    assert((((((lsb & 0x7f) as u16) | (((msb & 0x7f) as u16) << 7)) >> 7) & 0x7f) as u8 == msb)
        by (bit_vector)
        requires
            msb < 128,
    ;
    assert((((lsb & 0x7f) as u16) | (((msb & 0x7f) as u16) << 7)) < 0x4000) by (bit_vector);
}

/// A decoded quarter frame's nibble value is always in range 0–15, whatever
/// its kind, and a decoded song position always fits in 14 bits.
pub proof fn lemma_decoded_ranges(b: Seq<u8>)
    ensures
        spec_sys_message(b) matches Ok(SysMessage::QuarterFrame(_, v)) ==> v < 16,
        spec_sys_message(b) matches Ok(SysMessage::SongPosition(p)) ==> p < 0x4000,
        spec_classify(b) matches Ok(Data::System(SysMessage::QuarterFrame(_, v))) ==> v < 16,
        spec_classify(b) matches Ok(Data::System(SysMessage::SongPosition(p))) ==> p < 0x4000,
{
    let data = b[1];
    let msb = b[2];
    assert(data & 0x0f < 16) by (bit_vector);
    assert((((data & 0x7f) as u16) | (((msb & 0x7f) as u16) << 7)) < 0x4000) by (bit_vector);
}

/// Classification is a pure function of the byte window: equal windows decode
/// to equal messages, so decoding the same window twice yields value-equal
/// results with no observable difference.
pub proof fn lemma_classify_deterministic(b1: Seq<u8>, b2: Seq<u8>)
    requires
        b1 == b2,
    ensures
        spec_classify(b1) == spec_classify(b2),
{
}

} // verus!
