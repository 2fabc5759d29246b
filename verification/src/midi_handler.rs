//! Decoding of incoming MIDI messages into synthesizer actions.

use vstd::prelude::*;

use crate::text::push_char;
use crate::sysex::{parse_message, parsed_view, sysex_parse, ParsedSysex, SysexError, SysexResult};

verus! {

/// Sentinel for OMNI mode — accept any channel.
pub const MIDI_OMNI: u8 = 0xFF;

/// The channel filter value for a channel choice: `None` is OMNI, a channel
/// above 15 is taken as 15.
pub open spec fn filter_for(channel: Option<u8>) -> u8 {
    match channel {
        None => MIDI_OMNI,
        Some(ch) => if ch > 15 { 15 } else { ch },
    }
}

/// The channel filter value for a channel choice. `None` selects OMNI mode;
/// `Some(0..15)` accepts only that 0-indexed channel (MIDI ch 1 = 0).
pub fn channel_filter_for(channel: Option<u8>) -> (f: u8)
    ensures
        f == filter_for(channel),
{
    match channel {
        None => MIDI_OMNI,
        Some(ch) => if ch > 15 { 15 } else { ch },
    }
}

/// The channel choice a filter value stands for. `None` means OMNI.
pub fn channel_of_filter(raw: u8) -> (c: Option<u8>)
    ensures
        c == (if raw == MIDI_OMNI { None } else { Some(raw) }),
{
    if raw == MIDI_OMNI {
        None
    } else {
        Some(raw)
    }
}

/// Setting a channel and reading it back gives the channel (at most 15), or
/// `None` for OMNI.
pub proof fn lemma_channel_filter_roundtrip(channel: Option<u8>)
    ensures
        (if filter_for(channel) == MIDI_OMNI { None } else { Some(filter_for(channel)) }) == match channel {
            None => None,
            Some(ch) => Some(if ch > 15 { 15u8 } else { ch }),
        },
{
}

/// What the synthesizer is asked to do for one MIDI message.
#[derive(Debug)]
pub enum MidiAction {
    NoteOn { note: u8, velocity: u8 },
    NoteOff { note: u8 },
    /// Bank Select MSB (CC0).
    BankSelectMsb(u8),
    /// Bank Select LSB (CC32).
    BankSelectLsb(u8),
    /// Mod wheel (CC1), raw 0..127.
    ModWheel(u8),
    /// Breath controller (CC2), raw 0..127.
    BreathController(u8),
    /// Foot controller (CC4), raw 0..127.
    FootController(u8),
    /// Expression (CC11), raw 0..127.
    Expression(u8),
    /// Sustain pedal (CC64): pressed when the value is 64 or more.
    SustainPedal(bool),
    /// All notes off (CC123).
    Panic,
    /// Channel aftertouch (0xD0), raw pressure 0..127.
    Aftertouch(u8),
    /// Pitch bend, centred on 0 (-8192..8191 for 7-bit data bytes).
    PitchBend(i16),
    ProgramChange(u8),
    /// A SysEx message, parsed.
    SysEx(Result<SysexResult, SysexError>),
}

/// The spec-level action of a message, with a SysEx result by its view.
pub enum MidiActionView {
    NoteOn { note: u8, velocity: u8 },
    NoteOff { note: u8 },
    BankSelectMsb(u8),
    BankSelectLsb(u8),
    ModWheel(u8),
    BreathController(u8),
    FootController(u8),
    Expression(u8),
    SustainPedal(bool),
    Panic,
    Aftertouch(u8),
    PitchBend(i16),
    ProgramChange(u8),
    SysEx(Result<ParsedSysex, SysexError>),
}

/// The view of an action.
pub open spec fn action_view(a: MidiAction) -> MidiActionView {
    match a {
        MidiAction::NoteOn { note, velocity } => MidiActionView::NoteOn { note, velocity },
        MidiAction::NoteOff { note } => MidiActionView::NoteOff { note },
        MidiAction::BankSelectMsb(v) => MidiActionView::BankSelectMsb(v),
        MidiAction::BankSelectLsb(v) => MidiActionView::BankSelectLsb(v),
        MidiAction::ModWheel(v) => MidiActionView::ModWheel(v),
        MidiAction::BreathController(v) => MidiActionView::BreathController(v),
        MidiAction::FootController(v) => MidiActionView::FootController(v),
        MidiAction::Expression(v) => MidiActionView::Expression(v),
        MidiAction::SustainPedal(b) => MidiActionView::SustainPedal(b),
        MidiAction::Panic => MidiActionView::Panic,
        MidiAction::Aftertouch(v) => MidiActionView::Aftertouch(v),
        MidiAction::PitchBend(v) => MidiActionView::PitchBend(v),
        MidiAction::ProgramChange(p) => MidiActionView::ProgramChange(p),
        MidiAction::SysEx(r) => MidiActionView::SysEx(parsed_view(r)),
    }
}

/// Whether a filter lets a message with status byte `status` through: system
/// messages (0xF0 and up) carry no channel and always pass.
pub open spec fn channel_passes(filter: u8, status: u8) -> bool {
    status >= 0xF0 || filter == MIDI_OMNI || filter == status & 0x0F
}

/// The action for a control change `cc` with `value`, if the controller is one
/// the synthesizer reacts to.
pub open spec fn control_change_action(cc: u8, value: u8) -> Option<MidiActionView> {
    if cc == 0 {
        Some(MidiActionView::BankSelectMsb(value))
    } else if cc == 1 {
        Some(MidiActionView::ModWheel(value))
    } else if cc == 2 {
        Some(MidiActionView::BreathController(value))
    } else if cc == 4 {
        Some(MidiActionView::FootController(value))
    } else if cc == 11 {
        Some(MidiActionView::Expression(value))
    } else if cc == 32 {
        Some(MidiActionView::BankSelectLsb(value))
    } else if cc == 64 {
        Some(MidiActionView::SustainPedal(value >= 64))
    } else if cc == 123 {
        Some(MidiActionView::Panic)
    } else {
        None
    }
}

/// The pitch bend value of the data bytes `lsb`, `msb`: 14 bits centred on 0.
pub open spec fn bend_value(lsb: u8, msb: u8) -> i16 {
    ((((msb as i16) << 7) | (lsb as i16)) - 8192) as i16
}

/// The action a MIDI message asks for under a channel filter, if any.
pub open spec fn midi_action(m: Seq<u8>, filter: u8) -> Option<MidiActionView> {
    if m.len() == 0 || !channel_passes(filter, m[0]) || m.len() < 2 {
        None
    } else {
        let status = m[0] & 0xF0;
        if status == 0x90 {
            if m.len() >= 3 {
                if m[2] > 0 {
                    Some(MidiActionView::NoteOn { note: m[1], velocity: m[2] })
                } else {
                    Some(MidiActionView::NoteOff { note: m[1] })
                }
            } else {
                None
            }
        } else if status == 0x80 {
            if m.len() >= 3 { Some(MidiActionView::NoteOff { note: m[1] }) } else { None }
        } else if status == 0xB0 {
            if m.len() >= 3 { control_change_action(m[1], m[2]) } else { None }
        } else if status == 0xD0 {
            Some(MidiActionView::Aftertouch(m[1]))
        } else if status == 0xE0 {
            if m.len() >= 3 { Some(MidiActionView::PitchBend(bend_value(m[1], m[2]))) } else { None }
        } else if status == 0xC0 {
            Some(MidiActionView::ProgramChange(m[1]))
        } else if status == 0xF0 {
            Some(MidiActionView::SysEx(sysex_parse(m)))
        } else {
            None
        }
    }
}

/// System messages (status 0xF0 and up) carry no channel: every channel filter
/// treats them as OMNI does.
pub proof fn lemma_system_messages_bypass_filter(m: Seq<u8>, filter: u8)
    requires
        m.len() > 0,
        m[0] >= 0xF0,
    ensures
        midi_action(m, filter) == midi_action(m, MIDI_OMNI),
{
}

/// A channel message passes a channel filter exactly when its channel is the
/// filter's channel.
pub proof fn lemma_filter_passes_its_own_channel(m: Seq<u8>, filter: u8)
    requires
        m.len() > 0,
        m[0] < 0xF0,
        filter <= 15,
    ensures
        midi_action(m, filter) == (if m[0] & 0x0F == filter { midi_action(m, MIDI_OMNI) } else { None }),
{
}

/// A Note On with velocity 0 is a Note Off: it does exactly what a Note Off
/// for the same key and channel does, whatever that message's velocity.
pub proof fn lemma_zero_velocity_note_on_is_note_off(channel: u8, note: u8, velocity: u8, filter: u8)
    requires
        channel < 16,
    ensures
        midi_action(seq![0x90u8 | channel, note, 0u8], filter) == midi_action(
            seq![0x80u8 | channel, note, velocity],
            filter,
        ),
{
    assert((0x90u8 | channel) & 0xF0 == 0x90 && (0x80u8 | channel) & 0xF0 == 0x80) by (bit_vector)
        requires
            channel < 16,
    ;
    assert((0x90u8 | channel) & 0x0F == channel && (0x80u8 | channel) & 0x0F == channel) by (bit_vector)
        requires
            channel < 16,
    ;
    assert((0x90u8 | channel) < 0xF0 && (0x80u8 | channel) < 0xF0) by (bit_vector)
        requires
            channel < 16,
    ;
}

/// Under the OMNI filter a channel message does the same on every channel:
/// its action depends on its status nibble and data bytes only.
pub proof fn lemma_omni_ignores_channel(kind: u8, channel: u8, rest: Seq<u8>)
    requires
        0x80 <= kind <= 0xE0,
        kind & 0x0F == 0,
        channel < 16,
    ensures
        midi_action(seq![kind | channel] + rest, MIDI_OMNI) == midi_action(seq![kind] + rest, MIDI_OMNI),
{
    let a = seq![kind | channel] + rest;
    let b = seq![kind] + rest;
    assert((kind | channel) & 0xF0 == kind && kind & 0xF0 == kind && (kind | channel) < 0xF0) by (bit_vector)
        requires
            0x80 <= kind <= 0xE0,
            kind & 0x0F == 0,
            channel < 16,
    ;
    assert(a.len() == b.len());
    assert(forall|k: int| 1 <= k < a.len() ==> a[k] == rest[k - 1] && b[k] == rest[k - 1]);
    if a.len() >= 2 {
        assert(a[1] == b[1]);
    }
    if a.len() >= 3 {
        assert(a[2] == b[2]);
    }
}

/// The view of an optional action.
pub open spec fn option_action_view(a: Option<MidiAction>) -> Option<MidiActionView> {
    match a {
        Some(x) => Some(action_view(x)),
        None => None,
    }
}

/// Decide what a MIDI message asks the synthesizer to do, given the channel
/// filter (0..15, or `MIDI_OMNI`). Messages on other channels, truncated
/// messages and unknown messages ask for nothing.
pub fn route_midi_message(message: &[u8], channel_filter: u8) -> (a: Option<MidiAction>)
    ensures
        option_action_view(a) == midi_action(message@, channel_filter),
{
    if message.len() == 0 {
        return None;
    }
    let status_full = message[0];
    // SysEx and System Common messages (0xF0..0xFF) carry no channel.
    if status_full < 0xF0 {
        let msg_channel = status_full & 0x0F;
        if channel_filter != MIDI_OMNI && channel_filter != msg_channel {
            return None;
        }
    }
    if message.len() < 2 {
        return None;
    }
    let status = message[0] & 0xF0;
    let n = message.len();
    if status == 0x90 {
        if n >= 3 {
            let note = message[1];
            let velocity = message[2];
            if velocity > 0 {
                Some(MidiAction::NoteOn { note, velocity })
            } else {
                Some(MidiAction::NoteOff { note })
            }
        } else {
            None
        }
    } else if status == 0x80 {
        if n >= 3 {
            Some(MidiAction::NoteOff { note: message[1] })
        } else {
            None
        }
    } else if status == 0xB0 {
        if n >= 3 {
            let value = message[2];
            match message[1] {
                0 => Some(MidiAction::BankSelectMsb(value)),
                1 => Some(MidiAction::ModWheel(value)),
                2 => Some(MidiAction::BreathController(value)),
                4 => Some(MidiAction::FootController(value)),
                11 => Some(MidiAction::Expression(value)),
                32 => Some(MidiAction::BankSelectLsb(value)),
                64 => Some(MidiAction::SustainPedal(value >= 64)),
                123 => Some(MidiAction::Panic),
                _ => None,
            }
        } else {
            None
        }
    } else if status == 0xD0 {
        Some(MidiAction::Aftertouch(message[1]))
    } else if status == 0xE0 {
        if n >= 3 {
            let lsb = message[1] as i16;
            let msb = message[2] as i16;
            let l8 = message[1];
            let m8 = message[2];
            assert((((m8 as i16) << 7) | (l8 as i16)) <= 32767 && (((m8 as i16) << 7) | (l8 as i16)) >= 0)
                by (bit_vector);
            let value = ((msb << 7) | lsb) - 8192;
            Some(MidiAction::PitchBend(value))
        } else {
            None
        }
    } else if status == 0xC0 {
        // Program Change - preset selection, combined with Bank Select by the engine.
        Some(MidiAction::ProgramChange(message[1]))
    } else if status == 0xF0 {
        // SysEx (0xF0) — pass the complete message to the parser.
        Some(MidiAction::SysEx(parse_message(message)))
    } else {
        None
    }
}

/// The note names within an octave, sharps written with `#`.
pub open spec fn note_letter(i: int) -> Seq<char> {
    if i == 0 {
        "C"@
    } else if i == 1 {
        "C#"@
    } else if i == 2 {
        "D"@
    } else if i == 3 {
        "D#"@
    } else if i == 4 {
        "E"@
    } else if i == 5 {
        "F"@
    } else if i == 6 {
        "F#"@
    } else if i == 7 {
        "G"@
    } else if i == 8 {
        "G#"@
    } else if i == 9 {
        "A"@
    } else if i == 10 {
        "A#"@
    } else {
        "B"@
    }
}

/// The decimal text of an octave number -1..9.
pub open spec fn octave_text(o: int) -> Seq<char> {
    if o < 0 {
        "-1"@
    } else {
        seq![(48 + o) as char]
    }
}

/// The name of a MIDI note in the MIDI convention (60 = "C4").
pub open spec fn midi_note_name(note: u8) -> Seq<char> {
    note_letter((note % 12) as int) + octave_text(note / 12 - 1)
}

fn note_letter_str(i: u8) -> (s: &'static str)
    requires
        i < 12,
    ensures
        s@ == note_letter(i as int),
{
    match i {
        0 => "C",
        1 => "C#",
        2 => "D",
        3 => "D#",
        4 => "E",
        5 => "F",
        6 => "F#",
        7 => "G",
        8 => "G#",
        9 => "A",
        10 => "A#",
        _ => "B",
    }
}


/// The name of a MIDI note, e.g. 60 = "C4", 61 = "C#4", 0 = "C-1".
pub fn note_name(note: u8) -> (name: String)
    ensures
        name@ == midi_note_name(note),
{
    let mut s = String::from_str(note_letter_str(note % 12));
    let octave = note / 12;
    if octave == 0 {
        s.append("-1");
    } else {
        push_char(&mut s, ((48 + octave - 1) as u8) as char);
    }
    assert(s@ =~= midi_note_name(note));
    s
}

} // verus!
