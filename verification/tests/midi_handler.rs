use synth_fm_rs::midi_handler::{
    channel_filter_for, channel_of_filter, note_name, route_midi_message, MidiAction, MIDI_OMNI,
};
use synth_fm_rs::sysex::{encode_single_voice, Dx7Lfo, Dx7Operator, Dx7PitchEg, Dx7Voice, SysexError, SysexResult};

fn route(message: &[u8]) -> Option<MidiAction> {
    route_midi_message(message, MIDI_OMNI)
}

#[test]
fn note_name_handles_full_range() {
    assert_eq!(note_name(0), "C-1");
    assert_eq!(note_name(60), "C4");
    assert_eq!(note_name(69), "A4");
    assert_eq!(note_name(127), "G9");
}

#[test]
fn note_name_includes_sharps() {
    assert_eq!(note_name(61), "C#4");
    assert_eq!(note_name(70), "A#4");
}

#[test]
fn empty_message_is_dropped() {
    assert!(route(&[]).is_none());
}

#[test]
fn note_on_with_velocity_zero_is_treated_as_note_off() {
    assert!(matches!(route(&[0x90, 60, 0]), Some(MidiAction::NoteOff { note: 60 })));
}

#[test]
fn note_on_with_positive_velocity_dispatches() {
    assert!(matches!(
        route(&[0x90, 60, 100]),
        Some(MidiAction::NoteOn { note: 60, velocity: 100 })
    ));
}

#[test]
fn explicit_note_off_dispatches() {
    assert!(matches!(route(&[0x80, 60, 100]), Some(MidiAction::NoteOff { note: 60 })));
}

#[test]
fn truncated_note_messages_are_ignored() {
    assert!(route(&[0x90, 60]).is_none());
    assert!(route(&[0x80, 60]).is_none());
}

#[test]
fn control_change_routes_recognised_ccs() {
    assert!(matches!(route(&[0xB0, 0, 64]), Some(MidiAction::BankSelectMsb(64))));
    assert!(matches!(route(&[0xB0, 1, 64]), Some(MidiAction::ModWheel(64))));
    assert!(matches!(route(&[0xB0, 2, 64]), Some(MidiAction::BreathController(64))));
    assert!(matches!(route(&[0xB0, 4, 64]), Some(MidiAction::FootController(64))));
    assert!(matches!(route(&[0xB0, 11, 64]), Some(MidiAction::Expression(64))));
    assert!(matches!(route(&[0xB0, 32, 64]), Some(MidiAction::BankSelectLsb(64))));
    assert!(matches!(route(&[0xB0, 64, 64]), Some(MidiAction::SustainPedal(true))));
    assert!(matches!(route(&[0xB0, 64, 63]), Some(MidiAction::SustainPedal(false))));
    assert!(matches!(route(&[0xB0, 123, 64]), Some(MidiAction::Panic)));
    assert!(route(&[0xB0, 50, 64]).is_none());
}

#[test]
fn control_change_truncated_is_ignored() {
    assert!(route(&[0xB0, 1]).is_none());
}

#[test]
fn aftertouch_dispatches() {
    assert!(matches!(route(&[0xD0, 100]), Some(MidiAction::Aftertouch(100))));
}

#[test]
fn aftertouch_too_short_is_ignored() {
    assert!(route(&[0xD0]).is_none());
}

#[test]
fn pitch_bend_combines_lsb_and_msb() {
    assert!(matches!(route(&[0xE0, 0, 64]), Some(MidiAction::PitchBend(0))));
    assert!(matches!(route(&[0xE0, 127, 127]), Some(MidiAction::PitchBend(8191))));
    assert!(matches!(route(&[0xE0, 0, 0]), Some(MidiAction::PitchBend(-8192))));
}

#[test]
fn program_change_dispatches() {
    assert!(matches!(route(&[0xC0, 5]), Some(MidiAction::ProgramChange(5))));
}

#[test]
fn unknown_status_byte_is_logged_but_safe() {
    assert!(route(&[0xA0, 60, 100]).is_none());
}

#[test]
fn channel_filter_suppresses_non_matching_channel() {
    assert!(route_midi_message(&[0x90, 60, 100], 4).is_none());
    assert!(matches!(
        route_midi_message(&[0x94, 60, 100], 4),
        Some(MidiAction::NoteOn { note: 60, velocity: 100 })
    ));
}

#[test]
fn sysex_messages_are_routed_to_parser() {
    let bytes = [0xF0u8, 0x42, 0x00, 0xF7];
    assert!(matches!(route(&bytes), Some(MidiAction::SysEx(Err(SysexError::TooShort)))));
}

#[test]
fn channel_filter_omni_accepts_all_channels() {
    for ch in 0..16u8 {
        assert!(matches!(
            route_midi_message(&[0x90 | ch, 60, 100], MIDI_OMNI),
            Some(MidiAction::NoteOn { note: 60, velocity: 100 })
        ));
    }
}

#[test]
fn system_messages_skip_channel_filter() {
    assert!(matches!(
        route_midi_message(&[0xF0, 0x43, 0x00, 0xF7], 0),
        Some(MidiAction::SysEx(Err(_)))
    ));
}

#[test]
fn set_channel_to_specific_value_records_zero_indexed_channel() {
    let filter = channel_filter_for(Some(3));
    assert_eq!(channel_of_filter(filter), Some(3));
}

#[test]
fn set_channel_clamps_above_15() {
    let filter = channel_filter_for(Some(99));
    assert_eq!(channel_of_filter(filter), Some(15));
}

#[test]
fn set_channel_none_returns_omni() {
    let _ = channel_filter_for(Some(7));
    let filter = channel_filter_for(None);
    assert_eq!(channel_of_filter(filter), None);
    assert_eq!(filter, MIDI_OMNI);
}

#[test]
fn sysex_dispatch_with_invalid_payload_is_a_noop() {
    assert!(matches!(route(&[0xF0, 0xF7]), Some(MidiAction::SysEx(Err(SysexError::TooShort)))));
}

#[test]
fn sysex_dispatch_with_valid_single_voice_loads_preset() {
    let voice = Dx7Voice {
        name: "MIDI SX".to_string(),
        collection: "test".to_string(),
        algorithm: 9,
        operators: [Dx7Operator::default(); 6],
        transpose_semitones: 0,
        pitch_mod_sensitivity: 2,
        pitch_eg: Some(Dx7PitchEg::default()),
        lfo: Some(Dx7Lfo::default()),
    };
    let bytes = encode_single_voice(&voice, 0);
    match route(&bytes) {
        Some(MidiAction::SysEx(Ok(SysexResult::SingleVoice(v)))) => {
            assert_eq!(v.name, "MIDI SX");
            assert_eq!(v.algorithm, 9);
            assert_eq!(v.pitch_mod_sensitivity, 2);
        }
        other => panic!("expected a single voice, got {other:?}"),
    }
}

#[test]
fn one_byte_channel_messages_are_dropped() {
    assert!(route(&[0xC0]).is_none());
    assert!(route(&[0x90]).is_none());
}
