use synth_fm_rs::lfo::LFOWaveform;
use synth_fm_rs::preset_loader::{
    parse_breakpoint, parse_lfo_wave, parse_note_name, parse_transpose, JsonNumber, JsonValue,
};

fn text(s: &str) -> JsonValue {
    JsonValue::String(s.to_string())
}

fn number(i: i64) -> JsonValue {
    if i >= 0 {
        JsonValue::Number(JsonNumber::PosInt(i as u64))
    } else {
        JsonValue::Number(JsonNumber::NegInt(i))
    }
}

#[test]
fn parse_note_names() {
    assert_eq!(parse_note_name("C3"), Some(60));
    assert_eq!(parse_note_name("C2"), Some(48));
    assert_eq!(parse_note_name("A-1"), Some(21));
    assert_eq!(parse_note_name("F#4"), Some(78));
    assert_eq!(parse_note_name("Bb2"), Some(58));
    assert!(parse_note_name("foo").is_none());
}

#[test]
fn parse_transpose_handles_strings_and_integers() {
    assert_eq!(parse_transpose(&text("C3")), 0);
    assert_eq!(parse_transpose(&text("C2")), -12);
    assert_eq!(parse_transpose(&text("C4")), 12);
    assert_eq!(parse_transpose(&number(-7)), -7);
    assert_eq!(parse_transpose(&number(50)), 24);
}

#[test]
fn parse_note_name_handles_negative_octaves() {
    assert_eq!(parse_note_name("A-1"), Some(21));
    assert_eq!(parse_note_name("C-1"), Some(12));
    assert_eq!(parse_note_name("C0"), Some(24));
}

#[test]
fn parse_note_name_rejects_empty_and_invalid() {
    assert!(parse_note_name("").is_none());
    assert!(parse_note_name("   ").is_none());
    assert!(parse_note_name("X3").is_none());
    assert!(parse_note_name("Czz").is_none());
}

#[test]
fn parse_breakpoint_handles_number_string_and_other() {
    assert_eq!(parse_breakpoint(&number(72)), 72);
    assert_eq!(parse_breakpoint(&text("C3")), 60);
    assert_eq!(parse_breakpoint(&JsonValue::Other), 60);
}

#[test]
fn parse_breakpoint_clamps_to_midi_range() {
    assert_eq!(parse_breakpoint(&number(200)), 127);
}

#[test]
fn parse_lfo_wave_recognises_all_aliases() {
    assert_eq!(parse_lfo_wave("triangle"), LFOWaveform::Triangle);
    assert_eq!(parse_lfo_wave("TRI"), LFOWaveform::Triangle);
    assert_eq!(parse_lfo_wave("sawdown"), LFOWaveform::SawDown);
    assert_eq!(parse_lfo_wave("saw_down"), LFOWaveform::SawDown);
    assert_eq!(parse_lfo_wave("saw-up"), LFOWaveform::SawUp);
    assert_eq!(parse_lfo_wave("Square"), LFOWaveform::Square);
    assert_eq!(parse_lfo_wave("sin"), LFOWaveform::Sine);
    assert_eq!(parse_lfo_wave("S&H"), LFOWaveform::SampleHold);
    assert_eq!(parse_lfo_wave("garbage"), LFOWaveform::Triangle);
}

#[test]
fn parse_note_name_edge_cases() {
    assert_eq!(parse_note_name("  c3  "), Some(60));
    assert_eq!(parse_note_name("G8"), Some(127));
    assert_eq!(parse_note_name("G#8"), None);
    assert_eq!(parse_note_name("C-3"), None);
    assert_eq!(parse_note_name("C+3"), Some(60));
    assert_eq!(parse_note_name("Cb3"), Some(59));
    assert_eq!(parse_note_name("C"), None);
}

#[test]
fn parse_transpose_and_breakpoint_edges() {
    assert_eq!(parse_transpose(&text("C0")), -24);
    assert_eq!(parse_transpose(&text("C7")), 24);
    assert_eq!(parse_transpose(&text("nonsense")), 0);
    assert_eq!(parse_transpose(&JsonValue::Number(JsonNumber::Float)), 0);
    assert_eq!(parse_transpose(&JsonValue::Other), 0);
    assert_eq!(parse_transpose(&number(-100)), -24);
    assert_eq!(parse_transpose(&JsonValue::Number(JsonNumber::PosInt(u64::MAX))), 0);
    assert_eq!(parse_breakpoint(&number(-5)), 60);
    assert_eq!(parse_breakpoint(&JsonValue::Number(JsonNumber::Float)), 60);
    assert_eq!(parse_breakpoint(&text("A-1")), 21);
}

#[test]
fn parse_lfo_wave_trims_and_ignores_case() {
    assert_eq!(parse_lfo_wave("  SAMPLE-HOLD "), LFOWaveform::SampleHold);
    assert_eq!(parse_lfo_wave("Saw Up"), LFOWaveform::SawUp);
    assert_eq!(parse_lfo_wave("sqr"), LFOWaveform::Square);
    assert_eq!(parse_lfo_wave(""), LFOWaveform::Triangle);
}
