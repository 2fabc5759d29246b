//! The textual parts of JSON patch files: note names, transpose and
//! breakpoint values, LFO wave names.

use vstd::prelude::*;

use crate::lfo::LFOWaveform;
use crate::text::{
    all_digits, digits_value, is_whitespace, trim_end, trim_start,
    ascii_lowercase, ascii_upper, char_ascii_upper, chars_equal, chars_of, lowercase_chars,
    parse_i32_from, parsed_i32, trim_chars, trimmed,
};

verus! {

/// A JSON number as a patch file holds it: a non-negative integer, a negative
/// integer, or a number with a fraction or exponent.
#[derive(Debug, Clone, Copy, PartialEq, Eq, Structural)]
pub enum JsonNumber {
    PosInt(u64),
    NegInt(i64),
    Float,
}

/// The JSON values that breakpoint and transpose fields hold.
#[derive(Debug, Clone)]
pub enum JsonValue {
    Number(JsonNumber),
    String(String),
    /// Any other JSON value (`null`, a boolean, an array, an object).
    Other,
}

/// The semitone of a note letter within its octave (C = 0 .. B = 11).
pub open spec fn letter_semitone(c: char) -> Option<int> {
    if c == 'C' {
        Some(0)
    } else if c == 'D' {
        Some(2)
    } else if c == 'E' {
        Some(4)
    } else if c == 'F' {
        Some(5)
    } else if c == 'G' {
        Some(7)
    } else if c == 'A' {
        Some(9)
    } else if c == 'B' {
        Some(11)
    } else {
        None
    }
}

/// The accidental of a trimmed note name (`#` = +1, `b` = -1) and where its octave starts.
pub open spec fn accidental_of(t: Seq<char>) -> (int, int) {
    if t.len() > 1 && t[1] == '#' {
        (1, 2)
    } else if t.len() > 1 && t[1] == 'b' {
        (-1, 2)
    } else {
        (0, 1)
    }
}

/// The MIDI number of a note name before the range check: with C3 = 60,
/// note = (octave + 2) * 12 + semitone + accidental.
pub open spec fn raw_note_number(s: Seq<char>) -> Option<int> {
    let t = trimmed(s);
    if t.len() == 0 {
        None
    } else {
        let (acc, start) = accidental_of(t);
        match parsed_i32(t.skip(start)) {
            None => None,
            Some(octave) => match letter_semitone(ascii_upper(t[0])) {
                None => None,
                Some(st) => Some((octave + 2) * 12 + st + acc),
            },
        }
    }
}

/// The MIDI note a name such as "C3", "A-1", "F#4" or "Bb2" stands for (C3 = 60),
/// when it is one (0..127).
pub open spec fn note_number(s: Seq<char>) -> Option<u8> {
    match raw_note_number(s) {
        Some(m) => if 0 <= m <= 127 { Some(m as u8) } else { None },
        None => None,
    }
}

/// A letter followed by one octave digit reads as that letter's note.
proof fn lemma_letter_digit_name(l: char, d: char)
    requires
        letter_semitone(l) is Some,
        '0' <= d <= '9',
    ensures
        raw_note_number(seq![l, d]) == Some((d as int - 48 + 2) * 12 + letter_semitone(l)->0),
{
    let s = seq![l, d];
    assert(!is_whitespace(l) && !is_whitespace(d));
    assert(trim_start(s) == s);
    assert(trim_end(s) == s);
    assert(trimmed(s) == s);
    assert(accidental_of(s) == (0int, 1int));
    let rest = s.skip(1);
    assert(rest =~= seq![d]);
    assert(rest.drop_last() =~= Seq::<char>::empty());
    assert(all_digits(rest));
    assert(digits_value(rest.drop_last()) == 0);
    assert(rest.last() == d);
    assert(digits_value(rest) == d as int - 48);
    assert(parsed_i32(rest) == Some((d as int - 48) as i32));
    assert(ascii_upper(l) == l);
}

/// Note names follow the chromatic scale: in every octave 0..7 (C3 = MIDI
/// 60) the natural notes C, D, E, F, G, A, B lie 0, 2, 4, 5, 7, 9 and 11
/// semitones above the octave's C.
pub proof fn lemma_natural_note_names(d: char)
    requires
        '0' <= d <= '7',
    ensures
        ({
            let c = (d as int - 48 + 2) * 12;
            &&& note_number(seq!['C', d]) == Some(c as u8)
            &&& note_number(seq!['D', d]) == Some((c + 2) as u8)
            &&& note_number(seq!['E', d]) == Some((c + 4) as u8)
            &&& note_number(seq!['F', d]) == Some((c + 5) as u8)
            &&& note_number(seq!['G', d]) == Some((c + 7) as u8)
            &&& note_number(seq!['A', d]) == Some((c + 9) as u8)
            &&& note_number(seq!['B', d]) == Some((c + 11) as u8)
        }),
{
    lemma_letter_digit_name('C', d);
    lemma_letter_digit_name('D', d);
    lemma_letter_digit_name('E', d);
    lemma_letter_digit_name('F', d);
    lemma_letter_digit_name('G', d);
    lemma_letter_digit_name('A', d);
    lemma_letter_digit_name('B', d);
}

/// A letter, an accidental and one octave digit read as that letter's note
/// moved by the accidental.
proof fn lemma_letter_accidental_digit_name(l: char, a: char, d: char)
    requires
        letter_semitone(l) is Some,
        a == '#' || a == 'b',
        '0' <= d <= '9',
    ensures
        raw_note_number(seq![l, a, d]) == Some(
            (d as int - 48 + 2) * 12 + letter_semitone(l)->0 + if a == '#' { 1int } else { -1int },
        ),
{
    let s = seq![l, a, d];
    assert(!is_whitespace(l) && !is_whitespace(d));
    assert(trim_start(s) == s);
    assert(trim_end(s) == s);
    assert(trimmed(s) == s);
    let rest = s.skip(2);
    assert(rest =~= seq![d]);
    assert(rest.drop_last() =~= Seq::<char>::empty());
    assert(all_digits(rest));
    assert(digits_value(rest.drop_last()) == 0);
    assert(rest.last() == d);
    assert(digits_value(rest) == d as int - 48);
    assert(parsed_i32(rest) == Some((d as int - 48) as i32));
    assert(ascii_upper(l) == l);
}

/// A sharp raises a note name by one semitone and a flat lowers it by one:
/// in every octave 0..7, `X#o` is one above `Xo` and `Xbo` one below, for
/// each natural letter X (so C#3 = 61 and Db3 = 61, Cb3 = 59).
pub proof fn lemma_accidentals_shift_by_a_semitone(l: char, d: char)
    requires
        l == 'C' || l == 'D' || l == 'E' || l == 'F' || l == 'G' || l == 'A' || l == 'B',
        '0' <= d <= '7',
    ensures
        note_number(seq![l, d]) is Some,
        note_number(seq![l, '#', d]) == Some((note_number(seq![l, d])->0 + 1) as u8),
        note_number(seq![l, 'b', d]) == Some((note_number(seq![l, d])->0 - 1) as u8),
{
    lemma_letter_digit_name(l, d);
    lemma_letter_accidental_digit_name(l, '#', d);
    lemma_letter_accidental_digit_name(l, 'b', d);
}

/// Whether `parse_note_name` can read `s`: its first character after trimming
/// is ASCII, and the note arithmetic stays within `i32`.
pub open spec fn note_name_readable(s: Seq<char>) -> bool {
    let t = trimmed(s);
    &&& (t.len() == 0 || (t[0] as u32) < 0x80)
    &&& (raw_note_number(s) matches Some(m) ==> {
        let (acc, start) = accidental_of(t);
        let octave = parsed_i32(t.skip(start))->0;
        &&& i32::MIN <= octave + 2 <= i32::MAX
        &&& i32::MIN <= (octave + 2) * 12 <= i32::MAX
        &&& i32::MIN <= m - acc <= i32::MAX
        &&& i32::MIN <= m <= i32::MAX
    })
}

/// Parse "C3", "A-1", "F#4" into a MIDI note number.
/// DX7 reference: A-1 = MIDI 21, C3 = MIDI 60.
pub fn parse_note_name(s: &str) -> (n: Option<u8>)
    requires
        note_name_readable(s@),
    ensures
        n == note_number(s@),
{
    let raw = chars_of(s);
    let t = trim_chars(&raw);
    if t.len() == 0 {
        return None;
    }
    let letter = char_ascii_upper(t[0]);
    let mut idx: usize = 1;
    let mut accidental: i64 = 0;
    if idx < t.len() {
        if t[idx] == '#' {
            accidental = 1;
            idx = idx + 1;
        } else if t[idx] == 'b' {
            accidental = -1;
            idx = idx + 1;
        }
    }
    let octave = match parse_i32_from(&t, idx) {
        Some(o) => o,
        None => return None,
    };
    let semitone: i64 = if letter == 'C' {
        0
    } else if letter == 'D' {
        2
    } else if letter == 'E' {
        4
    } else if letter == 'F' {
        5
    } else if letter == 'G' {
        7
    } else if letter == 'A' {
        9
    } else if letter == 'B' {
        11
    } else {
        return None;
    };
    // MIDI: C-1 = 0, C0 = 12, C3 = 48, C4 = 60. The DX7 manual labels middle C
    // as C3, which corresponds to MIDI note 60 — i.e. octave_offset = 12 here.
    let midi: i64 = (octave as i64 + 2) * 12 + semitone + accidental;
    if 0 <= midi && midi <= 127 {
        Some(midi as u8)
    } else {
        None
    }
}

/// What a JSON transpose value means: an integer is semitones, a note name is
/// the distance from C3; both are clamped to -24..24; anything else (an
/// integer beyond `i64` among them) is 0.
pub open spec fn transpose_value(v: JsonValue) -> i8 {
    match v {
        JsonValue::Number(JsonNumber::PosInt(u)) => if u > 0x7FFF_FFFF_FFFF_FFFF { 0 } else if u > 24 { 24 } else { u as i8 },
        JsonValue::Number(JsonNumber::NegInt(i)) => if i < -24 { -24i8 } else if i > 24 { 24i8 } else { i as i8 },
        JsonValue::Number(JsonNumber::Float) => 0,
        JsonValue::String(s) => match note_number(s@) {
            Some(m) => if m < 36 { -24i8 } else if m > 84 { 24i8 } else { (m - 60) as i8 },
            None => 0,
        },
        JsonValue::Other => 0,
    }
}

/// Whether the note names inside a JSON value can be read (see `note_name_readable`).
pub open spec fn json_value_readable(v: JsonValue) -> bool {
    match v {
        JsonValue::String(s) => note_name_readable(s@),
        _ => true,
    }
}

/// Parse the DX7 transpose JSON value: `"C3"` ⇒ 0, `"C2"` ⇒ -12, integer ⇒ direct semitones.
pub fn parse_transpose(value: &JsonValue) -> (t: i8)
    requires
        json_value_readable(*value),
    ensures
        t == transpose_value(*value),
        -24 <= t <= 24,
{
    match value {
        JsonValue::Number(JsonNumber::PosInt(u)) => if *u > 0x7FFF_FFFF_FFFF_FFFF { 0 } else if *u > 24 { 24 } else { *u as i8 },
        JsonValue::Number(JsonNumber::NegInt(i)) => if *i < -24 { -24 } else if *i > 24 { 24 } else { *i as i8 },
        JsonValue::Number(JsonNumber::Float) => 0,
        JsonValue::String(s) => match parse_note_name(s.as_str()) {
            // C3 (MIDI 60) is the DX7 reference — no transpose.
            Some(midi) => if midi < 36 { -24 } else if midi > 84 { 24 } else { (midi as i16 - 60) as i8 },
            None => 0,
        },
        JsonValue::Other => 0,
    }
}

/// What a JSON breakpoint value means: an unsigned integer is the MIDI note
/// (clamped to 127), a note name is its MIDI note; anything else is 60 (C3).
pub open spec fn breakpoint_value(v: JsonValue) -> u8 {
    match v {
        JsonValue::Number(JsonNumber::PosInt(u)) => if u > 127 { 127 } else { u as u8 },
        JsonValue::Number(_) => 60,
        JsonValue::String(s) => match note_number(s@) {
            Some(m) => m,
            None => 60,
        },
        JsonValue::Other => 60,
    }
}

/// Parse "C3", "A-1", "F#4", or a raw integer into a MIDI note number.
/// DX7 reference: A-1 = MIDI 21, C3 = MIDI 60.
pub fn parse_breakpoint(value: &JsonValue) -> (b: u8)
    requires
        json_value_readable(*value),
    ensures
        b == breakpoint_value(*value),
        b <= 127,
{
    match value {
        JsonValue::Number(JsonNumber::PosInt(u)) => if *u > 127 { 127 } else { *u as u8 },
        JsonValue::Number(_) => 60,
        JsonValue::String(s) => match parse_note_name(s.as_str()) {
            Some(m) => m,
            None => 60,
        },
        JsonValue::Other => 60,
    }
}

/// The waveform an LFO wave name stands for: trimmed, compared without regard
/// to ASCII case; unknown names read as `Triangle`.
pub open spec fn wave_of_name(s: Seq<char>) -> LFOWaveform {
    let t = ascii_lowercase(trimmed(s));
    if t == "triangle"@ || t == "tri"@ {
        LFOWaveform::Triangle
    } else if t == "sawdown"@ || t == "saw down"@ || t == "saw-down"@ || t == "saw_down"@ {
        LFOWaveform::SawDown
    } else if t == "sawup"@ || t == "saw up"@ || t == "saw-up"@ || t == "saw_up"@ {
        LFOWaveform::SawUp
    } else if t == "square"@ || t == "sqr"@ {
        LFOWaveform::Square
    } else if t == "sine"@ || t == "sin"@ {
        LFOWaveform::Sine
    } else if t == "samplehold"@ || t == "sample_hold"@ || t == "sample-hold"@ || t == "s&h"@ || t == "sh"@ {
        LFOWaveform::SampleHold
    } else {
        LFOWaveform::Triangle
    }
}

/// The LFO waveform a patch file names (see `wave_of_name`).
pub fn parse_lfo_wave(s: &str) -> (w: LFOWaveform)
    ensures
        w == wave_of_name(s@),
{
    let raw = chars_of(s);
    let trimmed_chars = trim_chars(&raw);
    let t = lowercase_chars(&trimmed_chars);
    if chars_equal(&t, "triangle") || chars_equal(&t, "tri") {
        LFOWaveform::Triangle
    } else if chars_equal(&t, "sawdown") || chars_equal(&t, "saw down") || chars_equal(&t, "saw-down")
        || chars_equal(&t, "saw_down") {
        LFOWaveform::SawDown
    } else if chars_equal(&t, "sawup") || chars_equal(&t, "saw up") || chars_equal(&t, "saw-up")
        || chars_equal(&t, "saw_up") {
        LFOWaveform::SawUp
    } else if chars_equal(&t, "square") || chars_equal(&t, "sqr") {
        LFOWaveform::Square
    } else if chars_equal(&t, "sine") || chars_equal(&t, "sin") {
        LFOWaveform::Sine
    } else if chars_equal(&t, "samplehold") || chars_equal(&t, "sample_hold")
        || chars_equal(&t, "sample-hold") || chars_equal(&t, "s&h") || chars_equal(&t, "sh") {
        LFOWaveform::SampleHold
    } else {
        LFOWaveform::Triangle
    }
}

} // verus!
