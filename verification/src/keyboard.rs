//! The computer-keyboard piano: two rows of keys play two octaves from the
//! selected octave, and the arrow keys move that octave within 0..7.
use vstd::prelude::*;

verus! {

/// Highest octave the computer keyboard can be moved to.
pub const MAX_OCTAVE: i32 = 7;

/// The MIDI note of the key `semitone` steps (0..23) above the C of `octave`:
/// octave 0 starts at MIDI note 12.
pub fn keyboard_note(octave: i32, semitone: i32) -> (note: u8)
    requires
        0 <= octave <= MAX_OCTAVE,
        0 <= semitone <= 23,
    ensures
        note == octave * 12 + 12 + semitone,
        12 <= note <= 119,
{
    (octave * 12 + 12 + semitone) as u8
}

/// One octave up, at most 7.
pub fn octave_up(octave: i32) -> (o: i32)
    requires
        0 <= octave <= MAX_OCTAVE,
    ensures
        o == if octave + 1 > MAX_OCTAVE { MAX_OCTAVE as int } else { octave + 1 },
        0 <= o <= MAX_OCTAVE,
{
    if octave + 1 > MAX_OCTAVE {
        MAX_OCTAVE
    } else {
        octave + 1
    }
}

/// One octave down, at least 0.
pub fn octave_down(octave: i32) -> (o: i32)
    requires
        0 <= octave <= MAX_OCTAVE,
    ensures
        o == if octave - 1 < 0 { 0 } else { octave - 1 },
        0 <= o <= MAX_OCTAVE,
{
    if octave - 1 < 0 {
        0
    } else {
        octave - 1
    }
}

} // verus!
