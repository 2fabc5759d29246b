use vstd::prelude::*;

verus! {

/// DX7 voice mode: poly, mono with full portamento, or mono with legato
/// portamento (only when previous note still held).
#[derive(Debug, Clone, Copy, PartialEq, Eq, Structural)]
pub enum VoiceMode {
    Poly,
    Mono,
    MonoLegato,
}

impl Default for VoiceMode {
    fn default() -> (m: VoiceMode)
        ensures
            m == VoiceMode::Poly,
    {
        VoiceMode::Poly
    }
}

/// The voice mode a mode code stands for: 1 = Mono, 2 = Mono Legato, anything else Poly.
pub open spec fn mode_of_code(code: u8) -> VoiceMode {
    if code == 1 {
        VoiceMode::Mono
    } else if code == 2 {
        VoiceMode::MonoLegato
    } else {
        VoiceMode::Poly
    }
}

/// The code of a voice mode: 0 = Poly, 1 = Mono, 2 = Mono Legato.
pub open spec fn code_of_mode(mode: VoiceMode) -> u8 {
    match mode {
        VoiceMode::Poly => 0,
        VoiceMode::Mono => 1,
        VoiceMode::MonoLegato => 2,
    }
}

impl VoiceMode {
    /// The voice mode of a mode code (0 = Poly, 1 = Mono, 2 = Mono Legato; others Poly).
    pub fn from_code(code: u8) -> (m: VoiceMode)
        ensures
            m == mode_of_code(code),
    {
        match code {
            1 => VoiceMode::Mono,
            2 => VoiceMode::MonoLegato,
            _ => VoiceMode::Poly,
        }
    }

    /// The mode code of a voice mode.
    pub fn code(self) -> (c: u8)
        ensures
            c == code_of_mode(self),
    {
        match self {
            VoiceMode::Poly => 0,
            VoiceMode::Mono => 1,
            VoiceMode::MonoLegato => 2,
        }
    }
}

/// Sending a mode as its code and decoding the code gives the mode back.
pub proof fn lemma_mode_code_roundtrip(mode: VoiceMode)
    ensures
        mode_of_code(code_of_mode(mode)) == mode,
{
}

} // verus!
