use vstd::prelude::*;

use crate::text::{ascii_lowercase, chars_equal, chars_of, lowercase_chars, trim_chars, trimmed};

verus! {

/// DX7 keyboard level scaling curve type. Applied independently to the
/// left and right of the breakpoint note.
///
/// - `NegLin` / `PosLin`: linear ramp downward / upward from the breakpoint.
/// - `NegExp` / `PosExp`: exponential ramp (faster taper near the edges).
#[derive(Debug, Clone, Copy, PartialEq, Eq, Structural)]
pub enum KeyScaleCurve {
    NegLin,
    NegExp,
    PosExp,
    PosLin,
}

/// The curve that a DX7 SysEx code (0..3) stands for; codes above 3 read as `PosLin`.
pub open spec fn curve_of_code(code: u8) -> KeyScaleCurve {
    if code == 0 {
        KeyScaleCurve::NegLin
    } else if code == 1 {
        KeyScaleCurve::NegExp
    } else if code == 2 {
        KeyScaleCurve::PosExp
    } else {
        KeyScaleCurve::PosLin
    }
}

/// The DX7 SysEx code (0..3) of a curve.
pub open spec fn code_of_curve(curve: KeyScaleCurve) -> u8 {
    match curve {
        KeyScaleCurve::NegLin => 0,
        KeyScaleCurve::NegExp => 1,
        KeyScaleCurve::PosExp => 2,
        KeyScaleCurve::PosLin => 3,
    }
}

/// The curve that a textual curve name stands for: the name is trimmed and
/// compared without regard to ASCII case; unknown names read as `PosLin`.
pub open spec fn curve_of_name(s: Seq<char>) -> KeyScaleCurve {
    let t = ascii_lowercase(trimmed(s));
    if t == "-lin"@ || t == "neglin"@ || t == "lindown"@ {
        KeyScaleCurve::NegLin
    } else if t == "-exp"@ || t == "negexp"@ || t == "expdown"@ {
        KeyScaleCurve::NegExp
    } else if t == "+exp"@ || t == "posexp"@ || t == "expup"@ {
        KeyScaleCurve::PosExp
    } else {
        KeyScaleCurve::PosLin
    }
}

impl Default for KeyScaleCurve {
    fn default() -> (c: KeyScaleCurve)
        ensures
            c == KeyScaleCurve::NegLin,
    {
        KeyScaleCurve::NegLin
    }
}

impl KeyScaleCurve {
    /// Parse a curve name such as `"-lin"`, `"ExpUp"` or `"negexp"`.
    pub fn from_str(s: &str) -> (c: KeyScaleCurve)
        ensures
            c == curve_of_name(s@),
    {
        let raw = chars_of(s);
        let trimmed_chars = trim_chars(&raw);
        let t = lowercase_chars(&trimmed_chars);
        if chars_equal(&t, "-lin") || chars_equal(&t, "neglin") || chars_equal(&t, "lindown") {
            KeyScaleCurve::NegLin
        } else if chars_equal(&t, "-exp") || chars_equal(&t, "negexp") || chars_equal(&t, "expdown") {
            KeyScaleCurve::NegExp
        } else if chars_equal(&t, "+exp") || chars_equal(&t, "posexp") || chars_equal(&t, "expup") {
            KeyScaleCurve::PosExp
        } else {
            KeyScaleCurve::PosLin
        }
    }

    pub fn from_dx7_code(code: u8) -> (c: KeyScaleCurve)
        ensures
            c == curve_of_code(code),
    {
        match code {
            0 => KeyScaleCurve::NegLin,
            1 => KeyScaleCurve::NegExp,
            2 => KeyScaleCurve::PosExp,
            _ => KeyScaleCurve::PosLin,
        }
    }

    /// Inverse of `from_dx7_code`: returns the DX7 SysEx encoding (0..3).
    pub fn to_dx7_code(self) -> (code: u8)
        ensures
            code == code_of_curve(self),
            code <= 3,
    {
        match self {
            KeyScaleCurve::NegLin => 0,
            KeyScaleCurve::NegExp => 1,
            KeyScaleCurve::PosExp => 2,
            KeyScaleCurve::PosLin => 3,
        }
    }
}

/// Decoding a code in 0..3 and encoding the curve again gives the code back.
pub proof fn lemma_curve_code_roundtrip(code: u8)
    requires
        code <= 3,
    ensures
        code_of_curve(curve_of_code(code)) == code,
{
}

/// Encoding a curve and decoding the code gives the same curve back.
pub proof fn lemma_code_curve_roundtrip(curve: KeyScaleCurve)
    ensures
        curve_of_code(code_of_curve(curve)) == curve,
{
}

} // verus!
