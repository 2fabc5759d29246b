//! DX7 SysEx parser and emitter.
//!
//! Implements the two formats actually used by DX7 hardware:
//!
//! - **Single voice (VCED)** — 163 bytes total. The voice data block is 155 bytes
//!   in the unpacked Voice Edit format. Used by "voice send/receive single".
//! - **32-voice bulk (VMEM)** — 4104 bytes total. The voice data block is
//!   4096 bytes (32 voices × 128 bytes packed). Used by "voice memory dump".
//!
//! Voices are held as the integer parameter values the DX7 itself stores.

use vstd::prelude::*;

use crate::lfo::LFOWaveform;
use crate::operator::{code_of_curve, curve_of_code, lemma_code_curve_roundtrip, KeyScaleCurve};
use crate::text::{push_char, trim_end};
use vstd::utf8::encode_utf8;

verus! {

/// Yamaha manufacturer SysEx ID.
pub const YAMAHA_ID: u8 = 0x43;

/// Length of one unpacked voice block (VCED).
pub const VCED_LEN: usize = 155;

/// Length of one packed voice (in VMEM).
pub const VMEM_VOICE_LEN: usize = 128;

/// Length of the full 32-voice bulk payload.
pub const VMEM_LEN: usize = 4096;

// ---------------------------------------------------------------------------
// Checksum
// ---------------------------------------------------------------------------

/// Sum of all bytes.
pub open spec fn byte_sum(s: Seq<u8>) -> nat
    decreases s.len(),
{
    if s.len() == 0 {
        0
    } else {
        byte_sum(s.drop_last()) + s.last() as nat
    }
}

/// Two's complement of the byte sum, masked to 7 bits.
pub open spec fn checksum_of(s: Seq<u8>) -> u8 {
    ((128 - byte_sum(s) % 128) % 128) as u8
}

/// Two's-complement of the running 7-bit sum, masked to 7 bits.
pub fn compute_checksum(data: &[u8]) -> (c: u8)
    ensures
        c == checksum_of(data@),
        c < 128,
{
    let mut acc: u32 = 0;
    let mut i: usize = 0;
    while i < data.len()
        invariant
            i <= data.len(),
            acc < 128,
            acc == byte_sum(data@.take(i as int)) % 128,
        decreases data.len() - i,
    {
        proof {
            assert(data@.take(i + 1).drop_last() =~= data@.take(i as int));
        }
        acc = (acc + data[i] as u32) % 128;
        i = i + 1;
    }
    assert(data@.take(data.len() as int) =~= data@);
    ((128 - acc) % 128) as u8
}

/// A block followed by its checksum sums to a multiple of 128.
pub proof fn lemma_checksum_completes_sum(s: Seq<u8>)
    ensures
        (byte_sum(s) + checksum_of(s) as nat) % 128 == 0,
{
}

// ---------------------------------------------------------------------------
// LFO wave codes and voice names
// ---------------------------------------------------------------------------

/// The waveform a DX7 LFO wave code stands for (only the low three bits count).
pub open spec fn wave_of_code(code: u8) -> LFOWaveform {
    let c = code & 0x07;
    if c == 0 {
        LFOWaveform::Triangle
    } else if c == 1 {
        LFOWaveform::SawDown
    } else if c == 2 {
        LFOWaveform::SawUp
    } else if c == 3 {
        LFOWaveform::Square
    } else if c == 4 {
        LFOWaveform::Sine
    } else {
        LFOWaveform::SampleHold
    }
}

/// The DX7 LFO wave code of a waveform.
pub open spec fn code_of_wave(wave: LFOWaveform) -> u8 {
    match wave {
        LFOWaveform::Triangle => 0,
        LFOWaveform::SawDown => 1,
        LFOWaveform::SawUp => 2,
        LFOWaveform::Square => 3,
        LFOWaveform::Sine => 4,
        LFOWaveform::SampleHold => 5,
    }
}

/// The LFO waveform of a DX7 wave code (low three bits; 5..7 are sample & hold).
pub fn lfo_wave_from_dx7(code: u8) -> (w: LFOWaveform)
    ensures
        w == wave_of_code(code),
{
    match code & 0x07 {
        0 => LFOWaveform::Triangle,
        1 => LFOWaveform::SawDown,
        2 => LFOWaveform::SawUp,
        3 => LFOWaveform::Square,
        4 => LFOWaveform::Sine,
        _ => LFOWaveform::SampleHold,
    }
}

/// The DX7 wave code of an LFO waveform.
pub fn lfo_wave_to_dx7(wave: LFOWaveform) -> (code: u8)
    ensures
        code == code_of_wave(wave),
        code <= 5,
{
    match wave {
        LFOWaveform::Triangle => 0,
        LFOWaveform::SawDown => 1,
        LFOWaveform::SawUp => 2,
        LFOWaveform::Square => 3,
        LFOWaveform::Sine => 4,
        LFOWaveform::SampleHold => 5,
    }
}

/// Encoding a waveform as its DX7 code and decoding it gives the waveform back.
pub proof fn lemma_wave_code_roundtrip(wave: LFOWaveform)
    ensures
        wave_of_code(code_of_wave(wave)) == wave,
{
    let c = code_of_wave(wave);
    assert(c & 0x07 == c) by (bit_vector)
        requires
            c <= 5,
    ;
}

/// The 7-bit ASCII character a name byte stands for.
pub open spec fn name_char(b: u8) -> char {
    (b & 0x7F) as char
}

/// A voice name as stored in SysEx: every byte read as 7-bit ASCII, trailing
/// whitespace removed.
pub open spec fn voice_name_of(raw: Seq<u8>) -> Seq<char> {
    trim_end(raw.map_values(|b: u8| name_char(b)))
}


/// A voice name from its stored bytes (see `voice_name_of`).
pub fn parse_voice_name(raw: &[u8]) -> (name: String)
    ensures
        name@ == voice_name_of(raw@),
{
    let ghost chars = raw@.map_values(|b: u8| name_char(b));
    // Find where the trailing whitespace starts.
    let mut end: usize = raw.len();
    while end > 0 && crate::text::char_is_whitespace(((raw[end - 1] & 0x7F) as char))
        invariant
            end <= raw.len(),
            chars == raw@.map_values(|b: u8| name_char(b)),
            forall|i: int| end <= i < raw.len() ==> crate::text::is_whitespace(#[trigger] chars[i]),
        decreases end,
    {
        end = end - 1;
    }
    let mut s = String::new();
    let mut i: usize = 0;
    while i < end
        invariant
            i <= end <= raw.len(),
            chars == raw@.map_values(|b: u8| name_char(b)),
            s@ == chars.take(i as int),
        decreases end - i,
    {
        push_char(&mut s, (raw[i] & 0x7F) as char);
        i = i + 1;
        assert(s@ =~= chars.take(i as int));
    }
    proof {
        crate::text::lemma_trim_end_take(chars, end as int);
    }
    s
}


// ---------------------------------------------------------------------------
// Voice data
// ---------------------------------------------------------------------------

/// Per-operator parameters of a DX7 voice, as the DX7 stores them.
#[derive(Debug, Clone, Copy, PartialEq, Eq, Structural)]
pub struct Dx7Operator {
    /// Envelope rates 1..4 and levels 1..4.
    pub rate1: u8,
    pub rate2: u8,
    pub rate3: u8,
    pub rate4: u8,
    pub level1: u8,
    pub level2: u8,
    pub level3: u8,
    pub level4: u8,
    /// Breakpoint as a MIDI note number.
    pub key_scale_breakpoint: u8,
    pub key_scale_left_depth: u8,
    pub key_scale_right_depth: u8,
    pub key_scale_left_curve: KeyScaleCurve,
    pub key_scale_right_curve: KeyScaleCurve,
    pub key_scale_rate: u8,
    pub am_sensitivity: u8,
    pub velocity_sensitivity: u8,
    pub output_level: u8,
    /// Oscillator mode: false = ratio, true = fixed frequency.
    pub fixed_frequency: bool,
    /// Coarse frequency: the ratio multiplier (0 = 0.5x), or in fixed mode the
    /// power of ten of the frequency in Hz.
    pub frequency_coarse: u8,
    /// Fine frequency in percent on top of the coarse value.
    pub frequency_fine: u8,
    /// Detune, centred on 0 (the DX7 stores it offset by 7).
    pub detune: i16,
    pub feedback: u8,
    pub oscillator_key_sync: bool,
}

impl Default for Dx7Operator {
    fn default() -> (op: Dx7Operator)
        ensures
            op == default_operator(),
    {
        Dx7Operator {
            rate1: 99,
            rate2: 50,
            rate3: 50,
            rate4: 50,
            level1: 99,
            level2: 75,
            level3: 50,
            level4: 0,
            key_scale_breakpoint: 60,
            key_scale_left_depth: 0,
            key_scale_right_depth: 0,
            key_scale_left_curve: KeyScaleCurve::NegLin,
            key_scale_right_curve: KeyScaleCurve::NegLin,
            key_scale_rate: 0,
            am_sensitivity: 0,
            velocity_sensitivity: 0,
            output_level: 99,
            fixed_frequency: false,
            frequency_coarse: 1,
            frequency_fine: 0,
            detune: 0,
            feedback: 0,
            oscillator_key_sync: true,
        }
    }
}

/// The operator `Dx7Operator::default` gives: ratio 1, full level, no scaling.
pub open spec fn default_operator() -> Dx7Operator {
    Dx7Operator {
        rate1: 99,
        rate2: 50,
        rate3: 50,
        rate4: 50,
        level1: 99,
        level2: 75,
        level3: 50,
        level4: 0,
        key_scale_breakpoint: 60,
        key_scale_left_depth: 0,
        key_scale_right_depth: 0,
        key_scale_left_curve: KeyScaleCurve::NegLin,
        key_scale_right_curve: KeyScaleCurve::NegLin,
        key_scale_rate: 0,
        am_sensitivity: 0,
        velocity_sensitivity: 0,
        output_level: 99,
        fixed_frequency: false,
        frequency_coarse: 1,
        frequency_fine: 0,
        detune: 0,
        feedback: 0,
        oscillator_key_sync: true,
    }
}

/// Pitch envelope settings of a voice.
#[derive(Debug, Clone, Copy, PartialEq, Eq, Structural)]
pub struct Dx7PitchEg {
    pub rate1: u8,
    pub rate2: u8,
    pub rate3: u8,
    pub rate4: u8,
    pub level1: u8,
    pub level2: u8,
    pub level3: u8,
    pub level4: u8,
}

/// The neutral pitch envelope: all rates 99, all levels 50 (no offset).
pub open spec fn default_pitch_eg() -> Dx7PitchEg {
    Dx7PitchEg {
        rate1: 99,
        rate2: 99,
        rate3: 99,
        rate4: 99,
        level1: 50,
        level2: 50,
        level3: 50,
        level4: 50,
    }
}

impl Default for Dx7PitchEg {
    fn default() -> (p: Dx7PitchEg)
        ensures
            p == default_pitch_eg(),
    {
        Dx7PitchEg {
            rate1: 99,
            rate2: 99,
            rate3: 99,
            rate4: 99,
            level1: 50,
            level2: 50,
            level3: 50,
            level4: 50,
        }
    }
}

/// Whether the pitch envelope would shift the pitch at all (some level is not 50).
pub open spec fn pitch_eg_active(p: Dx7PitchEg) -> bool {
    p.level1 != 50 || p.level2 != 50 || p.level3 != 50 || p.level4 != 50
}

impl Dx7PitchEg {
    /// Returns true when the EG would produce any audible offset (any level != 50).
    pub fn is_active(&self) -> (b: bool)
        ensures
            b == pitch_eg_active(*self),
    {
        self.level1 != 50 || self.level2 != 50 || self.level3 != 50 || self.level4 != 50
    }
}

/// LFO settings of a voice.
#[derive(Debug, Clone, Copy, PartialEq, Eq, Structural)]
pub struct Dx7Lfo {
    pub waveform: LFOWaveform,
    pub rate: u8,
    pub delay: u8,
    pub pitch_mod_depth: u8,
    pub amp_mod_depth: u8,
    pub key_sync: bool,
}

/// The LFO of an initial voice: triangle at rate 35, no delay and no depth.
pub open spec fn default_lfo() -> Dx7Lfo {
    Dx7Lfo {
        waveform: LFOWaveform::Triangle,
        rate: 35,
        delay: 0,
        pitch_mod_depth: 0,
        amp_mod_depth: 0,
        key_sync: false,
    }
}

impl Default for Dx7Lfo {
    fn default() -> (l: Dx7Lfo)
        ensures
            l == default_lfo(),
    {
        Dx7Lfo {
            waveform: LFOWaveform::Triangle,
            rate: 35,
            delay: 0,
            pitch_mod_depth: 0,
            amp_mod_depth: 0,
            key_sync: false,
        }
    }
}

/// A DX7 voice with the parameter values the DX7 stores.
#[derive(Debug, Clone)]
pub struct Dx7Voice {
    pub name: String,
    pub collection: String,
    pub algorithm: u8,
    /// OP1..OP6.
    pub operators: [Dx7Operator; 6],
    /// Transpose in semitones from the DX7 reference (0 = C3 / no shift).
    pub transpose_semitones: i8,
    pub pitch_mod_sensitivity: u8,
    pub pitch_eg: Option<Dx7PitchEg>,
    pub lfo: Option<Dx7Lfo>,
}

/// What a `Dx7Voice` holds, with the strings as character sequences.
pub struct Dx7VoiceView {
    pub name: Seq<char>,
    pub collection: Seq<char>,
    pub algorithm: u8,
    pub operators: Seq<Dx7Operator>,
    pub transpose_semitones: i8,
    pub pitch_mod_sensitivity: u8,
    pub pitch_eg: Option<Dx7PitchEg>,
    pub lfo: Option<Dx7Lfo>,
}

impl View for Dx7Voice {
    type V = Dx7VoiceView;

    open spec fn view(&self) -> Dx7VoiceView {
        Dx7VoiceView {
            name: self.name@,
            collection: self.collection@,
            algorithm: self.algorithm,
            operators: self.operators@,
            transpose_semitones: self.transpose_semitones,
            pitch_mod_sensitivity: self.pitch_mod_sensitivity,
            pitch_eg: self.pitch_eg,
            lfo: self.lfo,
        }
    }
}

// ---------------------------------------------------------------------------
// Parsing
// ---------------------------------------------------------------------------

/// The smaller of a byte and 99.
pub open spec fn min99(b: u8) -> u8 {
    if b > 99 { 99 } else { b }
}

/// The MIDI note of a stored breakpoint (the DX7 stores the note minus 21).
pub open spec fn breakpoint_note(stored: u8) -> u8 {
    if stored + 21 > 127 { 127 } else { (stored + 21) as u8 }
}

/// The operator stored unpacked (VCED, 21 bytes) at `base` in `d`.
#[verifier::opaque]
pub open spec fn vced_operator(d: Seq<u8>, base: int) -> Dx7Operator {
    Dx7Operator {
        rate1: d[base],
        rate2: d[base + 1],
        rate3: d[base + 2],
        rate4: d[base + 3],
        level1: d[base + 4],
        level2: d[base + 5],
        level3: d[base + 6],
        level4: d[base + 7],
        key_scale_breakpoint: breakpoint_note(d[base + 8]),
        key_scale_left_depth: min99(d[base + 9]),
        key_scale_right_depth: min99(d[base + 10]),
        key_scale_left_curve: curve_of_code(d[base + 11]),
        key_scale_right_curve: curve_of_code(d[base + 12]),
        key_scale_rate: d[base + 13] & 0x07,
        am_sensitivity: d[base + 14] & 0x03,
        velocity_sensitivity: d[base + 15] & 0x07,
        output_level: d[base + 16],
        fixed_frequency: d[base + 17] == 1,
        frequency_coarse: d[base + 18],
        frequency_fine: d[base + 19],
        detune: (d[base + 20] as i16 - 7) as i16,
        feedback: 0,
        oscillator_key_sync: true,
    }
}

/// The operator stored packed (VMEM, 17 bytes) at `base` in `d`.
pub open spec fn vmem_operator(d: Seq<u8>, base: int) -> Dx7Operator {
    Dx7Operator {
        rate1: d[base],
        rate2: d[base + 1],
        rate3: d[base + 2],
        rate4: d[base + 3],
        level1: d[base + 4],
        level2: d[base + 5],
        level3: d[base + 6],
        level4: d[base + 7],
        key_scale_breakpoint: breakpoint_note(d[base + 8]),
        key_scale_left_depth: min99(d[base + 9]),
        key_scale_right_depth: min99(d[base + 10]),
        key_scale_left_curve: curve_of_code(d[base + 11] & 0x03),
        key_scale_right_curve: curve_of_code((d[base + 11] >> 2) & 0x03),
        key_scale_rate: d[base + 12] & 0x07,
        am_sensitivity: (d[base + 12] >> 3) & 0x03,
        velocity_sensitivity: d[base + 13] & 0x07,
        output_level: d[base + 14],
        fixed_frequency: d[base + 15] & 0x01 == 1,
        frequency_coarse: (d[base + 15] >> 1) & 0x1F,
        frequency_fine: d[base + 16],
        detune: (((d[base + 12] >> 5) & 0x0F) as i16 - 7) as i16,
        feedback: 0,
        oscillator_key_sync: true,
    }
}

/// The 17-byte packed (VMEM) form of a 21-byte unpacked (VCED) operator
/// block, as the DX7 packs it: byte 11 holds the left curve in bits 0-1 and
/// the right curve in bits 2-3; byte 12 the rate scaling in bits 0-2, the
/// amplitude sensitivity in bits 3-4 and the detune from bit 5; byte 15 the
/// oscillator mode in bit 0 and the coarse frequency from bit 1.
pub open spec fn packed_operator_block(b: Seq<u8>) -> Seq<u8> {
    seq![
        b[0], b[1], b[2], b[3], b[4], b[5], b[6], b[7], b[8], b[9], b[10],
        b[11] | (b[12] << 2),
        b[13] | (b[14] << 3) | (b[20] << 5),
        b[15],
        b[16],
        b[17] | (b[18] << 1),
        b[19],
    ]
}

/// The packed and unpacked decoders agree: an operator block packed into
/// the bulk-dump layout reads back as the same operator as its unpacked
/// single-voice form, for every block whose fields fit the packed bit
/// widths (curves and amplitude sensitivity 0..3, rate scaling and detune
/// 0..7, oscillator mode 0..1, coarse 0..31).
pub proof fn lemma_packed_operator_matches_unpacked(b: Seq<u8>)
    requires
        b.len() == 21,
        b[11] <= 3,
        b[12] <= 3,
        b[13] <= 7,
        b[14] <= 3,
        b[17] <= 1,
        b[18] <= 31,
        b[20] <= 7,
    ensures
        vmem_operator(packed_operator_block(b), 0) == vced_operator(b, 0),
{
    reveal(vced_operator);
    let p = packed_operator_block(b);
    let (lc, rc, rs, ams, det, osc, coarse) = (b[11], b[12], b[13], b[14], b[20], b[17], b[18]);
    assert((lc | (rc << 2)) & 0x03 == lc && ((lc | (rc << 2)) >> 2) & 0x03 == rc) by (bit_vector)
        requires
            lc <= 3,
            rc <= 3,
    ;
    assert((rs | (ams << 3) | (det << 5)) & 0x07 == rs && ((rs | (ams << 3) | (det << 5)) >> 3) & 0x03
        == ams && ((rs | (ams << 3) | (det << 5)) >> 5) & 0x0F == det) by (bit_vector)
        requires
            rs <= 7,
            ams <= 3,
            det <= 7,
    ;
    assert(rs & 0x07 == rs && ams & 0x03 == ams) by (bit_vector)
        requires
            rs <= 7,
            ams <= 3,
    ;
    assert((osc | (coarse << 1)) & 0x01 == osc && ((osc | (coarse << 1)) >> 1) & 0x1F == coarse)
        by (bit_vector)
        requires
            osc <= 1,
            coarse <= 31,
    ;
    assert(p[11] == lc | (rc << 2));
    assert(p[12] == rs | (ams << 3) | (det << 5));
    assert(p[15] == osc | (coarse << 1));
}

/// An operator with the patch-level feedback and oscillator key sync applied.
pub open spec fn with_patch_flags(op: Dx7Operator, feedback: u8, key_sync: bool) -> Dx7Operator {
    Dx7Operator { feedback, oscillator_key_sync: key_sync, ..op }
}

/// The six operators OP1..OP6 of a voice stored with operator blocks of
/// `stride` bytes in the order OP6..OP1; feedback lives on OP6.
pub open spec fn patch_operators(ops_rev: Seq<Dx7Operator>, feedback: u8, key_sync: bool) -> Seq<Dx7Operator> {
    seq![
        with_patch_flags(ops_rev[5], 0, key_sync),
        with_patch_flags(ops_rev[4], 0, key_sync),
        with_patch_flags(ops_rev[3], 0, key_sync),
        with_patch_flags(ops_rev[2], 0, key_sync),
        with_patch_flags(ops_rev[1], 0, key_sync),
        with_patch_flags(ops_rev[0], feedback, key_sync),
    ]
}

/// A transpose byte (0..48, 24 = no shift) as semitones, clamped to -24..24.
pub open spec fn transpose_of(b: u8) -> i8 {
    if b > 48 { 24 } else { (b - 24) as i8 }
}

/// The voice stored in a 155-byte VCED block.
pub open spec fn vced_voice(d: Seq<u8>) -> Dx7VoiceView {
    Dx7VoiceView {
        name: voice_name_of(d.subrange(145, 155)),
        collection: "SysEx"@,
        algorithm: ((d[134] & 0x1F) + 1) as u8,
        operators: patch_operators(
            seq![
                vced_operator(d, 0),
                vced_operator(d, 21),
                vced_operator(d, 42),
                vced_operator(d, 63),
                vced_operator(d, 84),
                vced_operator(d, 105),
            ],
            d[135] & 0x07,
            d[136] != 0,
        ),
        transpose_semitones: transpose_of(d[144]),
        pitch_mod_sensitivity: d[143] & 0x07,
        pitch_eg: Some(Dx7PitchEg {
            rate1: d[126],
            rate2: d[127],
            rate3: d[128],
            rate4: d[129],
            level1: d[130],
            level2: d[131],
            level3: d[132],
            level4: d[133],
        }),
        lfo: Some(Dx7Lfo {
            waveform: wave_of_code(d[142]),
            rate: d[137],
            delay: d[138],
            pitch_mod_depth: d[139],
            amp_mod_depth: d[140],
            key_sync: d[141] != 0,
        }),
    }
}

fn parse_vced_operator(d: &[u8], base: usize) -> (op: Dx7Operator)
    requires
        base + 21 <= d.len(),
    ensures
        op == vced_operator(d@, base as int),
{
    reveal(vced_operator);
    let bp = d[base + 8];
    let breakpoint = if bp > 106 { 127 } else { bp + 21 };
    let ld = d[base + 9];
    let rd = d[base + 10];
    Dx7Operator {
        rate1: d[base],
        rate2: d[base + 1],
        rate3: d[base + 2],
        rate4: d[base + 3],
        level1: d[base + 4],
        level2: d[base + 5],
        level3: d[base + 6],
        level4: d[base + 7],
        key_scale_breakpoint: breakpoint,
        key_scale_left_depth: if ld > 99 { 99 } else { ld },
        key_scale_right_depth: if rd > 99 { 99 } else { rd },
        key_scale_left_curve: KeyScaleCurve::from_dx7_code(d[base + 11]),
        key_scale_right_curve: KeyScaleCurve::from_dx7_code(d[base + 12]),
        key_scale_rate: d[base + 13] & 0x07,
        am_sensitivity: d[base + 14] & 0x03,
        velocity_sensitivity: d[base + 15] & 0x07,
        output_level: d[base + 16],
        fixed_frequency: d[base + 17] == 1,
        frequency_coarse: d[base + 18],
        frequency_fine: d[base + 19],
        detune: (d[base + 20] as i16 - 7) as i16,
        feedback: 0,
        oscillator_key_sync: true,
    }
}

fn parse_vmem_operator(d: &[u8], base: usize) -> (op: Dx7Operator)
    requires
        base + 17 <= d.len(),
    ensures
        op == vmem_operator(d@, base as int),
{
    let bp = d[base + 8];
    let breakpoint = if bp > 106 { 127 } else { bp + 21 };
    let ld = d[base + 9];
    let rd = d[base + 10];
    let b11 = d[base + 11];
    let b12 = d[base + 12];
    let b15 = d[base + 15];
    Dx7Operator {
        rate1: d[base],
        rate2: d[base + 1],
        rate3: d[base + 2],
        rate4: d[base + 3],
        level1: d[base + 4],
        level2: d[base + 5],
        level3: d[base + 6],
        level4: d[base + 7],
        key_scale_breakpoint: breakpoint,
        key_scale_left_depth: if ld > 99 { 99 } else { ld },
        key_scale_right_depth: if rd > 99 { 99 } else { rd },
        key_scale_left_curve: KeyScaleCurve::from_dx7_code(b11 & 0x03),
        key_scale_right_curve: KeyScaleCurve::from_dx7_code((b11 >> 2) & 0x03),
        key_scale_rate: b12 & 0x07,
        am_sensitivity: (b12 >> 3) & 0x03,
        velocity_sensitivity: d[base + 13] & 0x07,
        output_level: d[base + 14],
        fixed_frequency: b15 & 0x01 == 1,
        frequency_coarse: (b15 >> 1) & 0x1F,
        frequency_fine: d[base + 16],
        detune: ((b12 >> 5) & 0x0F) as i16 - 7,
        feedback: 0,
        oscillator_key_sync: true,
    }
}

fn apply_patch_flags(op: Dx7Operator, feedback: u8, key_sync: bool) -> (r: Dx7Operator)
    ensures
        r == with_patch_flags(op, feedback, key_sync),
{
    Dx7Operator { feedback, oscillator_key_sync: key_sync, ..op }
}

/// The algorithm number (1..32) stored in the low five bits of `b` (as 0..31).
fn algorithm_from(b: u8) -> (a: u8)
    ensures
        a == ((b & 0x1F) + 1) as u8,
        1 <= a <= 32,
{
    let low = b & 0x1F;
    assert(low <= 31) by (bit_vector)
        requires
            low == b & 0x1F,
    ;
    low + 1
}

fn transpose_from(b: u8) -> (t: i8)
    ensures
        t == transpose_of(b),
{
    if b > 48 { 24 } else { (b as i16 - 24) as i8 }
}

/// The collection name of voice `i` (0..31) in a bulk dump: "Bulk #01".."Bulk #32".
pub open spec fn bulk_collection(i: int) -> Seq<char> {
    "Bulk #"@ + seq![(48 + (i + 1) / 10) as char, (48 + (i + 1) % 10) as char]
}

/// The voice stored packed (VMEM, 128 bytes) at `base` in `d`.
pub open spec fn vmem_voice(d: Seq<u8>, base: int, collection: Seq<char>) -> Dx7VoiceView {
    Dx7VoiceView {
        name: voice_name_of(d.subrange(base + 118, base + 128)),
        collection,
        algorithm: ((d[base + 110] & 0x1F) + 1) as u8,
        operators: patch_operators(
            seq![
                vmem_operator(d, base),
                vmem_operator(d, base + 17),
                vmem_operator(d, base + 34),
                vmem_operator(d, base + 51),
                vmem_operator(d, base + 68),
                vmem_operator(d, base + 85),
            ],
            d[base + 111] & 0x07,
            (d[base + 111] & 0x08) != 0,
        ),
        transpose_semitones: transpose_of(d[base + 117]),
        pitch_mod_sensitivity: (d[base + 116] >> 4) & 0x07,
        pitch_eg: Some(Dx7PitchEg {
            rate1: d[base + 102],
            rate2: d[base + 103],
            rate3: d[base + 104],
            rate4: d[base + 105],
            level1: d[base + 106],
            level2: d[base + 107],
            level3: d[base + 108],
            level4: d[base + 109],
        }),
        lfo: Some(Dx7Lfo {
            waveform: wave_of_code((d[base + 116] >> 1) & 0x07),
            rate: d[base + 112],
            delay: d[base + 113],
            pitch_mod_depth: d[base + 114],
            amp_mod_depth: d[base + 115],
            key_sync: (d[base + 116] & 0x01) != 0,
        }),
    }
}

/// The 32 voices of a 4096-byte VMEM block.
pub open spec fn vmem_bank(d: Seq<u8>) -> Seq<Dx7VoiceView> {
    Seq::new(32, |i: int| vmem_voice(d, 128 * i, bulk_collection(i)))
}

/// The string `lit` as an owned `String`.
fn owned(lit: &str) -> (s: String)
    ensures
        s@ == lit@,
{
    String::from_str(lit)
}

/// Parse a 155-byte VCED block into a voice.
fn parse_vced(data: &[u8]) -> (v: Dx7Voice)
    requires
        data@.len() == VCED_LEN,
    ensures
        v@ == vced_voice(data@),
{
    let feedback = data[135] & 0x07;
    let key_sync = data[136] != 0;
    let op6 = parse_vced_operator(data, 0);
    let op5 = parse_vced_operator(data, 21);
    let op4 = parse_vced_operator(data, 42);
    let op3 = parse_vced_operator(data, 63);
    let op2 = parse_vced_operator(data, 84);
    let op1 = parse_vced_operator(data, 105);
    let operators = [
        apply_patch_flags(op1, 0, key_sync),
        apply_patch_flags(op2, 0, key_sync),
        apply_patch_flags(op3, 0, key_sync),
        apply_patch_flags(op4, 0, key_sync),
        apply_patch_flags(op5, 0, key_sync),
        apply_patch_flags(op6, feedback, key_sync),
    ];
    let pitch_eg = Dx7PitchEg {
        rate1: data[126],
        rate2: data[127],
        rate3: data[128],
        rate4: data[129],
        level1: data[130],
        level2: data[131],
        level3: data[132],
        level4: data[133],
    };
    let lfo = Dx7Lfo {
        waveform: lfo_wave_from_dx7(data[142]),
        rate: data[137],
        delay: data[138],
        pitch_mod_depth: data[139],
        amp_mod_depth: data[140],
        key_sync: data[141] != 0,
    };
    let name = parse_voice_name(&data[145..155]);
    let v = Dx7Voice {
        name,
        collection: owned("SysEx"),
        algorithm: algorithm_from(data[134]),
        operators,
        transpose_semitones: transpose_from(data[144]),
        pitch_mod_sensitivity: data[143] & 0x07,
        pitch_eg: Some(pitch_eg),
        lfo: Some(lfo),
    };
    assert(v@.operators =~= vced_voice(data@).operators);
    v
}

/// The collection name of bulk voice `i`.
fn bulk_collection_name(i: usize) -> (s: String)
    requires
        i < 32,
    ensures
        s@ == bulk_collection(i as int),
{
    let mut s = owned("Bulk #");
    let n: u32 = (i as u32) + 1;
    push_char(&mut s, ((48 + n / 10) as u8) as char);
    push_char(&mut s, ((48 + n % 10) as u8) as char);
    assert(s@ =~= bulk_collection(i as int));
    s
}

/// Parse the packed voice at `base` in a VMEM block.
fn parse_vmem_voice(d: &[u8], base: usize, collection: String) -> (v: Dx7Voice)
    requires
        base + VMEM_VOICE_LEN <= d.len(),
    ensures
        v@ == vmem_voice(d@, base as int, collection@),
{
    let b111 = d[base + 111];
    let b116 = d[base + 116];
    let feedback = b111 & 0x07;
    let key_sync = (b111 & 0x08) != 0;
    let op6 = parse_vmem_operator(d, base);
    let op5 = parse_vmem_operator(d, base + 17);
    let op4 = parse_vmem_operator(d, base + 34);
    let op3 = parse_vmem_operator(d, base + 51);
    let op2 = parse_vmem_operator(d, base + 68);
    let op1 = parse_vmem_operator(d, base + 85);
    let operators = [
        apply_patch_flags(op1, 0, key_sync),
        apply_patch_flags(op2, 0, key_sync),
        apply_patch_flags(op3, 0, key_sync),
        apply_patch_flags(op4, 0, key_sync),
        apply_patch_flags(op5, 0, key_sync),
        apply_patch_flags(op6, feedback, key_sync),
    ];
    let pitch_eg = Dx7PitchEg {
        rate1: d[base + 102],
        rate2: d[base + 103],
        rate3: d[base + 104],
        rate4: d[base + 105],
        level1: d[base + 106],
        level2: d[base + 107],
        level3: d[base + 108],
        level4: d[base + 109],
    };
    let lfo = Dx7Lfo {
        waveform: lfo_wave_from_dx7((b116 >> 1) & 0x07),
        rate: d[base + 112],
        delay: d[base + 113],
        pitch_mod_depth: d[base + 114],
        amp_mod_depth: d[base + 115],
        key_sync: (b116 & 0x01) != 0,
    };
    let name = parse_voice_name(&d[base + 118..base + 128]);
    let v = Dx7Voice {
        name,
        collection,
        algorithm: algorithm_from(d[base + 110]),
        operators,
        transpose_semitones: transpose_from(d[base + 117]),
        pitch_mod_sensitivity: (b116 >> 4) & 0x07,
        pitch_eg: Some(pitch_eg),
        lfo: Some(lfo),
    };
    assert(v@.operators =~= vmem_voice(d@, base as int, collection@).operators);
    v
}

/// Parse the 32 voices of a 4096-byte VMEM block.
fn parse_vmem(data: &[u8]) -> (voices: Vec<Dx7Voice>)
    requires
        data@.len() == VMEM_LEN,
    ensures
        voices@.len() == 32,
        forall|i: int| 0 <= i < 32 ==> (#[trigger] voices@[i])@ == vmem_bank(data@)[i],
{
    let mut out: Vec<Dx7Voice> = Vec::new();
    let mut i: usize = 0;
    while i < 32
        invariant
            i <= 32,
            data@.len() == VMEM_LEN,
            out@.len() == i,
            forall|j: int| 0 <= j < i ==> (#[trigger] out@[j])@ == vmem_bank(data@)[j],
        decreases 32 - i,
    {
        let v = parse_vmem_voice(data, i * VMEM_VOICE_LEN, bulk_collection_name(i));
        out.push(v);
        i = i + 1;
    }
    out
}

/// Errors of SysEx parsing.
#[derive(Debug, Clone, Copy, PartialEq, Eq, Structural)]
pub enum SysexError {
    InvalidFraming,
    TooShort,
    NotYamaha(u8),
    UnsupportedSubStatus(u8),
    UnsupportedFormat(u8),
    TruncatedData,
    LengthMismatch { declared: usize, actual: usize },
    ChecksumMismatch { expected: u8, computed: u8 },
}

/// Result of parsing a SysEx message.
///
/// `SingleVoice` is boxed because a voice is much larger than a `Vec` header.
#[derive(Debug)]
pub enum SysexResult {
    SingleVoice(Box<Dx7Voice>),
    Bulk(Vec<Dx7Voice>),
}

/// What a parsed message holds, with voices by their views.
pub enum ParsedSysex {
    SingleVoice(Dx7VoiceView),
    Bulk(Seq<Dx7VoiceView>),
}

/// The view of a parse result.
pub open spec fn parsed_view(r: Result<SysexResult, SysexError>) -> Result<ParsedSysex, SysexError> {
    match r {
        Ok(SysexResult::SingleVoice(v)) => Ok(ParsedSysex::SingleVoice(v@)),
        Ok(SysexResult::Bulk(vs)) => Ok(ParsedSysex::Bulk(vs@.map_values(|v: Dx7Voice| v@))),
        Err(e) => Err(e),
    }
}

/// The byte count a message header declares (bytes 4 and 5, 7 bits each).
pub open spec fn declared_count(b: Seq<u8>) -> int {
    b[4] * 128 + (b[5] & 0x7F)
}

/// What a complete SysEx message (`F0 ... F7`) holds.
pub open spec fn sysex_parse(b: Seq<u8>) -> Result<ParsedSysex, SysexError> {
    if b.len() < 8 {
        Err(SysexError::TooShort)
    } else if b[0] != 0xF0 || b.last() != 0xF7 {
        Err(SysexError::InvalidFraming)
    } else if b[1] != YAMAHA_ID {
        Err(SysexError::NotYamaha(b[1]))
    } else if b[2] & 0xF0 != 0 {
        Err(SysexError::UnsupportedSubStatus(b[2] & 0xF0))
    } else {
        let count = declared_count(b);
        if b.len() != count + 8 {
            Err(SysexError::LengthMismatch { declared: count as usize, actual: (b.len() - 8) as usize })
        } else {
            let data = b.subrange(6, 6 + count);
            let expected = b[6 + count];
            if checksum_of(data) != expected {
                Err(SysexError::ChecksumMismatch { expected, computed: checksum_of(data) })
            } else if b[3] == 0 {
                if count != VCED_LEN {
                    Err(SysexError::LengthMismatch { declared: count as usize, actual: VCED_LEN })
                } else {
                    Ok(ParsedSysex::SingleVoice(vced_voice(data)))
                }
            } else if b[3] == 9 {
                if count != VMEM_LEN {
                    Err(SysexError::LengthMismatch { declared: count as usize, actual: VMEM_LEN })
                } else {
                    Ok(ParsedSysex::Bulk(vmem_bank(data)))
                }
            } else {
                Err(SysexError::UnsupportedFormat(b[3]))
            }
        }
    }
}

/// Parse a complete DX7 SysEx message (`F0 ... F7`).
///
/// On success returns either a single voice or a 32-voice bank, ready to load.
pub fn parse_message(bytes: &[u8]) -> (r: Result<SysexResult, SysexError>)
    ensures
        parsed_view(r) == sysex_parse(bytes@),
{
    let n = bytes.len();
    if n < 8 {
        return Err(SysexError::TooShort);
    }
    if bytes[0] != 0xF0 || bytes[n - 1] != 0xF7 {
        return Err(SysexError::InvalidFraming);
    }
    if bytes[1] != YAMAHA_ID {
        return Err(SysexError::NotYamaha(bytes[1]));
    }
    // bytes[2] = 0x0n where n is the channel; the upper nibble must be 0 for a
    // voice/bulk dump.
    let sub_status = bytes[2] & 0xF0;
    if sub_status != 0x00 {
        return Err(SysexError::UnsupportedSubStatus(sub_status));
    }
    let format = bytes[3];
    let count: usize = (bytes[4] as usize) * 128 + ((bytes[5] & 0x7F) as usize);
    // Data block runs from index 6 to 6+count, then a checksum byte, then F7.
    let data_end = 6 + count;
    if n != data_end + 2 {
        return Err(SysexError::LengthMismatch { declared: count, actual: n - 8 });
    }
    let data = &bytes[6..data_end];
    let checksum_byte = bytes[data_end];
    let computed = compute_checksum(data);
    if computed != checksum_byte {
        return Err(SysexError::ChecksumMismatch { expected: checksum_byte, computed });
    }
    if format == 0 {
        if count != VCED_LEN {
            return Err(SysexError::LengthMismatch { declared: count, actual: VCED_LEN });
        }
        let voice = parse_vced(data);
        Ok(SysexResult::SingleVoice(Box::new(voice)))
    } else if format == 9 {
        if count != VMEM_LEN {
            return Err(SysexError::LengthMismatch { declared: count, actual: VMEM_LEN });
        }
        let voices = parse_vmem(data);
        proof {
            assert(voices@.map_values(|v: Dx7Voice| v@) =~= vmem_bank(data@));
        }
        Ok(SysexResult::Bulk(voices))
    } else {
        Err(SysexError::UnsupportedFormat(format))
    }
}

// ---------------------------------------------------------------------------
// VCED encoder
// ---------------------------------------------------------------------------

/// The smaller of `b` and `m`.
pub open spec fn at_most(b: u8, m: u8) -> u8 {
    if b > m { m } else { b }
}

/// A MIDI breakpoint note as the DX7 stores it (note minus 21, at most 99).
pub open spec fn stored_breakpoint(note: u8) -> u8 {
    if note < 21 { 0 } else { at_most((note - 21) as u8, 99) }
}

/// A detune as the DX7 stores it (offset by 7, clamped to 0..14).
pub open spec fn stored_detune(d: i16) -> u8 {
    if d < -7 { 0 } else if d > 7 { 14 } else { (d + 7) as u8 }
}

/// A coarse frequency as stored: at most 3 in fixed mode, at most 31 in ratio mode.
pub open spec fn stored_coarse(op: Dx7Operator) -> u8 {
    if op.fixed_frequency { at_most(op.frequency_coarse, 3) } else { at_most(op.frequency_coarse, 31) }
}

/// The 21 unpacked (VCED) bytes of an operator.
pub open spec fn vced_operator_bytes(op: Dx7Operator) -> Seq<u8> {
    seq![
        min99(op.rate1), min99(op.rate2), min99(op.rate3), min99(op.rate4),
        min99(op.level1), min99(op.level2), min99(op.level3), min99(op.level4),
        stored_breakpoint(op.key_scale_breakpoint),
        min99(op.key_scale_left_depth),
        min99(op.key_scale_right_depth),
        code_of_curve(op.key_scale_left_curve),
        code_of_curve(op.key_scale_right_curve),
        at_most(op.key_scale_rate, 7),
        at_most(op.am_sensitivity, 3),
        at_most(op.velocity_sensitivity, 7),
        min99(op.output_level),
        if op.fixed_frequency { 1u8 } else { 0u8 },
        stored_coarse(op),
        min99(op.frequency_fine),
        stored_detune(op.detune),
    ]
}

/// The ten name bytes of a voice: its UTF-8 bytes padded with spaces (or cut)
/// to ten, each masked to 7 bits.
pub open spec fn name_field(name: Seq<char>) -> Seq<u8> {
    let b = encode_utf8(name);
    Seq::new(10, |i: int| (if i < b.len() { b[i] } else { 0x20u8 }) & 0x7F)
}

/// Whether some operator has oscillator key sync on.
pub open spec fn any_key_sync(ops: Seq<Dx7Operator>) -> bool {
    exists|i: int| 0 <= i < ops.len() && (#[trigger] ops[i]).oscillator_key_sync
}

/// A transpose (semitones) as the DX7 stores it: 0..48 with 24 = no shift.
pub open spec fn stored_transpose(t: i8) -> u8 {
    if t < -24 { 0 } else if t > 24 { 48 } else { (t + 24) as u8 }
}

/// The 29 bytes after the operators in a VCED block.
pub open spec fn vced_tail_bytes(v: Dx7VoiceView) -> Seq<u8> {
    let peg = match v.pitch_eg { Some(p) => p, None => default_pitch_eg() };
    let lfo = match v.lfo { Some(l) => l, None => default_lfo() };
    seq![
        min99(peg.rate1), min99(peg.rate2), min99(peg.rate3), min99(peg.rate4),
        min99(peg.level1), min99(peg.level2), min99(peg.level3), min99(peg.level4),
        if v.algorithm == 0 { 0u8 } else { at_most((v.algorithm - 1) as u8, 31) },
        at_most(v.operators[5].feedback, 7),
        if any_key_sync(v.operators) { 1u8 } else { 0u8 },
        min99(lfo.rate), min99(lfo.delay), min99(lfo.pitch_mod_depth), min99(lfo.amp_mod_depth),
        if lfo.key_sync { 1u8 } else { 0u8 },
        code_of_wave(lfo.waveform),
        at_most(v.pitch_mod_sensitivity, 7),
        stored_transpose(v.transpose_semitones),
    ] + name_field(v.name)
}

/// The 155-byte VCED block of a voice (operators stored OP6..OP1).
#[verifier::opaque]
pub open spec fn vced_bytes(v: Dx7VoiceView) -> Seq<u8> {
    vced_operator_bytes(v.operators[5]) + vced_operator_bytes(v.operators[4])
        + vced_operator_bytes(v.operators[3]) + vced_operator_bytes(v.operators[2])
        + vced_operator_bytes(v.operators[1]) + vced_operator_bytes(v.operators[0])
        + vced_tail_bytes(v)
}

/// The complete single-voice SysEx message for a voice on a MIDI channel.
pub open spec fn single_voice_message(v: Dx7VoiceView, channel: u8) -> Seq<u8> {
    seq![0xF0u8, YAMAHA_ID, channel & 0x0F, 0x00u8, 0x01u8, 0x1Bu8] + vced_bytes(v)
        + seq![checksum_of(vced_bytes(v)), 0xF7u8]
}

fn clamp_99(b: u8) -> (r: u8)
    ensures
        r == min99(b),
{
    if b > 99 { 99 } else { b }
}

fn cap(b: u8, m: u8) -> (r: u8)
    ensures
        r == at_most(b, m),
{
    if b > m { m } else { b }
}

/// Append all of `src` to `out`.
fn push_all(out: &mut Vec<u8>, src: &[u8])
    ensures
        final(out)@ == old(out)@ + src@,
{
    let mut i: usize = 0;
    while i < src.len()
        invariant
            i <= src.len(),
            out@ == old(out)@ + src@.take(i as int),
        decreases src.len() - i,
    {
        out.push(src[i]);
        i = i + 1;
        assert(out@ =~= old(out)@ + src@.take(i as int));
    }
    assert(src@.take(src.len() as int) =~= src@);
}

fn encode_vced_operator(op: &Dx7Operator, out: &mut Vec<u8>)
    ensures
        final(out)@ == old(out)@ + vced_operator_bytes(*op),
{
    let bp = op.key_scale_breakpoint;
    let stored_bp = if bp < 21 { 0 } else { cap(bp - 21, 99) };
    let coarse = if op.fixed_frequency { cap(op.frequency_coarse, 3) } else { cap(op.frequency_coarse, 31) };
    let detune: u8 = if op.detune < -7 { 0 } else if op.detune > 7 { 14 } else { (op.detune + 7) as u8 };
    let bytes: [u8; 21] = [
        clamp_99(op.rate1), clamp_99(op.rate2), clamp_99(op.rate3), clamp_99(op.rate4),
        clamp_99(op.level1), clamp_99(op.level2), clamp_99(op.level3), clamp_99(op.level4),
        // DX7 stores breakpoint as MIDI note minus 21 (so A-1 = 0).
        stored_bp,
        clamp_99(op.key_scale_left_depth),
        clamp_99(op.key_scale_right_depth),
        op.key_scale_left_curve.to_dx7_code(),
        op.key_scale_right_curve.to_dx7_code(),
        cap(op.key_scale_rate, 7),
        cap(op.am_sensitivity, 3),
        cap(op.velocity_sensitivity, 7),
        clamp_99(op.output_level),
        if op.fixed_frequency { 1 } else { 0 },
        coarse,
        clamp_99(op.frequency_fine),
        detune,
    ];
    assert(bytes@ =~= vced_operator_bytes(*op));
    push_all(out, &bytes);
}

fn encode_vced(voice: &Dx7Voice) -> (buf: Vec<u8>)
    ensures
        buf@ == vced_bytes(voice@),
{
    reveal(vced_bytes);
    let mut buf: Vec<u8> = Vec::new();
    encode_vced_operator(&voice.operators[5], &mut buf);
    encode_vced_operator(&voice.operators[4], &mut buf);
    encode_vced_operator(&voice.operators[3], &mut buf);
    encode_vced_operator(&voice.operators[2], &mut buf);
    encode_vced_operator(&voice.operators[1], &mut buf);
    encode_vced_operator(&voice.operators[0], &mut buf);
    let ghost ops_part = buf@;

    let peg = match voice.pitch_eg {
        Some(p) => p,
        None => Dx7PitchEg::default(),
    };
    let lfo = match voice.lfo {
        Some(l) => l,
        None => Dx7Lfo::default(),
    };
    let algorithm = if voice.algorithm == 0 { 0 } else { cap(voice.algorithm - 1, 31) };
    let mut any_sync = false;
    let mut k: usize = 0;
    while k < 6
        invariant
            k <= 6,
            any_sync == exists|i: int| 0 <= i < k && (#[trigger] voice.operators@[i]).oscillator_key_sync,
        decreases 6 - k,
    {
        if voice.operators[k].oscillator_key_sync {
            any_sync = true;
        }
        k = k + 1;
    }
    let transpose: u8 = if voice.transpose_semitones < -24 {
        0
    } else if voice.transpose_semitones > 24 {
        48
    } else {
        (voice.transpose_semitones + 24) as u8
    };
    let tail: [u8; 19] = [
        clamp_99(peg.rate1), clamp_99(peg.rate2), clamp_99(peg.rate3), clamp_99(peg.rate4),
        clamp_99(peg.level1), clamp_99(peg.level2), clamp_99(peg.level3), clamp_99(peg.level4),
        algorithm,
        // DX7 stores feedback at the patch level; it lives on OP6 here.
        cap(voice.operators[5].feedback, 7),
        if any_sync { 1 } else { 0 },
        clamp_99(lfo.rate), clamp_99(lfo.delay), clamp_99(lfo.pitch_mod_depth), clamp_99(lfo.amp_mod_depth),
        if lfo.key_sync { 1 } else { 0 },
        lfo_wave_to_dx7(lfo.waveform),
        cap(voice.pitch_mod_sensitivity, 7),
        transpose,
    ];
    push_all(&mut buf, &tail);
    let name_bytes = voice.name.as_str().as_bytes();
    let mut i: usize = 0;
    while i < 10
        invariant
            i <= 10,
            name_bytes@ == encode_utf8(voice.name@),
            buf@ == ops_part + tail@ + name_field(voice.name@).take(i as int),
        decreases 10 - i,
    {
        let b = if i < name_bytes.len() { name_bytes[i] } else { 0x20 };
        buf.push(b & 0x7F);
        i = i + 1;
        assert(buf@ =~= ops_part + tail@ + name_field(voice.name@).take(i as int));
    }
    assert(name_field(voice.name@).take(10) =~= name_field(voice.name@));
    assert(tail@ + name_field(voice.name@) =~= vced_tail_bytes(voice@));
    assert(buf@ =~= vced_bytes(voice@));
    buf
}

/// Encode a voice as a single-voice SysEx message (163 bytes).
///
/// `channel` is the 0-indexed MIDI channel embedded in the header byte.
pub fn encode_single_voice(voice: &Dx7Voice, channel: u8) -> (out: Vec<u8>)
    ensures
        out@ == single_voice_message(voice@, channel),
{
    let mut out: Vec<u8> = Vec::new();
    out.push(0xF0);
    out.push(YAMAHA_ID);
    out.push(channel & 0x0F); // sub-status 0, channel n
    out.push(0x00); // format 0 = VCED
    out.push(0x01); // byte count MSB
    out.push(0x1B); // byte count LSB (0x011B = 155)
    let body = encode_vced(voice);
    let checksum = compute_checksum(body.as_slice());
    push_all(&mut out, body.as_slice());
    out.push(checksum);
    out.push(0xF7);
    assert(out@ =~= single_voice_message(voice@, channel));
    out
}

// ---------------------------------------------------------------------------
// Round trip
// ---------------------------------------------------------------------------

/// An operator as it comes back from the DX7 after being stored: every value
/// clamped to the range the DX7 stores.
pub open spec fn stored_operator(op: Dx7Operator) -> Dx7Operator {
    Dx7Operator {
        rate1: min99(op.rate1),
        rate2: min99(op.rate2),
        rate3: min99(op.rate3),
        rate4: min99(op.rate4),
        level1: min99(op.level1),
        level2: min99(op.level2),
        level3: min99(op.level3),
        level4: min99(op.level4),
        key_scale_breakpoint: breakpoint_note(stored_breakpoint(op.key_scale_breakpoint)),
        key_scale_left_depth: min99(op.key_scale_left_depth),
        key_scale_right_depth: min99(op.key_scale_right_depth),
        key_scale_left_curve: op.key_scale_left_curve,
        key_scale_right_curve: op.key_scale_right_curve,
        key_scale_rate: at_most(op.key_scale_rate, 7),
        am_sensitivity: at_most(op.am_sensitivity, 3),
        velocity_sensitivity: at_most(op.velocity_sensitivity, 7),
        output_level: min99(op.output_level),
        fixed_frequency: op.fixed_frequency,
        frequency_coarse: stored_coarse(op),
        frequency_fine: min99(op.frequency_fine),
        detune: (stored_detune(op.detune) - 7) as i16,
        feedback: 0,
        oscillator_key_sync: true,
    }
}

/// A pitch envelope with every value clamped to 0..99.
pub open spec fn stored_pitch_eg(p: Dx7PitchEg) -> Dx7PitchEg {
    Dx7PitchEg {
        rate1: min99(p.rate1),
        rate2: min99(p.rate2),
        rate3: min99(p.rate3),
        rate4: min99(p.rate4),
        level1: min99(p.level1),
        level2: min99(p.level2),
        level3: min99(p.level3),
        level4: min99(p.level4),
    }
}

/// An LFO with every value clamped to 0..99.
pub open spec fn stored_lfo(l: Dx7Lfo) -> Dx7Lfo {
    Dx7Lfo {
        waveform: l.waveform,
        rate: min99(l.rate),
        delay: min99(l.delay),
        pitch_mod_depth: min99(l.pitch_mod_depth),
        amp_mod_depth: min99(l.amp_mod_depth),
        key_sync: l.key_sync,
    }
}

/// A voice as it comes back from a single-voice dump: values clamped to the
/// ranges the DX7 stores, the name cut to ten 7-bit characters without
/// trailing whitespace, feedback kept on OP6 only, oscillator key sync shared
/// by all operators, and the collection "SysEx".
pub open spec fn stored_voice(v: Dx7VoiceView) -> Dx7VoiceView {
    let peg = match v.pitch_eg { Some(p) => p, None => default_pitch_eg() };
    let lfo = match v.lfo { Some(l) => l, None => default_lfo() };
    let sync = any_key_sync(v.operators);
    Dx7VoiceView {
        name: voice_name_of(name_field(v.name)),
        collection: "SysEx"@,
        algorithm: if v.algorithm == 0 { 1 } else { at_most(v.algorithm, 32) },
        operators: seq![
            with_patch_flags(stored_operator(v.operators[0]), 0, sync),
            with_patch_flags(stored_operator(v.operators[1]), 0, sync),
            with_patch_flags(stored_operator(v.operators[2]), 0, sync),
            with_patch_flags(stored_operator(v.operators[3]), 0, sync),
            with_patch_flags(stored_operator(v.operators[4]), 0, sync),
            with_patch_flags(stored_operator(v.operators[5]), at_most(v.operators[5].feedback, 7), sync),
        ],
        transpose_semitones: if v.transpose_semitones < -24 {
            -24i8
        } else if v.transpose_semitones > 24 {
            24i8
        } else {
            v.transpose_semitones
        },
        pitch_mod_sensitivity: at_most(v.pitch_mod_sensitivity, 7),
        pitch_eg: Some(stored_pitch_eg(peg)),
        lfo: Some(stored_lfo(lfo)),
    }
}

proof fn lemma_small_masks(x: u8)
    ensures
        x <= 7 ==> x & 0x07 == x,
        x <= 3 ==> x & 0x03 == x,
        x <= 31 ==> x & 0x1F == x,
{
    assert(x <= 7 ==> x & 0x07 == x) by (bit_vector);
    assert(x <= 3 ==> x & 0x03 == x) by (bit_vector);
    assert(x <= 31 ==> x & 0x1F == x) by (bit_vector);
}

proof fn lemma_operator_roundtrip(op: Dx7Operator, d: Seq<u8>, base: int)
    requires
        0 <= base,
        base + 21 <= d.len(),
        d.subrange(base, base + 21) == vced_operator_bytes(op),
    ensures
        vced_operator(d, base) == stored_operator(op),
{
    reveal(vced_operator);
    let b = vced_operator_bytes(op);
    assert forall|k: int| 0 <= k < 21 implies d[base + k] == #[trigger] b[k] by {
        assert(d.subrange(base, base + 21)[k] == d[base + k]);
    }
    lemma_small_masks(at_most(op.key_scale_rate, 7));
    lemma_small_masks(at_most(op.am_sensitivity, 3));
    lemma_small_masks(at_most(op.velocity_sensitivity, 7));
    lemma_code_curve_roundtrip(op.key_scale_left_curve);
    lemma_code_curve_roundtrip(op.key_scale_right_curve);
    assert(d[base + 11] == b[11]);
    assert(d[base + 12] == b[12]);
    assert(d[base + 13] == b[13]);
    assert(d[base + 14] == b[14]);
    assert(d[base + 15] == b[15]);
    assert(d[base + 17] == b[17]);
    assert(d[base + 20] == b[20]);
}

proof fn lemma_split(x: Seq<u8>, y: Seq<u8>)
    ensures
        (x + y).subrange(0, x.len() as int) == x,
        (x + y).subrange(x.len() as int, (x.len() + y.len()) as int) == y,
{
    assert((x + y).subrange(0, x.len() as int) =~= x);
    assert((x + y).subrange(x.len() as int, (x.len() + y.len()) as int) =~= y);
}

proof fn lemma_sub_sub(s: Seq<u8>, n: int, a: int, b: int)
    requires
        0 <= a <= b <= n <= s.len(),
    ensures
        s.subrange(0, n).subrange(a, b) == s.subrange(a, b),
{
    assert(s.subrange(0, n).subrange(a, b) =~= s.subrange(a, b));
}

#[verifier::rlimit(100)]
proof fn lemma_body_operators(v: Dx7VoiceView)
    requires
        v.operators.len() == 6,
    ensures
        vced_operator(vced_bytes(v), 0) == stored_operator(v.operators[5]),
        vced_operator(vced_bytes(v), 21) == stored_operator(v.operators[4]),
        vced_operator(vced_bytes(v), 42) == stored_operator(v.operators[3]),
        vced_operator(vced_bytes(v), 63) == stored_operator(v.operators[2]),
        vced_operator(vced_bytes(v), 84) == stored_operator(v.operators[1]),
        vced_operator(vced_bytes(v), 105) == stored_operator(v.operators[0]),
        vced_bytes(v).len() == 155,
        vced_bytes(v).subrange(126, 155) == vced_tail_bytes(v),
{
    reveal(vced_bytes);
    let b0 = vced_operator_bytes(v.operators[0]);
    let b1 = vced_operator_bytes(v.operators[1]);
    let b2 = vced_operator_bytes(v.operators[2]);
    let b3 = vced_operator_bytes(v.operators[3]);
    let b4 = vced_operator_bytes(v.operators[4]);
    let b5 = vced_operator_bytes(v.operators[5]);
    let l1 = b5;
    let l2 = l1 + b4;
    let l3 = l2 + b3;
    let l4 = l3 + b2;
    let l5 = l4 + b1;
    let l6 = l5 + b0;
    let tail = vced_tail_bytes(v);
    let body = l6 + tail;
    assert(body == vced_bytes(v));
    lemma_split(l6, tail);
    lemma_split(l5, b0);
    lemma_split(l4, b1);
    lemma_split(l3, b2);
    lemma_split(l2, b3);
    lemma_split(l1, b4);
    // body.subrange(0, 126) == l6, and each shorter prefix nests inside it.
    lemma_sub_sub(body, 126, 105, 126);
    lemma_sub_sub(body, 126, 0, 105);
    lemma_sub_sub(body, 105, 84, 105);
    lemma_sub_sub(body, 105, 0, 84);
    lemma_sub_sub(body, 84, 63, 84);
    lemma_sub_sub(body, 84, 0, 63);
    lemma_sub_sub(body, 63, 42, 63);
    lemma_sub_sub(body, 63, 0, 42);
    lemma_sub_sub(body, 42, 21, 42);
    lemma_sub_sub(body, 42, 0, 21);
    assert(body.subrange(105, 126) == b0);
    assert(body.subrange(84, 105) == b1);
    assert(body.subrange(63, 84) == b2);
    assert(body.subrange(42, 63) == b3);
    assert(body.subrange(21, 42) == b4);
    assert(body.subrange(0, 21) == b5);
    lemma_operator_roundtrip(v.operators[0], body, 105);
    lemma_operator_roundtrip(v.operators[1], body, 84);
    lemma_operator_roundtrip(v.operators[2], body, 63);
    lemma_operator_roundtrip(v.operators[3], body, 42);
    lemma_operator_roundtrip(v.operators[4], body, 21);
    lemma_operator_roundtrip(v.operators[5], body, 0);
}

#[verifier::rlimit(100)]
#[verifier::spinoff_prover]
proof fn lemma_body_voice(v: Dx7VoiceView)
    requires
        v.operators.len() == 6,
    ensures
        vced_voice(vced_bytes(v)) == stored_voice(v),
        vced_bytes(v).len() == 155,
{
    let body = vced_bytes(v);
    lemma_body_operators(v);
    let tail = vced_tail_bytes(v);
    assert forall|k: int| 0 <= k < 29 implies body[126 + k] == #[trigger] tail[k] by {
        assert(body.subrange(126, 155)[k] == body[126 + k]);
    }
    let nf = name_field(v.name);
    assert forall|k: int| 0 <= k < 10 implies body.subrange(145, 155)[k] == #[trigger] nf[k] by {
        assert(body[126 + (19 + k)] == tail[19 + k]);
        assert(tail[19 + k] == nf[k]);
    }
    assert(body.subrange(145, 155) =~= nf);
    assert(body[126int + 0] == tail[0int]);
    assert(body[126int + 1] == tail[1int]);
    assert(body[126int + 2] == tail[2int]);
    assert(body[126int + 3] == tail[3int]);
    assert(body[126int + 4] == tail[4int]);
    assert(body[126int + 5] == tail[5int]);
    assert(body[126int + 6] == tail[6int]);
    assert(body[126int + 7] == tail[7int]);
    assert(body[126int + 8] == tail[8int]);
    assert(body[126int + 9] == tail[9int]);
    assert(body[126int + 10] == tail[10int]);
    assert(body[126int + 11] == tail[11int]);
    assert(body[126int + 12] == tail[12int]);
    assert(body[126int + 13] == tail[13int]);
    assert(body[126int + 14] == tail[14int]);
    assert(body[126int + 15] == tail[15int]);
    assert(body[126int + 16] == tail[16int]);
    assert(body[126int + 17] == tail[17int]);
    assert(body[126int + 18] == tail[18int]);
    let a = body[134];
    let fb = body[135];
    let pms = body[143];
    lemma_small_masks(a);
    lemma_small_masks(fb);
    lemma_small_masks(pms);
    let lfo = match v.lfo { Some(l) => l, None => default_lfo() };
    lemma_wave_code_roundtrip(lfo.waveform);
    let p = vced_voice(body);
    let s = stored_voice(v);
    assert(p.operators =~= s.operators);
    assert(p.name == s.name);
    assert(p.collection == s.collection);
    assert(p.algorithm == s.algorithm);
    assert(p.transpose_semitones == s.transpose_semitones);
    assert(p.pitch_mod_sensitivity == s.pitch_mod_sensitivity);
    assert(p.pitch_eg == s.pitch_eg);
    assert(p.lfo == s.lfo);
}

/// Encoding a voice as a single-voice message and parsing that message gives
/// back the voice as the DX7 stores it (see `stored_voice`).
#[verifier::rlimit(100)]
#[verifier::spinoff_prover]
pub proof fn lemma_single_voice_roundtrip(v: Dx7VoiceView, channel: u8)
    requires
        v.operators.len() == 6,
    ensures
        sysex_parse(single_voice_message(v, channel)) == Ok::<ParsedSysex, SysexError>(
            ParsedSysex::SingleVoice(stored_voice(v)),
        ),
{
    lemma_body_voice(v);
    let body = vced_bytes(v);
    let m = single_voice_message(v, channel);
    let ch = channel & 0x0F;
    assert(ch & 0xF0 == 0) by (bit_vector)
        requires
            ch == channel & 0x0F,
    ;
    assert(0x1Bu8 & 0x7Fu8 == 0x1Bu8) by (bit_vector);
    assert(m.len() == 163);
    assert(declared_count(m) == 155);
    assert(m.subrange(6, 161) =~= body);
    assert(m[161] == checksum_of(body));
}

/// Whether an operator holds only values the DX7 can store, with the
/// patch-level feedback (`feedback`) and key sync (`sync`).
pub open spec fn operator_storable(op: Dx7Operator, feedback: u8, sync: bool) -> bool {
    &&& op.rate1 <= 99 && op.rate2 <= 99 && op.rate3 <= 99 && op.rate4 <= 99
    &&& op.level1 <= 99 && op.level2 <= 99 && op.level3 <= 99 && op.level4 <= 99
    &&& 21 <= op.key_scale_breakpoint <= 120
    &&& op.key_scale_left_depth <= 99 && op.key_scale_right_depth <= 99
    &&& op.key_scale_rate <= 7 && op.am_sensitivity <= 3 && op.velocity_sensitivity <= 7
    &&& op.output_level <= 99
    &&& op.frequency_coarse <= (if op.fixed_frequency { 3u8 } else { 31u8 })
    &&& op.frequency_fine <= 99
    &&& -7 <= op.detune <= 7
    &&& op.feedback == feedback
    &&& op.oscillator_key_sync == sync
}

/// Whether a name survives a dump unchanged: at most ten ASCII characters and
/// no trailing whitespace.
pub open spec fn name_storable(name: Seq<char>) -> bool {
    &&& name.len() <= 10
    &&& vstd::utf8::is_ascii_chars(name)
    &&& (name.len() == 0 || !crate::text::is_whitespace(name.last()))
}

/// Whether a voice holds only what a single-voice dump can carry.
pub open spec fn voice_storable(v: Dx7VoiceView) -> bool {
    &&& name_storable(v.name)
    &&& 1 <= v.algorithm <= 32
    &&& v.operators.len() == 6
    &&& v.operators[5].feedback <= 7
    &&& forall|i: int| 0 <= i < 5 ==> operator_storable(#[trigger] v.operators[i], 0, v.operators[0].oscillator_key_sync)
    &&& operator_storable(v.operators[5], v.operators[5].feedback, v.operators[0].oscillator_key_sync)
    &&& -24 <= v.transpose_semitones <= 24
    &&& v.pitch_mod_sensitivity <= 7
    &&& (v.pitch_eg matches Some(p) && p == stored_pitch_eg(p))
    &&& (v.lfo matches Some(l) && l == stored_lfo(l))
}

proof fn lemma_name_field_identity(name: Seq<char>)
    requires
        name_storable(name),
    ensures
        voice_name_of(name_field(name)) == name,
{
    let b = encode_utf8(name);
    vstd::utf8::is_ascii_chars_encode_utf8(name);
    let f = name_field(name);
    let chars = f.map_values(|x: u8| name_char(x));
    assert forall|i: int| 0 <= i < 10 implies #[trigger] chars[i] == (if i < name.len() { name[i] } else { ' ' }) by {
        if i < name.len() {
            let c = b[i];
            assert(c == name[i] as u8);
            assert(name[i] <= '\u{7f}');
            assert(c < 0x80);
            assert(c & 0x7F == c) by (bit_vector)
                requires
                    c < 0x80,
            ;
        } else {
            assert(0x20u8 & 0x7Fu8 == 0x20u8) by (bit_vector);
        }
    }
    crate::text::lemma_trim_end_take(chars, name.len() as int);
    assert(chars.take(name.len() as int) =~= name);
}

proof fn lemma_stored_operator_identity(op: Dx7Operator, feedback: u8, sync: bool)
    requires
        operator_storable(op, feedback, sync),
    ensures
        with_patch_flags(stored_operator(op), feedback, sync) == op,
{
}

proof fn lemma_storable_key_sync(v: Dx7VoiceView)
    requires
        voice_storable(v),
    ensures
        any_key_sync(v.operators) == v.operators[0].oscillator_key_sync,
{
    let sync = v.operators[0].oscillator_key_sync;
    assert(operator_storable(v.operators[0], 0, sync));
    if any_key_sync(v.operators) {
        let i = choose|i: int| 0 <= i < v.operators.len() && (#[trigger] v.operators[i]).oscillator_key_sync;
        if i < 5 {
            assert(operator_storable(v.operators[i], 0, sync));
        } else {
            assert(operator_storable(v.operators[5], v.operators[5].feedback, sync));
        }
    } else {
        assert(v.operators[0].oscillator_key_sync == false);
    }
}

/// A voice that holds only what a dump can carry comes back from a
/// single-voice dump unchanged, but for its collection, which reads "SysEx".
#[verifier::rlimit(100)]
#[verifier::spinoff_prover]
pub proof fn lemma_storable_voice_survives_dump(v: Dx7VoiceView, channel: u8)
    requires
        voice_storable(v),
    ensures
        sysex_parse(single_voice_message(v, channel)) == Ok::<ParsedSysex, SysexError>(
            ParsedSysex::SingleVoice(Dx7VoiceView { collection: "SysEx"@, ..v }),
        ),
{
    lemma_single_voice_roundtrip(v, channel);
    lemma_name_field_identity(v.name);
    lemma_storable_key_sync(v);
    let sync = v.operators[0].oscillator_key_sync;
    let s = stored_voice(v);
    assert(operator_storable(v.operators[0], 0, sync));
    assert(operator_storable(v.operators[1], 0, sync));
    assert(operator_storable(v.operators[2], 0, sync));
    assert(operator_storable(v.operators[3], 0, sync));
    assert(operator_storable(v.operators[4], 0, sync));
    lemma_stored_operator_identity(v.operators[0], 0, sync);
    lemma_stored_operator_identity(v.operators[1], 0, sync);
    lemma_stored_operator_identity(v.operators[2], 0, sync);
    lemma_stored_operator_identity(v.operators[3], 0, sync);
    lemma_stored_operator_identity(v.operators[4], 0, sync);
    lemma_stored_operator_identity(v.operators[5], v.operators[5].feedback, sync);
    assert(s.operators =~= v.operators);
}

} // verus!
