use vstd::prelude::*;

verus! {

/// The six LFO waveforms of the DX7, in the order of their SysEx codes.
#[derive(Debug, Clone, Copy, PartialEq, Eq, Structural)]
pub enum LFOWaveform {
    Triangle,
    SawDown,
    SawUp,
    Square,
    Sine,
    SampleHold,
}

/// The display name of a waveform.
pub open spec fn waveform_name(w: LFOWaveform) -> Seq<char> {
    match w {
        LFOWaveform::Triangle => "Triangle"@,
        LFOWaveform::SawDown => "Saw Down"@,
        LFOWaveform::SawUp => "Saw Up"@,
        LFOWaveform::Square => "Square"@,
        LFOWaveform::Sine => "Sine"@,
        LFOWaveform::SampleHold => "S&H"@,
    }
}

/// All waveforms, in SysEx code order.
pub open spec fn all_waveforms() -> Seq<LFOWaveform> {
    seq![
        LFOWaveform::Triangle,
        LFOWaveform::SawDown,
        LFOWaveform::SawUp,
        LFOWaveform::Square,
        LFOWaveform::Sine,
        LFOWaveform::SampleHold,
    ]
}

impl Default for LFOWaveform {
    fn default() -> (w: LFOWaveform)
        ensures
            w == LFOWaveform::Triangle,
    {
        LFOWaveform::Triangle
    }
}

impl LFOWaveform {
    /// Every waveform once, in SysEx code order.
    pub fn all() -> (v: &'static [LFOWaveform])
        ensures
            v@ == all_waveforms(),
    {
        let v: &'static [LFOWaveform] = &[
            LFOWaveform::Triangle,
            LFOWaveform::SawDown,
            LFOWaveform::SawUp,
            LFOWaveform::Square,
            LFOWaveform::Sine,
            LFOWaveform::SampleHold,
        ];
        assert(v@ =~= all_waveforms());
        v
    }

    pub fn name(&self) -> (n: &'static str)
        ensures
            n@ == waveform_name(*self),
    {
        match self {
            LFOWaveform::Triangle => "Triangle",
            LFOWaveform::SawDown => "Saw Down",
            LFOWaveform::SawUp => "Saw Up",
            LFOWaveform::Square => "Square",
            LFOWaveform::Sine => "Sine",
            LFOWaveform::SampleHold => "S&H",
        }
    }
}

/// `all` lists every waveform exactly once.
pub proof fn lemma_all_waveforms_complete(w: LFOWaveform)
    ensures
        all_waveforms().contains(w),
        all_waveforms().len() == 6,
        forall|i: int, j: int|
            0 <= i < j < 6 ==> all_waveforms()[i] != all_waveforms()[j],
{
    let s = all_waveforms();
    match w {
        LFOWaveform::Triangle => assert(s[0] == w),
        LFOWaveform::SawDown => assert(s[1] == w),
        LFOWaveform::SawUp => assert(s[2] == w),
        LFOWaveform::Square => assert(s[3] == w),
        LFOWaveform::Sine => assert(s[4] == w),
        LFOWaveform::SampleHold => assert(s[5] == w),
    }
}

} // verus!
