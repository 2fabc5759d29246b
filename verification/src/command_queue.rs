//! The parameter names that the control surfaces (GUI, MIDI, preset loader)
//! send to the audio engine.
use vstd::prelude::*;

verus! {

/// Parameters that can be set on an operator.
#[derive(Debug, Clone, Copy, PartialEq, Eq, Structural)]
pub enum OperatorParam {
    Ratio,
    Level,
    Detune,
    Feedback,
    VelocitySensitivity,
    KeyScaleRate,
    KeyScaleBreakpoint,
    KeyScaleLeftDepth,
    KeyScaleRightDepth,
    /// Payload: the DX7 code of a key scaling curve (0..3).
    KeyScaleLeftCurve,
    KeyScaleRightCurve,
    /// 0..3.
    AmSensitivity,
    OscillatorKeySync,
    /// 0 = ratio, 1 = fixed frequency.
    FixedFrequency,
    FixedFreqHz,
    Enabled,
}

/// Parameters that can be set on an operator envelope.
#[derive(Debug, Clone, Copy, PartialEq, Eq, Structural)]
pub enum EnvelopeParam {
    Rate1,
    Rate2,
    Rate3,
    Rate4,
    Level1,
    Level2,
    Level3,
    Level4,
}

/// Parameters that can be set on the pitch envelope.
#[derive(Debug, Clone, Copy, PartialEq, Eq, Structural)]
pub enum PitchEgParam {
    Enabled,
    Rate1,
    Rate2,
    Rate3,
    Rate4,
    Level1,
    Level2,
    Level3,
    Level4,
}

/// Parameters that can be set on the LFO.
#[derive(Debug, Clone, Copy, PartialEq, Eq, Structural)]
pub enum LfoParam {
    Rate,
    Delay,
    PitchDepth,
    AmpDepth,
    /// The DX7 wave code, 0..5.
    Waveform(u8),
    KeySync,
}

/// The effects of the output chain.
#[derive(Debug, Clone, Copy, PartialEq, Eq, Structural)]
pub enum EffectType {
    Chorus,
    AutoPan,
    Delay,
    Reverb,
}

/// Parameters that can be set on the effects.
#[derive(Debug, Clone, Copy, PartialEq, Eq, Structural)]
pub enum EffectParam {
    Enabled,
    Mix,
    ChorusRate,
    ChorusDepth,
    ChorusFeedback,
    AutoPanRate,
    AutoPanDepth,
    DelayTime,
    DelayFeedback,
    DelayPingPong,
    ReverbRoomSize,
    ReverbDamping,
    ReverbWidth,
}

} // verus!
