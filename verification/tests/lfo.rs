use synth_fm_rs::lfo::LFOWaveform;

#[test]
fn waveform_default_is_triangle() {
    assert_eq!(LFOWaveform::default(), LFOWaveform::Triangle);
}

#[test]
fn waveform_all_returns_six_variants() {
    assert_eq!(LFOWaveform::all().len(), 6);
}

#[test]
fn waveform_names_are_unique_and_nonempty() {
    let mut names = Vec::new();
    for w in LFOWaveform::all() {
        let n = w.name();
        assert!(!n.is_empty());
        names.push(n);
    }
    names.sort_unstable();
    let len = names.len();
    names.dedup();
    assert_eq!(names.len(), len, "names should be unique");
}

#[test]
fn waveform_all_lists_each_variant_once_in_order() {
    assert_eq!(
        LFOWaveform::all(),
        &[
            LFOWaveform::Triangle,
            LFOWaveform::SawDown,
            LFOWaveform::SawUp,
            LFOWaveform::Square,
            LFOWaveform::Sine,
            LFOWaveform::SampleHold,
        ]
    );
    assert_eq!(LFOWaveform::Triangle.name(), "Triangle");
    assert_eq!(LFOWaveform::SampleHold.name(), "S&H");
}
