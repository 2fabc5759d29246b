use synth_fm_rs::state_snapshot::VoiceMode;

#[test]
fn voice_mode_codes_round_trip() {
    for mode in [VoiceMode::Poly, VoiceMode::Mono, VoiceMode::MonoLegato] {
        assert_eq!(VoiceMode::from_code(mode.code()), mode);
    }
    assert_eq!(VoiceMode::from_code(7), VoiceMode::Poly);
    assert_eq!(VoiceMode::default(), VoiceMode::Poly);
    assert_eq!(VoiceMode::MonoLegato.code(), 2);
}
