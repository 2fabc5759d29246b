use synth_fm_rs::algorithm_matrix::{graph_connections, Connection};
use synth_fm_rs::keyboard::{keyboard_note, octave_down, octave_up};
use synth_fm_rs::fm_synth::{EngineControls, NoteRouter, Sensitivity, VoiceAction, MAX_VOICES};
use synth_fm_rs::lfo::LFOWaveform;
use synth_fm_rs::state_snapshot::VoiceMode;

fn silent() -> [bool; MAX_VOICES] {
    [false; MAX_VOICES]
}

#[test]
fn engine_set_algorithm_clamps_to_valid_range() {
    let mut c = EngineControls::new();
    c.set_algorithm(0);
    assert_eq!(c.algorithm, 1);
    c.set_algorithm(33);
    assert_eq!(c.algorithm, 1);
    c.set_algorithm(7);
    assert_eq!(c.algorithm, 7);
}

#[test]
fn engine_set_voice_mode_changes_mode() {
    let mut r = NoteRouter::new();
    r.set_voice_mode(VoiceMode::Mono.code(), &silent());
    assert_eq!(r.voice_mode(), VoiceMode::Mono);
    r.set_voice_mode(VoiceMode::MonoLegato.code(), &silent());
    assert_eq!(r.voice_mode(), VoiceMode::MonoLegato);
    r.set_voice_mode(VoiceMode::Poly.code(), &silent());
    assert_eq!(r.voice_mode(), VoiceMode::Poly);
    r.set_voice_mode(9, &silent());
    assert_eq!(r.voice_mode(), VoiceMode::Poly);
}

#[test]
fn engine_set_transpose_clamps() {
    let mut r = NoteRouter::new();
    r.set_transpose_semitones(50);
    assert_eq!(r.transpose_semitones(), 24);
    r.set_transpose_semitones(-50);
    assert_eq!(r.transpose_semitones(), -24);
    r.set_transpose_semitones(5);
    assert_eq!(r.transpose_semitones(), 5);
}

#[test]
fn engine_set_pitch_mod_sensitivity_clamps() {
    let mut c = EngineControls::new();
    c.set_pitch_mod_sensitivity(99);
    assert_eq!(c.pitch_mod_sensitivity, 7);
    c.set_pitch_mod_sensitivity(3);
    assert_eq!(c.pitch_mod_sensitivity, 3);
}

#[test]
fn engine_note_on_off_round_trip() {
    let mut r = NoteRouter::new();
    let plan = r.note_on(60, &silent());
    assert!(plan.retrigger_modulators);
    assert_eq!(
        plan.action,
        VoiceAction::Trigger { voice: 0, note: 60, portamento: false, steal: false }
    );
    assert_eq!(r.held_voice(60), Some(0));
    let off = r.note_off(60);
    assert_eq!(off, VoiceAction::Release { voice: 0, release_pitch_eg: true });
    assert_eq!(r.held_count(), 0);
    assert_eq!(r.note_off(60), VoiceAction::Ignore);
}

#[test]
fn router_poly_release_keeps_pitch_eg_while_keys_are_held() {
    let mut r = NoteRouter::new();
    let mut active = silent();
    r.note_on(60, &active);
    active[0] = true;
    let second = r.note_on(64, &active);
    assert_eq!(
        second.action,
        VoiceAction::Trigger { voice: 1, note: 64, portamento: false, steal: false }
    );
    assert_eq!(r.note_off(60), VoiceAction::Release { voice: 0, release_pitch_eg: false });
    assert_eq!(r.note_off(64), VoiceAction::Release { voice: 1, release_pitch_eg: true });
}

#[test]
fn router_repressed_key_reuses_its_voice() {
    let mut r = NoteRouter::new();
    let mut active = silent();
    r.note_on(60, &active);
    active[0] = true;
    r.note_on(62, &active);
    active[1] = true;
    let again = r.note_on(60, &active);
    assert_eq!(
        again.action,
        VoiceAction::Trigger { voice: 0, note: 60, portamento: false, steal: false }
    );
    assert_eq!(r.held_count(), 2);
}

#[test]
fn engine_panic_stops_all_voices() {
    let mut r = NoteRouter::new();
    let mut active = silent();
    for (i, n) in [60u8, 64, 67].iter().enumerate() {
        r.note_on(*n, &active);
        active[i] = true;
    }
    assert_eq!(r.held_count(), 3);
    r.panic();
    assert_eq!(r.held_count(), 0);
    assert_eq!(r.note_off(64), VoiceAction::Ignore);
}

#[test]
fn engine_voice_initialize_resets_to_defaults() {
    let mut r = NoteRouter::new();
    r.set_transpose_semitones(7);
    r.note_on(60, &silent());
    r.voice_initialize();
    assert_eq!(r.held_count(), 0);
    assert_eq!(r.transpose_semitones(), 0);
    let mut c = EngineControls::new();
    c.set_algorithm(15);
    c.set_sensitivity(Sensitivity::BreathAmp, 5);
    c.set_bank_select_msb(3);
    c.voice_initialize();
    assert_eq!(c.algorithm, 1);
    assert_eq!(c.breath_amp_sens, 0);
    assert_eq!(c.bank_msb, 3);
}

#[test]
fn engine_voice_stealing_kicks_in_after_max_voices() {
    let mut r = NoteRouter::new();
    let mut active = silent();
    for (i, n) in (50..66u8).enumerate() {
        let plan = r.note_on(n, &active);
        assert_eq!(
            plan.action,
            VoiceAction::Trigger { voice: i, note: n, portamento: false, steal: false }
        );
        active[i] = true;
    }
    let plan = r.note_on(66, &active);
    assert_eq!(
        plan.action,
        VoiceAction::Trigger { voice: 0, note: 66, portamento: false, steal: true }
    );
    assert_eq!(r.held_voice(50), None);
    assert_eq!(r.held_voice(66), Some(0));
    let next = r.note_on(67, &active);
    assert_eq!(
        next.action,
        VoiceAction::Trigger { voice: 1, note: 67, portamento: false, steal: true }
    );
    assert_eq!(r.held_count(), 16);
}

#[test]
fn router_reuses_a_voice_that_fell_silent() {
    let mut r = NoteRouter::new();
    let mut active = [true; MAX_VOICES];
    active[5] = false;
    let plan = r.note_on(70, &active);
    assert_eq!(
        plan.action,
        VoiceAction::Trigger { voice: 5, note: 70, portamento: false, steal: false }
    );
}

#[test]
fn engine_mono_mode_silences_all_but_first_active_voice() {
    let mut r = NoteRouter::new();
    let mut active = silent();
    for (i, n) in (60..64u8).enumerate() {
        r.note_on(n, &active);
        active[i] = true;
    }
    let stop = r.set_voice_mode(1, &active);
    assert_eq!(stop.len(), MAX_VOICES);
    assert!(!stop[0]);
    assert!(stop[1] && stop[2] && stop[3]);
    assert!(stop[4..].iter().all(|s| !s));
    assert_eq!(r.held_count(), 0);
    let back = r.set_voice_mode(0, &active);
    assert!(back.iter().all(|s| !s));
}

#[test]
fn engine_mono_legato_glides_between_held_notes() {
    let mut r = NoteRouter::new();
    r.set_voice_mode(2, &silent());
    r.set_portamento_enable(true);
    let first = r.note_on(60, &silent());
    assert!(first.retrigger_modulators);
    assert_eq!(
        first.action,
        VoiceAction::Trigger { voice: 0, note: 60, portamento: false, steal: false }
    );
    let mut active = silent();
    active[0] = true;
    let tied = r.note_on(67, &active);
    assert!(!tied.retrigger_modulators);
    assert_eq!(tied.action, VoiceAction::Retarget { voice: 0, note: 67, portamento: true });
    assert_eq!(r.note_off(67), VoiceAction::Retarget { voice: 0, note: 60, portamento: true });
    assert_eq!(r.held_voice(60), Some(0));
    assert_eq!(r.held_order(), vec![60]);
    assert_eq!(r.note_off(60), VoiceAction::Release { voice: 0, release_pitch_eg: true });
    assert_eq!(r.held_count(), 0);
}

#[test]
fn router_mono_full_portamento_retriggers() {
    let mut r = NoteRouter::new();
    r.set_voice_mode(1, &silent());
    r.set_portamento_enable(true);
    let a = r.note_on(60, &silent());
    assert_eq!(a.action, VoiceAction::Trigger { voice: 0, note: 60, portamento: true, steal: false });
    let b = r.note_on(64, &silent());
    assert!(b.retrigger_modulators);
    assert_eq!(b.action, VoiceAction::Trigger { voice: 0, note: 64, portamento: true, steal: false });
    assert_eq!(r.held_order(), vec![60, 64]);
    r.note_on(60, &silent());
    assert_eq!(r.held_order(), vec![64, 60]);
    assert_eq!(r.note_off(64), VoiceAction::Retarget { voice: 0, note: 60, portamento: true });
}

#[test]
fn engine_sustain_pedal_holds_notes() {
    let mut r = NoteRouter::new();
    r.note_on(60, &silent());
    r.set_sustain_pedal(true);
    assert!(r.sustain_pedal());
    assert_eq!(r.note_off(60), VoiceAction::Ignore);
    assert_eq!(r.held_voice(60), Some(0));
    r.set_sustain_pedal(false);
    assert_eq!(r.note_off(60), VoiceAction::Release { voice: 0, release_pitch_eg: true });
}

#[test]
fn router_transposes_and_clamps_notes() {
    let mut r = NoteRouter::new();
    r.set_transpose_semitones(12);
    let p = r.note_on(60, &silent());
    assert_eq!(p.action, VoiceAction::Trigger { voice: 0, note: 72, portamento: false, steal: false });
    assert_eq!(r.apply_transpose(120), 127);
    r.set_transpose_semitones(-24);
    assert_eq!(r.apply_transpose(10), 0);
    assert_eq!(r.apply_transpose(60), 36);
}

#[test]
fn engine_eg_bias_and_pitch_bias_sensitivities_clamp() {
    let mut c = EngineControls::new();
    c.set_sensitivity(Sensitivity::EgBias, 50);
    assert_eq!(c.eg_bias_sensitivity, 7);
    c.set_sensitivity(Sensitivity::PitchBias, 50);
    assert_eq!(c.pitch_bias_sensitivity, 7);
}

#[test]
fn engine_foot_controller_routes() {
    let mut c = EngineControls::new();
    c.set_sensitivity(Sensitivity::FootVolume, 15);
    c.set_sensitivity(Sensitivity::FootPitch, 7);
    c.set_sensitivity(Sensitivity::FootAmp, 5);
    c.set_sensitivity(Sensitivity::FootEgBias, 3);
    assert_eq!(c.foot_volume_sens, 15);
    assert_eq!(c.foot_pitch_sens, 7);
    assert_eq!(c.foot_amp_sens, 5);
    assert_eq!(c.foot_eg_bias_sens, 3);
    c.set_sensitivity(Sensitivity::FootVolume, 40);
    assert_eq!(c.foot_volume_sens, 15);
    c.set_sensitivity(Sensitivity::AftertouchPitch, 40);
    assert_eq!(c.aftertouch_pitch_sens, 7);
}

#[test]
fn engine_bank_select_combines_with_program_change() {
    let mut c = EngineControls::new();
    c.set_bank_select_msb(1);
    c.set_bank_select_lsb(2);
    assert_eq!(c.bank_msb, 1);
    assert_eq!(c.bank_lsb, 2);
    assert_eq!(c.program_index(3), 16384 + 256 + 3);
    c.set_bank_select_msb(0x81);
    assert_eq!(c.bank_msb, 1);
    assert_eq!(c.program_index(0xFF), 16384 + 256 + 127);
}

#[test]
fn engine_load_preset_out_of_range_is_noop() {
    let mut c = EngineControls::new();
    assert!(c.select_preset(1, 2));
    assert_eq!(c.current_preset_index, 1);
    assert!(!c.select_preset(99, 2));
    assert_eq!(c.current_preset_index, 1);
    c.set_presets();
    assert_eq!(c.current_preset_index, 0);
}

#[test]
fn graph_connections_lists_links_row_by_row() {
    let mut links = [[false; 6]; 6];
    links[1][0] = true;
    links[5][5] = true;
    links[3][2] = true;
    let edges = graph_connections(&links);
    assert_eq!(
        edges,
        vec![
            Connection { from: 2, to: 1, is_feedback: false },
            Connection { from: 4, to: 3, is_feedback: false },
            Connection { from: 6, to: 6, is_feedback: true },
        ]
    );
    assert!(graph_connections(&[[false; 6]; 6]).is_empty());
}

#[test]
fn keyboard_rows_cover_two_octaves_from_the_selected_one() {
    assert_eq!(keyboard_note(4, 0), 60);
    assert_eq!(keyboard_note(0, 0), 12);
    assert_eq!(keyboard_note(7, 23), 119);
    assert_eq!(octave_up(4), 5);
    assert_eq!(octave_up(7), 7);
    assert_eq!(octave_down(0), 0);
    assert_eq!(octave_down(4), 3);
}

#[test]
fn lfo_parameter_codes_select_waveforms() {
    assert_eq!(synth_fm_rs::fm_synth::lfo_waveform_of_param(0), LFOWaveform::Triangle);
    assert_eq!(synth_fm_rs::fm_synth::lfo_waveform_of_param(4), LFOWaveform::Sine);
    assert_eq!(synth_fm_rs::fm_synth::lfo_waveform_of_param(5), LFOWaveform::SampleHold);
    assert_eq!(synth_fm_rs::fm_synth::lfo_waveform_of_param(9), LFOWaveform::SampleHold);
}
