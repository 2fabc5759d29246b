use synth_fm_rs::pitch_eg::{level_to_tab_units, rate_to_steps, PITCHENV_RATE, PITCHENV_TAB};

#[test]
fn rom_tables_have_expected_anchors() {
    assert_eq!(PITCHENV_TAB[50], 0);
    assert_eq!(PITCHENV_TAB[0], -128);
    assert_eq!(PITCHENV_TAB[99], 127);
    assert_eq!(PITCHENV_RATE[99], 255);
    assert!(PITCHENV_RATE[0] >= 1);
}

#[test]
fn level_table_rises_and_rate_table_never_falls() {
    for i in 1..100 {
        assert!(PITCHENV_TAB[i - 1] < PITCHENV_TAB[i]);
        assert!(PITCHENV_RATE[i - 1] <= PITCHENV_RATE[i]);
    }
}

#[test]
fn table_lookups_clamp_to_99() {
    assert_eq!(level_to_tab_units(50), 0);
    assert_eq!(level_to_tab_units(0), -128);
    assert_eq!(level_to_tab_units(99), 127);
    assert_eq!(level_to_tab_units(200), 127);
    assert_eq!(rate_to_steps(99), 255);
    assert_eq!(rate_to_steps(150), 255);
    assert_eq!(rate_to_steps(0), PITCHENV_RATE[0]);
}
