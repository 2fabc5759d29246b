use synth_fm_rs::lfo::LFOWaveform;
use synth_fm_rs::operator::KeyScaleCurve;
use synth_fm_rs::sysex::{
    compute_checksum, encode_single_voice, lfo_wave_from_dx7, lfo_wave_to_dx7, parse_message,
    parse_voice_name, Dx7Lfo, Dx7Operator, Dx7PitchEg, Dx7Voice, SysexError, SysexResult,
    VCED_LEN, VMEM_LEN, VMEM_VOICE_LEN, YAMAHA_ID,
};

fn make_test_voice() -> Dx7Voice {
    let mut operators = [Dx7Operator::default(); 6];
    operators[0].frequency_coarse = 2;
    operators[0].output_level = 99;
    operators[5].feedback = 5;
    operators[5].am_sensitivity = 2;
    Dx7Voice {
        name: "TEST PATCH".to_string(),
        collection: "test".to_string(),
        algorithm: 5,
        operators,
        transpose_semitones: 0,
        pitch_mod_sensitivity: 3,
        pitch_eg: Some(Dx7PitchEg::default()),
        lfo: Some(Dx7Lfo::default()),
    }
}

#[test]
fn checksum_matches_yamaha_two_complement() {
    assert_eq!(compute_checksum(&[0u8; 10]), 0);
    assert_eq!(compute_checksum(&[0x01]), 0x7F);
    assert_eq!(compute_checksum(&[0x20, 0x20]), 0x40);
}

#[test]
fn vced_roundtrip_preserves_core_fields() {
    let voice = make_test_voice();
    let bytes = encode_single_voice(&voice, 0);
    assert_eq!(bytes.len(), VCED_LEN + 8);
    assert_eq!(bytes[0], 0xF0);
    assert_eq!(bytes[1], YAMAHA_ID);
    assert_eq!(*bytes.last().unwrap(), 0xF7);

    let parsed = parse_message(&bytes).expect("parse_message");
    match parsed {
        SysexResult::SingleVoice(boxed) => {
            let p = *boxed;
            assert_eq!(p.algorithm, 5);
            assert_eq!(p.name, "TEST PATCH");
            assert_eq!(p.pitch_mod_sensitivity, 3);
            assert_eq!(p.operators[5].feedback, 5);
            assert_eq!(p.operators[5].am_sensitivity, 2);
            assert_eq!(p.operators[0].frequency_coarse, 2);
        }
        _ => panic!("expected SingleVoice"),
    }
}

#[test]
fn detects_invalid_framing() {
    let bytes = vec![0x00; 12];
    assert!(matches!(parse_message(&bytes), Err(SysexError::InvalidFraming)));
}

#[test]
fn detects_non_yamaha_id() {
    let mut bytes = vec![0u8; 12];
    bytes[0] = 0xF0;
    bytes[1] = 0x42;
    bytes[11] = 0xF7;
    assert!(matches!(parse_message(&bytes), Err(SysexError::NotYamaha(0x42))));
}

#[test]
fn detects_checksum_mismatch() {
    let voice = make_test_voice();
    let mut bytes = encode_single_voice(&voice, 0);
    let cs = bytes.len() - 2;
    bytes[cs] ^= 0x01;
    assert!(matches!(parse_message(&bytes), Err(SysexError::ChecksumMismatch { .. })));
}

#[test]
fn checksum_completes_the_sum_to_a_multiple_of_128() {
    let data: Vec<u8> = (0..200u32).map(|i| (i * 37 % 128) as u8).collect();
    let c = compute_checksum(&data);
    let sum: u32 = data.iter().map(|&b| b as u32).sum::<u32>() + c as u32;
    assert_eq!(sum % 128, 0);
    assert!(c < 128);
}

#[test]
fn every_error_variant_is_reachable() {
    assert!(matches!(parse_message(&[0xF0, 0x43, 0xF7]), Err(SysexError::TooShort)));
    let mut bytes = vec![0u8; 12];
    bytes[0] = 0xF0;
    bytes[1] = YAMAHA_ID;
    bytes[2] = 0x10;
    bytes[11] = 0xF7;
    assert!(matches!(parse_message(&bytes), Err(SysexError::UnsupportedSubStatus(0x10))));
    bytes[2] = 0x00;
    bytes[3] = 0x05;
    bytes[4] = 0x00;
    bytes[5] = 0x04;
    assert!(matches!(parse_message(&bytes), Err(SysexError::UnsupportedFormat(0x05))));
    bytes[5] = 0x05;
    assert!(matches!(
        parse_message(&bytes),
        Err(SysexError::LengthMismatch { declared: 5, actual: 4 })
    ));
    bytes[5] = 0x04;
    bytes[3] = 0x00;
    assert!(matches!(
        parse_message(&bytes),
        Err(SysexError::LengthMismatch { declared: 4, actual: 155 })
    ));
    let mut single = encode_single_voice(&make_test_voice(), 0);
    single[3] = 0x07;
    assert!(matches!(parse_message(&single), Err(SysexError::UnsupportedFormat(0x07))));
}

#[test]
fn encoded_voice_survives_a_dump_unchanged() {
    let mut voice = make_test_voice();
    voice.collection = "SysEx".to_string();
    voice.operators[5].oscillator_key_sync = true;
    for op in voice.operators.iter_mut() {
        op.oscillator_key_sync = true;
    }
    voice.operators[2].key_scale_left_curve = KeyScaleCurve::PosExp;
    voice.operators[3].detune = -5;
    voice.lfo = Some(Dx7Lfo { waveform: LFOWaveform::SampleHold, rate: 70, delay: 10, pitch_mod_depth: 4, amp_mod_depth: 9, key_sync: true });
    voice.transpose_semitones = -12;
    let bytes = encode_single_voice(&voice, 3);
    assert_eq!(bytes[2], 3);
    match parse_message(&bytes).expect("parse") {
        SysexResult::SingleVoice(p) => {
            assert_eq!(p.name, voice.name);
            assert_eq!(p.operators, voice.operators);
            assert_eq!(p.lfo, voice.lfo);
            assert_eq!(p.pitch_eg, voice.pitch_eg);
            assert_eq!(p.transpose_semitones, -12);
            assert_eq!(p.algorithm, 5);
            assert_eq!(p.collection, "SysEx");
        }
        _ => panic!("expected SingleVoice"),
    }
}

#[test]
fn bulk_dump_yields_thirty_two_voices() {
    let mut bytes = vec![0xF0, YAMAHA_ID, 0x00, 0x09, 0x20, 0x00];
    let mut data = vec![0u8; VMEM_LEN];
    for v in 0..32 {
        let base = v * VMEM_VOICE_LEN;
        data[base + 110] = (v as u8) & 0x1F;
        for k in 0..10 {
            data[base + 118 + k] = b'A' + (v as u8 % 26);
        }
    }
    let cs = compute_checksum(&data);
    bytes.extend_from_slice(&data);
    bytes.push(cs);
    bytes.push(0xF7);
    match parse_message(&bytes).expect("bulk") {
        SysexResult::Bulk(voices) => {
            assert_eq!(voices.len(), 32);
            assert_eq!(voices[0].algorithm, 1);
            assert_eq!(voices[31].algorithm, 32);
            assert_eq!(voices[1].name, "BBBBBBBBBB");
        }
        _ => panic!("expected Bulk"),
    }
}

#[test]
fn wave_codes_and_voice_names() {
    for code in 0..6u8 {
        assert_eq!(lfo_wave_to_dx7(lfo_wave_from_dx7(code)), code);
    }
    assert_eq!(lfo_wave_from_dx7(9), LFOWaveform::SawDown);
    assert_eq!(lfo_wave_from_dx7(6), LFOWaveform::SampleHold);
    assert_eq!(parse_voice_name(b"E.PIANO 1 "), "E.PIANO 1");
    assert_eq!(parse_voice_name(&[0xC1, 0x42]), "AB");
}

#[test]
fn pitch_eg_is_active_when_a_level_leaves_fifty() {
    let neutral = Dx7PitchEg::default();
    assert!(!neutral.is_active());
    let bent = Dx7PitchEg { level2: 60, ..neutral };
    assert!(bent.is_active());
}
