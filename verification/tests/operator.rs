use synth_fm_rs::operator::KeyScaleCurve;

#[test]
fn key_scale_curve_from_dx7_code() {
    assert_eq!(KeyScaleCurve::from_dx7_code(0), KeyScaleCurve::NegLin);
    assert_eq!(KeyScaleCurve::from_dx7_code(1), KeyScaleCurve::NegExp);
    assert_eq!(KeyScaleCurve::from_dx7_code(2), KeyScaleCurve::PosExp);
    assert_eq!(KeyScaleCurve::from_dx7_code(3), KeyScaleCurve::PosLin);
    assert_eq!(KeyScaleCurve::from_dx7_code(99), KeyScaleCurve::PosLin);
}

#[test]
fn key_scale_curve_to_dx7_code_roundtrips() {
    for code in 0..4u8 {
        assert_eq!(KeyScaleCurve::from_dx7_code(code).to_dx7_code(), code);
    }
}

#[test]
fn key_scale_curve_from_str_handles_aliases() {
    assert_eq!(KeyScaleCurve::from_str("-lin"), KeyScaleCurve::NegLin);
    assert_eq!(KeyScaleCurve::from_str("NEGLIN"), KeyScaleCurve::NegLin);
    assert_eq!(KeyScaleCurve::from_str("LinDown"), KeyScaleCurve::NegLin);
    assert_eq!(KeyScaleCurve::from_str("-exp"), KeyScaleCurve::NegExp);
    assert_eq!(KeyScaleCurve::from_str("ExpDown"), KeyScaleCurve::NegExp);
    assert_eq!(KeyScaleCurve::from_str("+exp"), KeyScaleCurve::PosExp);
    assert_eq!(KeyScaleCurve::from_str("ExpUp"), KeyScaleCurve::PosExp);
    assert_eq!(KeyScaleCurve::from_str("garbage"), KeyScaleCurve::PosLin);
}

#[test]
fn key_scale_curve_default_is_negative_linear() {
    assert_eq!(KeyScaleCurve::default(), KeyScaleCurve::NegLin);
}

#[test]
fn key_scale_curve_codes_round_trip_through_curves() {
    for curve in [
        KeyScaleCurve::NegLin,
        KeyScaleCurve::NegExp,
        KeyScaleCurve::PosExp,
        KeyScaleCurve::PosLin,
    ] {
        assert_eq!(KeyScaleCurve::from_dx7_code(curve.to_dx7_code()), curve);
    }
    assert_eq!(KeyScaleCurve::NegLin.to_dx7_code(), 0);
    assert_eq!(KeyScaleCurve::PosLin.to_dx7_code(), 3);
    assert_eq!(KeyScaleCurve::from_dx7_code(4), KeyScaleCurve::PosLin);
}
