use synth_fm_rs::algorithms::{get_algorithm_info, get_algorithm_name};

#[test]
fn every_algorithm_info_is_self_consistent() {
    for alg in 1..=32u8 {
        let info = get_algorithm_info(alg);
        assert!(!info.carriers.is_empty(), "alg {alg} has no carriers");
        for &c in &info.carriers {
            assert!((1..=6).contains(&c), "alg {alg} has invalid carrier {c}");
        }
        for (from, to) in &info.connections {
            assert!((1..=6).contains(from), "alg {alg} connection from {from}");
            assert!((1..=6).contains(to), "alg {alg} connection to {to}");
        }
        assert!(info.feedback_op <= 6, "alg {alg} bad feedback_op {}", info.feedback_op);
    }
}

#[test]
fn invalid_algorithm_info_falls_back_to_one() {
    let one = get_algorithm_info(1);
    let invalid = get_algorithm_info(0);
    assert_eq!(one.carriers, invalid.carriers);
    assert_eq!(one.feedback_op, invalid.feedback_op);
}

#[test]
fn algorithm_5_has_three_carriers() {
    let info = get_algorithm_info(5);
    assert_eq!(info.carriers, vec![1, 3, 5]);
}

#[test]
fn algorithm_32_has_all_carriers() {
    let info = get_algorithm_info(32);
    assert_eq!(info.carriers, vec![1, 2, 3, 4, 5, 6]);
    assert!(info.connections.is_empty());
}

#[test]
fn every_algorithm_has_a_name() {
    for alg in 1..=32u8 {
        let name = get_algorithm_name(alg);
        assert!(!name.is_empty(), "alg {alg} has empty name");
        assert!(
            name.starts_with(&format!("{}:", alg)),
            "alg {alg} name '{name}' should start with the number"
        );
    }
}

#[test]
fn invalid_algorithm_name_falls_back_to_one() {
    assert_eq!(get_algorithm_name(0), get_algorithm_name(1));
    assert_eq!(get_algorithm_name(99), get_algorithm_name(1));
}

#[test]
fn carriers_are_exactly_the_operators_that_modulate_nothing() {
    for alg in 1..=32u8 {
        let info = get_algorithm_info(alg);
        for op in 1..=6u8 {
            let modulates = info.connections.iter().any(|&(from, _)| from == op);
            assert_eq!(info.carriers.contains(&op), !modulates, "alg {alg} op {op}");
        }
        for &(from, to) in &info.connections {
            assert!(from > to, "alg {alg}: {from} -> {to} should point down");
        }
        for pair in info.carriers.windows(2) {
            assert!(pair[0] < pair[1]);
        }
        assert!((1..=6).contains(&info.feedback_op));
    }
}

#[test]
fn algorithm_1_routing_is_exact() {
    let info = get_algorithm_info(1);
    assert_eq!(info.carriers, vec![1, 3]);
    assert_eq!(info.connections, vec![(2, 1), (4, 3), (5, 4), (6, 5)]);
    assert_eq!(info.feedback_op, 6);
    assert!(get_algorithm_name(1).starts_with("1:"));
    assert!(get_algorithm_name(32).starts_with("32:"));
}
