use synth_fm_rs::algorithm_matrix::{graph_connections, Connection};
use synth_fm_rs::algorithm_migration::{carrier_mask, link_matrix, AlgorithmMigrator};

#[test]
fn library_holds_thirty_five_numbered_algorithms() {
    let library = AlgorithmMigrator::create_full_dx7_library();
    assert_eq!(library.len(), 35);
    for (i, def) in library.iter().enumerate() {
        assert_eq!(def.number as usize, i + 1);
        assert!(def.name.starts_with(&format!("{}: ", i + 1)));
        assert!(!def.carriers.is_empty());
        for &c in &def.carriers {
            assert!((1..=6).contains(&c));
        }
        for &(f, t) in &def.connections {
            assert!((1..=6).contains(&f) && (1..=6).contains(&t));
        }
    }
    assert_eq!(library[0].name, "1: Two Stacks");
    assert_eq!(library[17].carriers, vec![1, 2, 3, 4, 5, 6]);
    assert_eq!(library[34].connections, vec![(3, 1), (4, 2), (5, 3), (6, 4), (1, 6), (2, 5)]);
}

#[test]
fn carrier_mask_marks_named_operators() {
    assert_eq!(carrier_mask(&[1, 3]), [true, false, true, false, false, false]);
    assert_eq!(carrier_mask(&[0, 7, 6]), [false, false, false, false, false, true]);
    assert_eq!(carrier_mask(&[]), [false; 6]);
}

#[test]
fn link_matrix_round_trips_through_graph_connections() {
    let library = AlgorithmMigrator::create_full_dx7_library();
    let links = link_matrix(&library[0].connections);
    assert!(links[1][0]);
    assert!(links[5][5]);
    assert!(!links[0][1]);
    let edges = graph_connections(&links);
    assert_eq!(
        edges,
        vec![
            Connection { from: 2, to: 1, is_feedback: false },
            Connection { from: 4, to: 3, is_feedback: false },
            Connection { from: 5, to: 4, is_feedback: false },
            Connection { from: 6, to: 5, is_feedback: false },
            Connection { from: 6, to: 6, is_feedback: true },
        ]
    );
    let ignored = link_matrix(&[(0, 1), (7, 2), (3, 9)]);
    assert_eq!(ignored, [[false; 6]; 6]);
}
