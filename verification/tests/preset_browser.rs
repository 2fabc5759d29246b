use synth_fm_rs::preset_browser::{collections_in_order, filter_presets};

fn strings(v: &[&str]) -> Vec<String> {
    v.iter().map(|s| s.to_string()).collect()
}

#[test]
fn collections_appear_once_in_first_seen_order() {
    let colls = strings(&["rom1", "mark", "rom1", "bass", "mark"]);
    assert_eq!(collections_in_order(&colls), strings(&["rom1", "mark", "bass"]));
    assert!(collections_in_order(&[]).is_empty());
}

#[test]
fn filter_keeps_collection_and_case_insensitive_name_matches() {
    let names = strings(&["E.PIANO 1", "Brass 1", "e.piano 2", "BASS 1", "Élan"]);
    let colls = strings(&["rom1", "rom1", "mark", "bass", "mark"]);
    assert_eq!(filter_presets(&names, &colls, "", None), vec![0, 1, 2, 3, 4]);
    assert_eq!(filter_presets(&names, &colls, "piano", None), vec![0, 2]);
    assert_eq!(filter_presets(&names, &colls, "PIANO", Some("mark")), vec![2]);
    assert_eq!(filter_presets(&names, &colls, "", Some("rom1")), vec![0, 1]);
    assert_eq!(filter_presets(&names, &colls, "ss 1", None), vec![1, 3]);
    assert_eq!(filter_presets(&names, &colls, "éLAN", None), vec![4]);
    assert_eq!(filter_presets(&names, &colls, "organ", None), Vec::<usize>::new());
    assert_eq!(filter_presets(&names, &colls, "", Some("none")), Vec::<usize>::new());
}
