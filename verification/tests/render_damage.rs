use therminal_window::render::damage::{
    damage_rows_empty, damaged_rows_any, should_force_full_rebuild,
};

#[test]
fn damaged_rows_any_detects_nonempty_damage() {
    assert!(!damaged_rows_any(None));
    assert!(!damaged_rows_any(Some(&[])));
    assert!(!damaged_rows_any(Some(&[false, false])));
    assert!(damaged_rows_any(Some(&[false, true, false])));
}

#[test]
fn damage_rows_empty_detects_all_false_vectors() {
    assert!(!damage_rows_empty(None));
    assert!(damage_rows_empty(Some(&[])));
    assert!(damage_rows_empty(Some(&[false, false])));
    assert!(!damage_rows_empty(Some(&[false, true, false])));
}

#[test]
fn force_full_rebuild_whenever_cache_invalid() {
    assert!(should_force_full_rebuild(false, Some(&[])));
    assert!(should_force_full_rebuild(false, Some(&[false, false])));
    assert!(should_force_full_rebuild(false, Some(&[false, true])));
    assert!(should_force_full_rebuild(false, None));
    assert!(!should_force_full_rebuild(true, Some(&[false, false])));
    assert!(!should_force_full_rebuild(true, Some(&[false, true])));
    assert!(!should_force_full_rebuild(true, None));
}
