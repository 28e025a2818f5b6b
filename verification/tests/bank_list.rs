use xxsynth::banks::{add_bank, clear_banks, move_bank_down, move_bank_up, remove_bank};

fn list(names: &[&str]) -> Vec<String> {
    names.iter().map(|n| n.to_string()).collect()
}

#[test]
fn a_new_bank_goes_to_the_end() {
    let mut l = list(&["a", "b"]);
    assert!(add_bank(&mut l, "c".to_string()));
    assert_eq!(l, list(&["a", "b", "c"]));
    let mut e: Vec<String> = Vec::new();
    assert!(add_bank(&mut e, "x".to_string()));
    assert_eq!(e, list(&["x"]));
}

#[test]
fn clearing_tells_whether_anything_went() {
    let mut l = list(&["a", "b"]);
    assert!(clear_banks(&mut l));
    assert!(l.is_empty());
    assert!(!clear_banks(&mut l));
    assert!(l.is_empty());
}

#[test]
fn moving_up_exchanges_with_the_bank_above() {
    let mut l = list(&["a", "b", "c", "d"]);
    assert!(move_bank_up(&mut l, 2));
    assert_eq!(l, list(&["a", "c", "b", "d"]));
    assert!(move_bank_up(&mut l, 1));
    assert_eq!(l, list(&["c", "a", "b", "d"]));
    assert!(move_bank_up(&mut l, 3));
    assert_eq!(l, list(&["c", "a", "d", "b"]));
}

#[test]
fn the_first_bank_cannot_move_up() {
    let mut l = list(&["a", "b"]);
    assert!(!move_bank_up(&mut l, 0));
    assert_eq!(l, list(&["a", "b"]));
    assert!(!move_bank_up(&mut l, 2));
    assert!(!move_bank_up(&mut l, usize::MAX));
    assert_eq!(l, list(&["a", "b"]));
}

#[test]
fn moving_down_exchanges_with_the_bank_below() {
    let mut l = list(&["a", "b", "c", "d"]);
    assert!(move_bank_down(&mut l, 0));
    assert_eq!(l, list(&["b", "a", "c", "d"]));
    assert!(move_bank_down(&mut l, 2));
    assert_eq!(l, list(&["b", "a", "d", "c"]));
}

#[test]
fn the_last_bank_cannot_move_down() {
    let mut l = list(&["a", "b"]);
    assert!(!move_bank_down(&mut l, 1));
    assert!(!move_bank_down(&mut l, 2));
    assert!(!move_bank_down(&mut l, usize::MAX));
    assert_eq!(l, list(&["a", "b"]));
    let mut e: Vec<String> = Vec::new();
    assert!(!move_bank_down(&mut e, 0));
    assert!(!move_bank_up(&mut e, 0));
}

#[test]
fn moving_there_and_back_changes_nothing() {
    let original = list(&["a", "b", "c", "d", "e"]);
    for i in 1..original.len() {
        let mut l = original.clone();
        assert!(move_bank_up(&mut l, i));
        assert!(move_bank_down(&mut l, i - 1));
        assert_eq!(l, original);
    }
}

#[test]
fn removing_keeps_the_order_of_the_rest() {
    let mut l = list(&["a", "b", "c", "d"]);
    assert!(remove_bank(&mut l, 1));
    assert_eq!(l, list(&["a", "c", "d"]));
    assert!(remove_bank(&mut l, 2));
    assert_eq!(l, list(&["a", "c"]));
    assert!(remove_bank(&mut l, 0));
    assert_eq!(l, list(&["c"]));
    assert!(!remove_bank(&mut l, 1));
    assert_eq!(l, list(&["c"]));
    assert!(remove_bank(&mut l, 0));
    assert!(!remove_bank(&mut l, 0));
    assert!(l.is_empty());
}
