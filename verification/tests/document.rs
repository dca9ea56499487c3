use void_editor::document::{Document, OrderChange};

fn order(d: &Document) -> Vec<u64> {
    let mut ids = Vec::new();
    for i in 0..d.len() {
        ids.push(d.get_by_position(i).unwrap().0);
    }
    ids
}

fn document_of(n: u64) -> Document {
    let mut d = Document::new();
    for slot in 0..n {
        d.push(100 + slot);
    }
    d
}

#[test]
fn new_document_is_empty() {
    let d = Document::new();
    assert!(d.is_empty());
    assert_eq!(d.len(), 0);
    assert_eq!(d.get(0), None);
    assert_eq!(d.get_by_position(0), None);
}

#[test]
fn push_stores_under_counter_and_returns_advanced_counter() {
    let mut d = Document::new();
    assert_eq!(d.push(7), 1);
    assert_eq!(d.push(8), 2);
    assert_eq!(d.get(0), Some(7));
    assert_eq!(d.get(1), Some(8));
    assert_eq!(d.get(2), None);
    assert_eq!(d.len(), 2);
    assert!(d.contains(0));
    assert!(!d.contains(2));
}

#[test]
fn positions_follow_paint_order() {
    let d = document_of(3);
    assert_eq!(order(&d), vec![0, 1, 2]);
    assert_eq!(d.position_of(2), Some(2));
    assert_eq!(d.position_of(9), None);
    assert_eq!(d.get_by_position(1), Some((1, 101)));
}

#[test]
fn move_to_front_puts_element_first() {
    let mut d = document_of(4);
    assert!(d.move_to_front(2));
    assert_eq!(order(&d), vec![2, 0, 1, 3]);
    assert!(d.move_to_front(2));
    assert_eq!(order(&d), vec![2, 0, 1, 3]);
    assert!(!d.move_to_front(9));
    assert_eq!(order(&d), vec![2, 0, 1, 3]);
}

#[test]
fn move_to_back_puts_element_last() {
    let mut d = document_of(4);
    assert!(d.move_to_back(1));
    assert_eq!(order(&d), vec![0, 2, 3, 1]);
    assert!(d.move_to_back(1));
    assert_eq!(order(&d), vec![0, 2, 3, 1]);
    assert!(!d.move_to_back(9));
}

#[test]
fn move_up_and_down_swap_neighbours() {
    let mut d = document_of(3);
    assert!(d.move_up(0));
    assert_eq!(order(&d), vec![1, 0, 2]);
    assert!(d.move_down(0));
    assert_eq!(order(&d), vec![0, 1, 2]);
    assert!(!d.move_down(0));
    assert!(!d.move_up(2));
    assert!(!d.move_up(7));
    assert_eq!(order(&d), vec![0, 1, 2]);
}

#[test]
fn remove_shifts_the_rest() {
    let mut d = document_of(3);
    assert_eq!(d.remove(1), Some(101));
    assert_eq!(order(&d), vec![0, 2]);
    assert_eq!(d.remove(1), None);
    assert!(!d.contains(1));
    assert_eq!(d.len(), 2);
}

#[test]
fn clear_keeps_the_counter() {
    let mut d = document_of(2);
    d.clear();
    assert!(d.is_empty());
    assert_eq!(d.push(5), 3);
    assert_eq!(d.get(2), Some(5));
}

#[test]
fn default_document_is_empty() {
    let d = Document::default();
    assert!(d.is_empty());
}

#[test]
fn law_move_up_then_down_restores_order() {
    let mut d = document_of(5);
    let before = order(&d);
    assert!(d.move_up(2));
    assert!(d.move_down(2));
    assert_eq!(order(&d), before);
}

#[test]
fn law_reorder_keeps_entries_on_values() {
    let mut d = document_of(5);
    d.move_to_front(3);
    d.move_to_back(0);
    d.move_up(4);
    d.move_down(1);
    let mut ids = order(&d);
    ids.sort();
    assert_eq!(ids, vec![0, 1, 2, 3, 4]);
    for id in 0..5 {
        assert_eq!(d.get(id), Some(100 + id));
    }
}

#[test]
fn law_push_then_get_on_values() {
    let mut d = document_of(2);
    let r = d.push(42);
    assert_eq!(d.get(r - 1), Some(42));
    assert_eq!(d.get(r), None);
}

#[test]
fn law_remove_then_absent_on_values() {
    let mut d = document_of(3);
    d.remove(0);
    assert!(!d.contains(0));
    assert_eq!(d.len(), 2);
}

#[test]
fn order_changes_are_named() {
    assert_ne!(OrderChange::Up, OrderChange::Down);
}

#[test]
fn iter_and_values_follow_paint_order() {
    let mut d = document_of(3);
    d.move_to_front(2);
    assert_eq!(d.iter(), vec![(2, 102), (0, 100), (1, 101)]);
    assert_eq!(d.values(), vec![102, 100, 101]);
    assert_eq!(Document::new().iter(), Vec::<(u64, u64)>::new());
    assert_eq!(Document::new().values(), Vec::<u64>::new());
}

#[test]
fn hit_test_finds_topmost_hit() {
    let mut d = document_of(4);
    assert_eq!(d.hit_test(&vec![true, false, true, false]), Some(2));
    assert_eq!(d.hit_test(&vec![true, false, false, false]), Some(0));
    assert_eq!(d.hit_test(&vec![false, false, false, false]), None);
    d.move_to_back(0);
    assert_eq!(d.hit_test(&vec![true, false, true, true]), Some(0));
    assert_eq!(Document::new().hit_test(&vec![]), None);
}

#[test]
fn law_hit_is_topmost_on_values() {
    let d = document_of(3);
    let hits = vec![true, true, false];
    let id = d.hit_test(&hits).unwrap();
    let pos = d.position_of(id).unwrap();
    assert!(hits[pos]);
    assert!(hits[pos + 1..].iter().all(|h| !h));
}
