use thatsit::focus::{Focus, FocusList, FocusState};

#[test]
fn three_forward_steps_from_one_return_to_one() {
    let mut list = FocusList::new(vec!["a", "b", "c"]);
    assert!(list.select(1));
    assert!(list.select_next());
    assert!(list.select_next());
    assert!(list.select_next());
    assert_eq!(list.selected(), Some(1));
    assert_eq!(list.get(), Some(&"b"));
}

#[test]
fn select_next_cycles_through_every_item() {
    let mut list = FocusList::new(vec![10, 20, 30, 40]);
    assert!(list.select(2));
    for _ in 0..list.len() {
        assert!(list.select_next());
    }
    assert_eq!(list.selected(), Some(2));
}

#[test]
fn navigation_on_empty_list_fails_without_panic() {
    let mut list: FocusList<u8> = FocusList::new(vec![]);
    assert!(!list.select_next());
    assert!(!list.select_prev());
    assert!(!list.select(0));
    assert_eq!(list.selected(), None);
    list.state = FocusState(false, Some(0));
    assert!(!list.select_next());
    assert!(!list.select_prev());
    assert_eq!(list.get(), None);
}

#[test]
fn select_then_get_returns_item_at_index() {
    let mut list = FocusList::new(vec!["x", "y", "z"]);
    assert!(list.select(2));
    assert_eq!(list.get(), Some(&"z"));
    assert!(!list.select(3));
    assert_eq!(list.selected(), Some(2));
}

#[test]
fn replace_clears_selection() {
    let mut list = FocusList::new(vec![1, 2, 3]);
    assert!(list.select(1));
    list.replace(vec![7, 8]);
    assert_eq!(list.selected(), None);
    assert_eq!(list.len(), 2);
    assert_eq!(list.get(), None);
}

#[test]
fn select_prev_wraps_to_last() {
    let mut list = FocusList::new(vec!['p', 'q', 'r']);
    assert!(list.select_prev());
    assert_eq!(list.selected(), Some(0));
    assert!(list.select_prev());
    assert_eq!(list.selected(), Some(2));
    assert!(list.select_prev());
    assert_eq!(list.selected(), Some(1));
}

#[test]
fn push_keeps_selection_and_focus_toggles() {
    let mut list = FocusList::default();
    list.push("one");
    assert!(list.select_next());
    list.push("two");
    assert_eq!(list.selected(), Some(0));
    assert!(list.focus());
    assert!(list.state.0);
    assert!(list.unfocus());
    assert!(!list.state.0);
    assert!(list.unselect());
    assert_eq!(list.selected(), None);
}

#[test]
fn iter_walks_items_in_order() {
    let list = FocusList::new(vec![3, 1, 2]);
    let walked: Vec<i32> = list.iter().copied().collect();
    assert_eq!(walked, vec![3, 1, 2]);
}

#[test]
fn get_mut_changes_selected_item() {
    let mut list = FocusList::new(vec![String::from("a"), String::from("b")]);
    assert!(list.get_mut().is_none());
    assert!(list.select(1));
    list.get_mut().unwrap().push('!');
    assert_eq!(list.get(), Some(&String::from("b!")));
    assert_eq!(list.items()[0], "a");
}
