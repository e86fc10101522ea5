use glyph::models::entry::Entry;
use glyph::models::layout::Layout;
use glyph::models::section::Section;
use glyph::services::{sort_by_position, LocalEntryState, StateError};

fn entry(name: &str) -> Entry {
    Entry { entry_name: name.to_string(), sections: Vec::new(), layout: Layout::new("root") }
}

fn state(names: &[(i64, &str)]) -> LocalEntryState {
    let connection = rusqlite::Connection::open_in_memory().unwrap();
    LocalEntryState::new(connection, names.iter().map(|(id, n)| (*id, entry(n))).collect())
}

fn order(s: &LocalEntryState) -> Vec<(i64, String)> {
    s.ordered_entries.clone()
}

fn section_ids(s: &LocalEntryState, eid: i64) -> Vec<i64> {
    s.get_sections_sid(&eid)
}

#[test]
fn new_state_lists_entries_by_name_keeping_ties_in_order() {
    let s = state(&[(1, "b"), (2, "a"), (3, "b"), (4, "c")]);
    assert_eq!(
        order(&s),
        vec![(2, "a".to_string()), (1, "b".to_string()), (3, "b".to_string()), (4, "c".to_string())]
    );
    assert_eq!(s.active_entry_id, None);
    assert!(s.updated_entries.is_empty());
}

#[test]
fn reconstruct_sorts_a_reversed_list() {
    let mut s = state(&[(1, "c"), (2, "b"), (3, "a")]);
    s.ordered_entries.clear();
    s.reconstruct_entry_order();
    let ids: Vec<i64> = order(&s).iter().map(|p| p.0).collect();
    assert_eq!(ids, vec![3, 2, 1]);
}

#[test]
fn filter_keeps_matching_entries_in_entry_order() {
    let mut s = state(&[(1, "beta"), (2, "alpha"), (3, "abba"), (4, "gamma")]);
    s.filter_entry_order_by(|name: &str| name.contains("b"));
    assert_eq!(order(&s), vec![(1, "beta".to_string()), (3, "abba".to_string())]);
    s.filter_entry_order_by(|_: &str| false);
    assert!(order(&s).is_empty());
}

#[test]
fn toggling_the_same_entry_twice_restores_the_active_entry() {
    let mut s = state(&[(1, "a"), (2, "b")]);
    s.toggle_active_entry_id(2);
    assert_eq!(s.active_entry_id, Some(2));
    s.toggle_active_entry_id(2);
    assert_eq!(s.active_entry_id, None);
    s.toggle_active_entry_id(1);
    s.toggle_active_entry_id(2);
    assert_eq!(s.active_entry_id, Some(2));
}

#[test]
fn lookups_by_id() {
    let mut s = state(&[(5, "x"), (7, "y")]);
    assert_eq!(s.get_entry_ref(&7).unwrap().entry_name, "y");
    assert!(s.get_entry_ref(&6).is_none());
    assert!(s.get_active_entry_ref().is_none());
    s.toggle_active_entry_id(5);
    assert_eq!(s.get_active_entry_ref().unwrap().entry_name, "x");
    s.get_active_entry_mut().unwrap().entry_name = "z".to_string();
    assert_eq!(s.get_entry_ref(&5).unwrap().entry_name, "z");
    assert_eq!(s.get_num_sections(&5), 0);
    assert_eq!(s.get_num_sections(&99), 0);
}

#[test]
fn corrected_names_avoid_listed_names() {
    let s = state(&[(1, "notes"), (2, "notes (1)")]);
    assert_eq!(s.corrected_entry_name("notes"), "notes (2)");
    assert_eq!(s.corrected_entry_name("other"), "other");
}

#[test]
fn corrected_names_avoid_entries_a_filter_hides() {
    let mut s = state(&[(1, "notes"), (2, "ideas")]);
    s.filter_entry_order_by(|name: &str| name.starts_with('i'));
    assert_eq!(s.corrected_entry_name("notes"), "notes (1)");
    assert_eq!(s.corrected_entry_name("ideas"), "ideas (1)");
}

#[test]
fn add_and_rename_entries_keep_the_listing_sorted() {
    let mut s = state(&[(1, "m")]);
    s.add_entry(2, entry("a"));
    assert_eq!(order(&s), vec![(2, "a".to_string()), (1, "m".to_string())]);
    s.rename_entry(&2, &entry("z"));
    assert_eq!(order(&s), vec![(1, "m".to_string()), (2, "z".to_string())]);
    assert_eq!(s.get_entry_ref(&2).unwrap().entry_name, "z");
}

#[test]
fn removing_the_active_entry() {
    let mut s = state(&[(1, "a"), (2, "b")]);
    assert_eq!(s.remove_active_entry(), Err(StateError::NoActiveEntry));
    s.active_entry_id = Some(9);
    assert_eq!(s.remove_active_entry(), Err(StateError::EntryNotFound));
    assert_eq!(s.entries.len(), 2);
    s.active_entry_id = Some(1);
    assert_eq!(s.remove_active_entry(), Ok(1));
    assert_eq!(s.active_entry_id, None);
    assert_eq!(order(&s), vec![(2, "b".to_string())]);
}

#[test]
fn sections_of_an_entry() {
    let mut s = state(&[(1, "a")]);
    s.push_section(&1, 10, Section::new("t1", "c1", 2));
    s.push_section(&1, 11, Section::new("t2", "c2", 1));
    s.push_section(&1, 12, Section::new("t3", "c3", 2));
    assert_eq!(s.get_num_sections(&1), 3);
    assert_eq!(section_ids(&s, 1), vec![10, 11, 12]);
    assert_eq!(s.get_max_position_section(&1), 2);
    s.sort_sections_by_position(&1);
    assert_eq!(section_ids(&s, 1), vec![11, 10, 12]);
    assert_eq!(s.get_section_ref(&1, &12).unwrap().title, "t3");
    s.set_section_title(&1, &12, "renamed".to_string());
    assert_eq!(s.get_section_ref(&1, &12).unwrap().title, "renamed");
    assert!(s.get_section_ref(&1, &99).is_none());
}

#[test]
fn max_position_is_at_least_zero() {
    let mut s = state(&[(1, "a")]);
    assert_eq!(s.get_max_position_section(&1), 0);
    s.push_section(&1, 10, Section::new("t", "c", -5));
    assert_eq!(s.get_max_position_section(&1), 0);
}

#[test]
fn new_section_goes_after_the_last_position() {
    let mut s = state(&[(1, "a")]);
    assert_eq!(s.new_section_for_active_entry("t", "c").err(), Some(StateError::NoActiveEntry));
    s.toggle_active_entry_id(1);
    s.push_section(&1, 10, Section::new("x", "y", 4));
    let (eid, section) = s.new_section_for_active_entry("untitled", "Blank").unwrap();
    assert_eq!(eid, 1);
    assert_eq!((section.title.as_str(), section.content.as_str(), section.position), ("untitled", "Blank", 5));
}

#[test]
fn replace_and_remove_sections() {
    let mut s = state(&[(1, "a")]);
    s.push_section(&1, 10, Section::new("t1", "c1", 0));
    s.push_section(&1, 11, Section::new("t2", "c2", 1));
    assert_eq!(s.replace_section(&1, &99, Section::new("n", "n", 0)), Err(StateError::SectionNotFound));
    assert_eq!(s.replace_section(&1, &10, Section::new("new", "body", 0)), Ok(()));
    assert_eq!(section_ids(&s, 1), vec![11, 10]);
    assert_eq!(s.get_section_ref(&1, &10).unwrap().title, "new");
    assert_eq!(s.remove_section(&2, &10), Err(StateError::EntryNotFound));
    assert_eq!(s.remove_section(&1, &99), Err(StateError::SectionNotFound));
    assert_eq!(s.remove_section(&1, &11), Ok(()));
    assert_eq!(section_ids(&s, 1), vec![10]);
}

#[test]
fn set_layout_and_unsaved_marks() {
    let mut s = state(&[(1, "a")]);
    s.set_entry_layout(&1, Layout::new("new root"));
    assert_eq!(s.get_entry_ref(&1).unwrap().layout.label, "new root");
    s.set_entry_unsaved_state(1, true);
    assert!(s.updated_entries.contains(&1));
    s.set_entry_unsaved_state(1, false);
    assert!(!s.updated_entries.contains(&1));
}

#[test]
fn sort_by_position_is_stable() {
    let v = vec![
        (1, Section::new("a", "", 3)),
        (2, Section::new("b", "", 1)),
        (3, Section::new("c", "", 3)),
        (4, Section::new("d", "", -2)),
    ];
    let ids: Vec<i64> = sort_by_position(v).iter().map(|p| p.0).collect();
    assert_eq!(ids, vec![4, 2, 1, 3]);
}
