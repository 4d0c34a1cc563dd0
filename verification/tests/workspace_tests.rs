use sims_core::data::TabId;
use sims_core::workspace::Workspace;

fn shelf(name: &str) -> TabId {
    TabId::ShelfView(name.to_string())
}

#[test]
fn starts_with_the_two_singleton_tabs() {
    let w = Workspace::new();
    let tabs = w.tabs_in_order();
    assert_eq!(tabs.len(), 2);
    assert!(tabs[0] == TabId::AllShelves);
    assert!(tabs[1] == TabId::AllItems);
}

#[test]
fn current_falls_back_to_all_shelves() {
    let w = Workspace::new();
    assert!(w.current() == TabId::AllShelves);
}

#[test]
fn open_appends_new_tabs_once() {
    let mut w = Workspace::new();
    w.open(shelf("a"));
    w.open(shelf("b"));
    w.open(shelf("a"));
    let tabs = w.tabs_in_order();
    assert_eq!(tabs.len(), 4);
    assert!(tabs[2] == shelf("a"));
    assert!(tabs[3] == shelf("b"));
}

#[test]
fn navigate_changes_current() {
    let mut w = Workspace::new();
    w.open(shelf("a"));
    w.navigate_to(shelf("a"));
    assert!(w.current() == shelf("a"));
    w.navigate_to(TabId::AllItems);
    assert!(w.current() == TabId::AllItems);
}

#[test]
fn singletons_cannot_be_closed() {
    let mut w = Workspace::new();
    w.navigate_to(TabId::AllItems);
    w.close(&TabId::AllShelves);
    w.close(&TabId::AllItems);
    let tabs = w.tabs_in_order();
    assert_eq!(tabs.len(), 2);
    assert!(w.current() == TabId::AllItems);
}

#[test]
fn close_removes_every_occurrence_from_the_stack() {
    let mut w = Workspace::new();
    w.open(shelf("x"));
    w.navigate_to(shelf("x"));
    w.navigate_to(TabId::AllItems);
    w.navigate_to(shelf("x"));
    w.navigate_to(shelf("x"));
    w.close(&shelf("x"));
    // every occurrence is gone, not only the most recent: the remaining
    // top is the tab visited between them
    assert!(w.current() == TabId::AllItems);
    let tabs = w.tabs_in_order();
    assert_eq!(tabs.len(), 2);
    assert!(!w.contains(&shelf("x")));
}

#[test]
fn close_of_everything_visited_falls_back() {
    let mut w = Workspace::new();
    w.open(shelf("only"));
    w.navigate_to(shelf("only"));
    w.close(&shelf("only"));
    assert!(w.current() == TabId::AllShelves);
}

#[test]
fn close_keeps_other_tabs_in_order() {
    let mut w = Workspace::new();
    w.open(shelf("a"));
    w.open(shelf("b"));
    w.open(shelf("c"));
    w.close(&shelf("b"));
    let tabs = w.tabs_in_order();
    assert_eq!(tabs.len(), 4);
    assert!(tabs[2] == shelf("a"));
    assert!(tabs[3] == shelf("c"));
}
