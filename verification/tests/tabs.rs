//! The tab collection's primitives: creation, lookup, mutation, removal,
//! and the active-index policy on closure.

use blaze::tabs::{FileTab, Tab, Tabs, TabsError};

fn tab(text: &str, path: Option<&str>) -> FileTab {
    FileTab { id: 0, text: String::from(text), path: path.map(String::from) }
}

fn id_at(t: &Tabs, ix: usize) -> u64 {
    let Tab::File(ft) = &t.data[ix];
    ft.id
}

fn text_at(t: &Tabs, ix: usize) -> String {
    let Tab::File(ft) = &t.data[ix];
    ft.text.clone()
}

#[test]
fn push_assigns_fresh_identities_and_activates() {
    let mut t = Tabs::default();
    let i0 = t.push(tab("a", None));
    let i1 = t.push(tab("b", None));
    assert_eq!((i0, i1), (0, 1));
    assert_eq!(t.active, Some(1));
    assert_eq!(id_at(&t, 0), 0);
    assert_eq!(id_at(&t, 1), 1);
    // The identity a pushed tab carried is replaced by a fresh one.
    let mut forged = tab("c", None);
    forged.id = 0;
    t.push(forged);
    assert_eq!(id_at(&t, 2), 2);
}

#[test]
fn get_active_is_none_only_when_empty() {
    let mut t = Tabs::default();
    assert!(t.get_active().is_none());
    t.push(tab("a", None));
    let Some(Tab::File(ft)) = t.get_active() else {
        panic!("expected an active tab");
    };
    assert_eq!(ft.text, "a");
}

#[test]
fn set_text_rejects_an_invalid_index() {
    let mut t = Tabs::default();
    t.push(tab("a", None));
    assert_eq!(t.set_text(1, String::from("x")), Err(TabsError::InvalidIndex));
    assert_eq!(t.set_path(1, None), Err(TabsError::InvalidIndex));
    assert_eq!(text_at(&t, 0), "a");
    assert_eq!(t.set_text(0, String::from("x")), Ok(()));
    assert_eq!(text_at(&t, 0), "x");
}

#[test]
fn set_path_replaces_only_the_path() {
    let mut t = Tabs::default();
    t.push(tab("a", None));
    assert_eq!(t.set_path(0, Some(String::from("/tmp/a.txt"))), Ok(()));
    let Tab::File(ft) = &t.data[0];
    assert_eq!(ft.path.as_deref(), Some("/tmp/a.txt"));
    assert_eq!(ft.text, "a");
    assert_eq!(ft.id, 0);
}

#[test]
fn select_moves_active_by_identity() {
    let mut t = Tabs::default();
    t.push(tab("a", None));
    t.push(tab("b", None));
    t.push(tab("c", None));
    t.select(0);
    assert_eq!(t.active, Some(0));
    t.select(2);
    assert_eq!(t.active, Some(2));
    // A stale identity is a no-op.
    t.select(7);
    assert_eq!(t.active, Some(2));
}

#[test]
fn closing_the_only_tab_clears_the_active_index() {
    let mut t = Tabs::default();
    t.push(tab("a", None));
    t.close(0);
    assert_eq!(t.data.len(), 0);
    assert_eq!(t.active, None);
}

#[test]
fn closing_a_non_active_tab_keeps_the_active_tab() {
    let mut t = Tabs::default();
    t.push(tab("a", None));
    t.push(tab("b", None));
    t.push(tab("c", None));
    t.select(1);

    // Closing a tab after the active one: the index does not move.
    t.close(2);
    assert_eq!(t.active, Some(1));
    assert_eq!(text_at(&t, 1), "b");

    // Closing a tab before the active one: the index shifts down but the
    // identity-resolved content is unchanged.
    t.close(0);
    assert_eq!(t.active, Some(0));
    assert_eq!(text_at(&t, 0), "b");
}

#[test]
fn closing_the_active_tab_selects_the_tab_before_it() {
    let mut t = Tabs::default();
    t.push(tab("a", None));
    t.push(tab("b", None));
    t.push(tab("c", None));
    assert_eq!(t.active, Some(2));
    t.close(2);
    assert_eq!(t.active, Some(1));
    assert_eq!(text_at(&t, 1), "b");

    // Closing the active first tab selects the new first tab.
    t.select(0);
    t.close(0);
    assert_eq!(t.active, Some(0));
    assert_eq!(text_at(&t, 0), "b");
}

#[test]
fn closing_a_stale_identity_is_a_no_op() {
    let mut t = Tabs::default();
    t.push(tab("a", None));
    let before = t.clone();
    t.close(42);
    assert_eq!(t, before);
}

#[test]
fn default_tab_is_empty_and_unsaved() {
    let ft = FileTab::default();
    assert_eq!(ft.text, "");
    assert_eq!(ft.path, None);
}
