//! Controller scenarios: intents in, state and effects out, with the
//! file-access collaborator mocked through the `*_finished` entry points.

use blaze::controller::{Blaze, Effect, Message, Status};
use blaze::tabs::{FileTab, Tab};

fn active_file(b: &Blaze) -> (u64, String, Option<String>) {
    let ix = b.tabs.active.expect("an active tab");
    let Tab::File(ft) = &b.tabs.data[ix];
    (ft.id, ft.text.clone(), ft.path.clone())
}

#[test]
fn new_documents_track_active() {
    let mut b = Blaze::new();
    assert_eq!(b.tabs.data.len(), 0);
    assert_eq!(b.tabs.active, None);
    for expected in 1..=3usize {
        let eff = b.update(Message::NewFile);
        assert!(matches!(eff, Effect::Nop));
        assert_eq!(b.tabs.data.len(), expected);
        assert_eq!(b.tabs.active, Some(expected - 1));
    }
    let (id, text, path) = active_file(&b);
    assert_eq!(id, 2);
    assert_eq!(text, "");
    assert_eq!(path, None);
    let ids: Vec<u64> = b
        .tabs
        .data
        .iter()
        .map(|t| {
            let Tab::File(ft) = t;
            ft.id
        })
        .collect();
    assert_eq!(ids, vec![0, 1, 2]);
}

#[test]
fn text_update_without_active_creates_one_tab() {
    let mut b = Blaze::new();
    let eff = b.update(Message::TextUpdate(String::from("hello")));
    assert!(matches!(eff, Effect::Nop));
    assert_eq!(b.tabs.data.len(), 1);
    assert_eq!(b.tabs.active, Some(0));
    let (_, text, path) = active_file(&b);
    assert_eq!(text, "hello");
    assert_eq!(path, None);
}

#[test]
fn text_update_replaces_active_text_wholesale() {
    let mut b = Blaze::new();
    b.update(Message::NewFile);
    b.update(Message::TextUpdate(String::from("first")));
    b.update(Message::TextUpdate(String::from("second")));
    assert_eq!(b.tabs.data.len(), 1);
    let (_, text, _) = active_file(&b);
    assert_eq!(text, "second");
}

#[test]
fn cancelled_open_changes_nothing() {
    let mut b = Blaze::new();
    b.update(Message::NewFile);
    b.update(Message::TextUpdate(String::from("kept")));
    let tabs_before = b.tabs.clone();
    let status_before = b.status;

    let eff = b.update(Message::OpenFile);
    assert!(matches!(eff, Effect::PickAndRead));
    assert_eq!(b.tabs, tabs_before);

    b.open_finished(None);
    assert_eq!(b.tabs, tabs_before);
    assert_eq!(b.status, status_before);
    assert!(!b.quitting);
}

#[test]
fn open_fills_active_tab() {
    let mut b = Blaze::new();
    b.update(Message::NewFile);
    let eff = b.update(Message::OpenFile);
    assert!(matches!(eff, Effect::PickAndRead));
    b.open_finished(Some((String::from("contents"), String::from("/tmp/f.txt"))));
    assert_eq!(b.tabs.data.len(), 1);
    let (_, text, path) = active_file(&b);
    assert_eq!(text, "contents");
    assert_eq!(path, Some(String::from("/tmp/f.txt")));
}

#[test]
fn open_without_active_tab_creates_one() {
    let mut b = Blaze::new();
    let eff = b.update(Message::OpenFile);
    assert!(matches!(eff, Effect::PickAndRead));
    b.open_finished(Some((String::from("data"), String::from("/tmp/g.txt"))));
    assert_eq!(b.tabs.data.len(), 1);
    assert_eq!(b.tabs.active, Some(0));
    let (_, text, path) = active_file(&b);
    assert_eq!(text, "data");
    assert_eq!(path, Some(String::from("/tmp/g.txt")));
}

#[test]
fn save_without_active_tab_is_a_no_op() {
    let mut b = Blaze::new();
    let eff = b.update(Message::Save);
    assert!(matches!(eff, Effect::Nop));
    let eff = b.update(Message::SaveAs);
    assert!(matches!(eff, Effect::Nop));
}

#[test]
fn save_on_pathless_tab_falls_back_to_save_as() {
    let mut b = Blaze::new();
    b.update(Message::NewFile);
    b.update(Message::TextUpdate(String::from("draft")));
    let eff = b.update(Message::Save);
    match eff {
        Effect::PickPathAndWrite { text, current_path } => {
            assert_eq!(text, "draft");
            assert_eq!(current_path, None);
        }
        other => panic!("expected a save-as request, got {:?}", other),
    }
}

#[test]
fn save_as_then_save_writes_identical_bytes_to_same_path() {
    let mut b = Blaze::new();
    b.update(Message::NewFile);
    b.update(Message::TextUpdate(String::from("hello")));
    let eff = b.update(Message::SaveAs);
    match eff {
        Effect::PickPathAndWrite { text, current_path } => {
            assert_eq!(text, "hello");
            assert_eq!(current_path, None);
        }
        other => panic!("expected a save-as request, got {:?}", other),
    }
    // The dialog picks a path and the write succeeds.
    b.save_path_chosen(String::from("/tmp/a.txt"));
    assert_eq!(b.status, Status::Saved);

    // A plain save now writes the same bytes to the same path.
    let eff = b.update(Message::Save);
    match eff {
        Effect::WriteFile { path, text } => {
            assert_eq!(path, "/tmp/a.txt");
            assert_eq!(text, "hello");
        }
        other => panic!("expected a write request, got {:?}", other),
    }
}

#[test]
fn scenario_new_edit_save_as() {
    // Zero tabs, then New, then Text-changed("hello"), then Save-As with the
    // collaborator succeeding on "/tmp/a.txt".
    let mut b = Blaze::new();
    assert_eq!(b.tabs.data.len(), 0);
    b.update(Message::NewFile);
    b.update(Message::TextUpdate(String::from("hello")));
    let eff = b.update(Message::SaveAs);
    assert!(matches!(eff, Effect::PickPathAndWrite { .. }));
    b.save_path_chosen(String::from("/tmp/a.txt"));

    assert_eq!(b.tabs.data.len(), 1);
    let (_, text, path) = active_file(&b);
    assert_eq!(text, "hello");
    assert_eq!(path, Some(String::from("/tmp/a.txt")));
}

#[test]
fn save_failure_is_surfaced() {
    let mut b = Blaze::new();
    b.update(Message::NewFile);
    b.save_finished(false);
    assert_eq!(b.status, Status::SaveFailed);
    b.save_finished(true);
    assert_eq!(b.status, Status::Saved);
}

#[test]
fn quit_closes_window_and_stops_processing() {
    let mut b = Blaze::new();
    b.update(Message::NewFile);
    let eff = b.update(Message::Quit);
    assert!(matches!(eff, Effect::CloseWindow));
    assert!(b.quitting);
    let eff = b.update(Message::NewFile);
    assert!(matches!(eff, Effect::Nop));
    assert_eq!(b.tabs.data.len(), 1);
}

#[test]
fn stale_tab_identities_are_no_ops() {
    let mut b = Blaze::new();
    b.update(Message::NewFile);
    let tabs_before = b.tabs.clone();
    b.update(Message::TabSelected(99));
    assert_eq!(b.tabs, tabs_before);
    b.update(Message::TabClosed(99));
    assert_eq!(b.tabs, tabs_before);
}

#[test]
fn open_folder_requests_picker_only() {
    let mut b = Blaze::new();
    let tabs_before = b.tabs.clone();
    let eff = b.update(Message::OpenFolder);
    assert!(matches!(eff, Effect::PickFolder));
    assert_eq!(b.tabs, tabs_before);
}

#[test]
fn tab_new_appends_with_a_fresh_identity() {
    let mut b = Blaze::new();
    b.update(Message::NewFile);
    let eff = b.update(Message::TabNew(FileTab {
        id: 0, // replaced on insertion
        text: String::from("carried"),
        path: Some(String::from("/tmp/c.txt")),
    }));
    assert!(matches!(eff, Effect::Nop));
    assert_eq!(b.tabs.data.len(), 2);
    assert_eq!(b.tabs.active, Some(1));
    let (id, text, path) = active_file(&b);
    assert_eq!(id, 1);
    assert_eq!(text, "carried");
    assert_eq!(path, Some(String::from("/tmp/c.txt")));
}

#[test]
fn title_names_the_editor() {
    let b = Blaze::new();
    assert_eq!(b.title(), "code editor");
}
