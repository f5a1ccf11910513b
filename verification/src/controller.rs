//! The application controller: the single mutation point for user intents.
//! Each intent is handled atomically into the next state plus the side
//! effect the front end must perform (open a dialog, write a file, close
//! the window). Dialog and I/O outcomes come back through the `*_finished`
//! and `*_chosen` entry points; a cancelled dialog changes nothing, and an
//! I/O failure is surfaced in the status rather than dropped.

use vstd::prelude::*;

use crate::tabs::FileTab;
use crate::tabs::Tab;
use crate::tabs::TabModel;
use crate::tabs::Tabs;
use crate::tabs::TabsModel;
use crate::tabs::path_view;
use crate::tabs::spec_close;
use crate::tabs::spec_push;
use crate::tabs::spec_select;
use crate::tabs::spec_set_path;
use crate::tabs::spec_set_text;

verus! {

/// A user intent, as the presentation layer reports it.
#[derive(Debug, Clone)]
pub enum Message {
    /// The editing surface's content was replaced wholesale.
    TextUpdate(String),
    /// Menu bar: create a new empty document.
    NewFile,
    /// Menu bar: pick a file and open it.
    OpenFile,
    /// Menu bar: pick a folder.
    OpenFolder,
    /// Menu bar: write the active document to its path.
    Save,
    /// Menu bar: pick a path and write the active document there.
    SaveAs,
    /// Menu bar: leave the application.
    Quit,
    /// Append a tab holding the given text and path.
    TabNew(FileTab),
    /// The tab with this identity was clicked.
    TabSelected(u64),
    /// The tab with this identity was closed.
    TabClosed(u64),
}

/// The side effect the front end must perform after an intent was handled.
#[derive(Debug)]
pub enum Effect {
    /// Nothing to do.
    Nop,
    /// Open a file picker, read the picked file, and report the outcome
    /// through `Blaze::open_finished`.
    PickAndRead,
    /// Open a folder picker.
    PickFolder,
    /// Write `text` to `path` and report the outcome through
    /// `Blaze::save_finished`.
    WriteFile { path: String, text: String },
    /// Open a save dialog seeded with `current_path`, write `text` to the
    /// chosen path, and report the outcome through
    /// `Blaze::save_path_chosen` or `Blaze::save_finished`.
    PickPathAndWrite { text: String, current_path: Option<String> },
    /// Close the window; no further intents are processed.
    CloseWindow,
}

/// What the user should currently be told about saving.
#[derive(Debug, Clone, Copy, PartialEq, Eq, Structural)]
pub enum Status {
    /// No save outcome to report.
    Idle,
    /// The last save completed.
    Saved,
    /// The last save failed; the document is still only in memory.
    SaveFailed,
}

/// The spec-level value of the whole controller state.
#[verifier::ext_equal]
pub struct StateModel {
    /// The open tabs and the active-tab pointer.
    pub tabs: TabsModel,
    /// The save status shown to the user.
    pub status: Status,
    /// Whether termination has been signalled.
    pub quitting: bool,
}

/// The controller: owns the tab collection, the save status, and the
/// quit flag.
#[derive(Debug)]
pub struct Blaze {
    pub tabs: Tabs,
    pub status: Status,
    pub quitting: bool,
}

impl View for Blaze {
    type V = StateModel;

    open spec fn view(&self) -> StateModel {
        StateModel { tabs: self.tabs@, status: self.status, quitting: self.quitting }
    }
}

/// The same state with another tab collection.
pub open spec fn with_tabs(s: StateModel, tm: TabsModel) -> StateModel {
    StateModel { tabs: tm, status: s.status, quitting: s.quitting }
}

/// Handling a new-document intent: one fresh empty tab, which becomes
/// active.
pub open spec fn spec_new_file(s: StateModel) -> StateModel {
    with_tabs(s, spec_push(s.tabs, Seq::<char>::empty(), Option::None))
}

/// Handling a text-changed intent: the active tab's text is replaced
/// wholesale; with no active tab, one fresh tab is created and assigned the
/// given text.
pub open spec fn spec_text_update(s: StateModel, text: Seq<char>) -> StateModel {
    match s.tabs.active {
        Option::Some(a) => with_tabs(s, spec_set_text(s.tabs, a, text)),
        Option::None => with_tabs(s, spec_push(s.tabs, text, Option::None)),
    }
}

/// Handling a successful pick-and-read: the active tab (a fresh one when
/// none was active) takes the picked file's contents and location.
pub open spec fn spec_opened(s: StateModel, text: Seq<char>, path: Seq<char>) -> StateModel {
    match s.tabs.active {
        Option::Some(a) => with_tabs(
            s,
            spec_set_path(spec_set_text(s.tabs, a, text), a, Option::Some(path)),
        ),
        Option::None => with_tabs(s, spec_push(s.tabs, text, Option::Some(path))),
    }
}

/// What a save intent would write right now: the active tab's path and
/// text, or nothing when there is no active tab or it has never been
/// saved (a path-less tab falls back to save-as instead).
pub open spec fn spec_save_request(s: StateModel) -> Option<(Seq<char>, Seq<char>)> {
    match s.tabs.active {
        Option::Some(a) => match s.tabs.tabs[a].path {
            Option::Some(p) => Option::Some((p, s.tabs.tabs[a].text)),
            Option::None => Option::None,
        },
        Option::None => Option::None,
    }
}

/// Handling a successful save-as: the active tab's path moves to the
/// chosen location and the save is reported; with no active tab, nothing
/// changes.
pub open spec fn spec_path_chosen(s: StateModel, path: Seq<char>) -> StateModel {
    match s.tabs.active {
        Option::Some(a) => StateModel {
            tabs: spec_set_path(s.tabs, a, Option::Some(path)),
            status: Status::Saved,
            quitting: s.quitting,
        },
        Option::None => s,
    }
}

/// Recording a save outcome in the status; nothing else changes.
pub open spec fn spec_save_finished(s: StateModel, ok: bool) -> StateModel {
    StateModel {
        tabs: s.tabs,
        status: if ok {
            Status::Saved
        } else {
            Status::SaveFailed
        },
        quitting: s.quitting,
    }
}

impl Blaze {
    /// A controller with no tabs, nothing to report, and no quit signalled.
    pub fn new() -> (b: Blaze)
        ensures
            b@ == (StateModel {
                tabs: TabsModel { tabs: Seq::<TabModel>::empty(), active: Option::None, next_id: 0 },
                status: Status::Idle,
                quitting: false,
            }),
            b@.tabs.wf(),
    {
        Blaze { tabs: Tabs::default(), status: Status::Idle, quitting: false }
    }

    /// The window title.
    pub fn title(&self) -> (t: String)
        ensures
            t@ == "code editor"@,
    {
        "code editor".to_owned()
    }

    /// Handles one intent atomically: mutates the state and returns the
    /// side effect the front end must perform. After a quit intent every
    /// further intent is ignored.
    pub fn update(&mut self, msg: Message) -> (eff: Effect)
        requires
            old(self)@.tabs.wf(),
            (!old(self)@.quitting && (msg is NewFile || msg is TabNew || (msg is TextUpdate
                && old(self)@.tabs.active is None))) ==> old(self)@.tabs.next_id < u64::MAX,
        ensures
            final(self)@.tabs.wf(),
            old(self)@.quitting ==> final(self)@ == old(self)@ && eff is Nop,
            !old(self)@.quitting ==> {
                &&& msg matches Message::TextUpdate(t) ==> final(self)@ == spec_text_update(
                    old(self)@,
                    t@,
                ) && eff is Nop
                &&& msg is NewFile ==> final(self)@ == spec_new_file(old(self)@) && eff is Nop
                &&& msg is OpenFile ==> final(self)@ == old(self)@ && eff is PickAndRead
                &&& msg is OpenFolder ==> final(self)@ == old(self)@ && eff is PickFolder
                &&& msg is Save ==> final(self)@ == old(self)@ && (match spec_save_request(
                    old(self)@,
                ) {
                    Option::Some(req) => eff matches Effect::WriteFile { path, text } && path@
                        == req.0 && text@ == req.1,
                    Option::None => match old(self)@.tabs.active {
                        Option::Some(a) => eff matches Effect::PickPathAndWrite {
                            text,
                            current_path,
                        } && text@ == old(self)@.tabs.tabs[a].text && current_path is None,
                        Option::None => eff is Nop,
                    },
                })
                &&& msg is SaveAs ==> final(self)@ == old(self)@ && (match old(self)@.tabs.active {
                    Option::Some(a) => eff matches Effect::PickPathAndWrite { text, current_path }
                        && text@ == old(self)@.tabs.tabs[a].text && path_view(current_path)
                        == old(self)@.tabs.tabs[a].path,
                    Option::None => eff is Nop,
                })
                &&& msg is Quit ==> final(self)@ == (StateModel {
                    tabs: old(self)@.tabs,
                    status: old(self)@.status,
                    quitting: true,
                }) && eff is CloseWindow
                &&& msg matches Message::TabNew(t) ==> final(self)@ == with_tabs(
                    old(self)@,
                    spec_push(old(self)@.tabs, t@.text, t@.path),
                ) && eff is Nop
                &&& msg matches Message::TabSelected(id) ==> final(self)@ == with_tabs(
                    old(self)@,
                    spec_select(old(self)@.tabs, id),
                ) && eff is Nop
                &&& msg matches Message::TabClosed(id) ==> final(self)@ == with_tabs(
                    old(self)@,
                    spec_close(old(self)@.tabs, id),
                ) && eff is Nop
            },
    {
        if self.quitting {
            return Effect::Nop;
        }
        match msg {
            Message::TextUpdate(text) => {
                match self.tabs.active {
                    Option::Some(index) => {
                        let _ = self.tabs.set_text(index, text);
                    },
                    Option::None => {
                        let mut tab = FileTab::default();
                        tab.text = text;
                        let _ = self.tabs.push(tab);
                    },
                }
                Effect::Nop
            },
            Message::NewFile => {
                let _ = self.tabs.push(FileTab::default());
                Effect::Nop
            },
            Message::OpenFile => Effect::PickAndRead,
            Message::OpenFolder => Effect::PickFolder,
            Message::Save => {
                match self.tabs.get_active() {
                    Option::Some(tab) => {
                        let Tab::File(file_tab) = tab;
                        match &file_tab.path {
                            Option::Some(p) => Effect::WriteFile {
                                path: p.clone(),
                                text: file_tab.text.clone(),
                            },
                            Option::None => Effect::PickPathAndWrite {
                                text: file_tab.text.clone(),
                                current_path: Option::None,
                            },
                        }
                    },
                    Option::None => Effect::Nop,
                }
            },
            Message::SaveAs => {
                match self.tabs.get_active() {
                    Option::Some(tab) => {
                        let Tab::File(file_tab) = tab;
                        let current_path = match &file_tab.path {
                            Option::Some(p) => Option::Some(p.clone()),
                            Option::None => Option::None,
                        };
                        Effect::PickPathAndWrite {
                            text: file_tab.text.clone(),
                            current_path: current_path,
                        }
                    },
                    Option::None => Effect::Nop,
                }
            },
            Message::Quit => {
                self.quitting = true;
                Effect::CloseWindow
            },
            Message::TabNew(tab) => {
                let _ = self.tabs.push(tab);
                Effect::Nop
            },
            Message::TabSelected(id) => {
                self.tabs.select(id);
                Effect::Nop
            },
            Message::TabClosed(id) => {
                self.tabs.close(id);
                Effect::Nop
            },
        }
    }

    /// Takes the outcome of a pick-and-read requested by an open intent: a
    /// cancelled or failed pick changes nothing; a picked file's contents
    /// and location go to the active tab, a fresh one when none was active.
    pub fn open_finished(&mut self, picked: Option<(String, String)>)
        requires
            old(self)@.tabs.wf(),
            (picked is Some && old(self)@.tabs.active is None) ==> old(self)@.tabs.next_id
                < u64::MAX,
        ensures
            final(self)@.tabs.wf(),
            picked is None ==> final(self)@ == old(self)@,
            picked matches Some(tp) ==> final(self)@ == spec_opened(old(self)@, tp.0@, tp.1@),
    {
        match picked {
            Option::None => (),
            Option::Some((text, path)) => {
                match self.tabs.active {
                    Option::Some(index) => {
                        let _ = self.tabs.set_text(index, text);
                        let _ = self.tabs.set_path(index, Option::Some(path));
                    },
                    Option::None => {
                        let tab = FileTab { id: 0, text: text, path: Option::Some(path) };
                        let _ = self.tabs.push(tab);
                    },
                }
            },
        }
    }

    /// Takes the path a save-as dialog chose after the write succeeded: the
    /// active tab's path moves there and the save is reported; with no
    /// active tab the stale outcome is a no-op.
    pub fn save_path_chosen(&mut self, path: String)
        requires
            old(self)@.tabs.wf(),
        ensures
            final(self)@.tabs.wf(),
            final(self)@ == spec_path_chosen(old(self)@, path@),
    {
        match self.tabs.active {
            Option::Some(index) => {
                let _ = self.tabs.set_path(index, Option::Some(path));
                self.status = Status::Saved;
            },
            Option::None => (),
        }
    }

    /// Takes a save outcome: success or failure is surfaced in the status,
    /// and nothing else changes.
    pub fn save_finished(&mut self, ok: bool)
        requires
            old(self)@.tabs.wf(),
        ensures
            final(self)@.tabs.wf(),
            final(self)@ == spec_save_finished(old(self)@, ok),
    {
        self.status = if ok {
            Status::Saved
        } else {
            Status::SaveFailed
        };
    }
}

} // verus!
