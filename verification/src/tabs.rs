//! The tab/document state machine: an ordered collection of open documents,
//! each with a stable identity, in-memory text, and an optional filesystem
//! path, plus the active-tab pointer. The collection keeps the invariant
//! that the active index is present exactly when the collection is
//! non-empty, that it is then in range, and that tab identities are unique.

use vstd::prelude::*;

verus! {

/// The spec-level value of one open document tab.
#[verifier::ext_equal]
pub struct TabModel {
    /// The tab's stable identity; never changes after creation.
    pub id: u64,
    /// The full in-memory text.
    pub text: Seq<char>,
    /// The associated filesystem path; `None` means never saved.
    pub path: Option<Seq<char>>,
}

/// The spec-level value of the whole collection.
#[verifier::ext_equal]
pub struct TabsModel {
    /// The open tabs, in tab-strip order.
    pub tabs: Seq<TabModel>,
    /// The index of the tab shown in the editing surface.
    pub active: Option<int>,
    /// The identity the next created tab will receive.
    pub next_id: u64,
}

impl TabsModel {
    /// Well-formedness: the active index is present exactly when the
    /// collection is non-empty and is then in range; identities are unique
    /// and all below `next_id`.
    pub open spec fn wf(self) -> bool {
        &&& self.active is Some <==> self.tabs.len() > 0
        &&& self.active matches Some(a) ==> 0 <= a < self.tabs.len()
        &&& forall|i: int, j: int|
            0 <= i < j < self.tabs.len() ==> #[trigger] self.tabs[i].id != #[trigger] self.tabs[j].id
        &&& forall|i: int| 0 <= i < self.tabs.len() ==> #[trigger] self.tabs[i].id < self.next_id
    }
}

/// Whether some tab in `tabs` has identity `id`.
pub open spec fn has_id(tabs: Seq<TabModel>, id: u64) -> bool {
    exists|i: int| 0 <= i < tabs.len() && #[trigger] tabs[i].id == id
}

/// The index of the tab with identity `id` (meaningful when `has_id` holds;
/// under uniqueness of identities it is the only such index).
pub open spec fn index_of_id(tabs: Seq<TabModel>, id: u64) -> int {
    choose|i: int| 0 <= i < tabs.len() && #[trigger] tabs[i].id == id
}

/// The view of an optional owned path.
pub open spec fn path_view(p: Option<String>) -> Option<Seq<char>> {
    match p {
        Option::Some(s) => Option::Some(s@),
        Option::None => Option::None,
    }
}

/// Appending a freshly created tab with the given text and path: it
/// receives the next identity and becomes active.
pub open spec fn spec_push(tm: TabsModel, text: Seq<char>, path: Option<Seq<char>>) -> TabsModel {
    TabsModel {
        tabs: tm.tabs.push(TabModel { id: tm.next_id, text: text, path: path }),
        active: Option::Some(tm.tabs.len() as int),
        next_id: (tm.next_id + 1) as u64,
    }
}

/// Replacing the text of the tab at `index` wholesale.
pub open spec fn spec_set_text(tm: TabsModel, index: int, text: Seq<char>) -> TabsModel {
    TabsModel {
        tabs: tm.tabs.update(
            index,
            (TabModel { id: tm.tabs[index].id, text: text, path: tm.tabs[index].path }),
        ),
        active: tm.active,
        next_id: tm.next_id,
    }
}

/// Replacing the path of the tab at `index`.
pub open spec fn spec_set_path(tm: TabsModel, index: int, path: Option<Seq<char>>) -> TabsModel {
    TabsModel {
        tabs: tm.tabs.update(
            index,
            (TabModel { id: tm.tabs[index].id, text: tm.tabs[index].text, path: path }),
        ),
        active: tm.active,
        next_id: tm.next_id,
    }
}

/// Selecting a tab by identity: the active index moves to that tab; a stale
/// identity is a no-op.
pub open spec fn spec_select(tm: TabsModel, id: u64) -> TabsModel {
    if has_id(tm.tabs, id) {
        TabsModel { tabs: tm.tabs, active: Option::Some(index_of_id(tm.tabs, id)), next_id: tm.next_id }
    } else {
        tm
    }
}

/// Closing a tab by identity. A stale identity is a no-op. Closing the
/// active tab selects the tab immediately before it (or the first tab when
/// the closed tab was first, or none when the collection becomes empty);
/// closing another tab keeps the active index on the same logical tab.
pub open spec fn spec_close(tm: TabsModel, id: u64) -> TabsModel {
    if has_id(tm.tabs, id) {
        let i = index_of_id(tm.tabs, id);
        let rest = tm.tabs.remove(i);
        let active = if rest.len() == 0 {
            Option::<int>::None
        } else {
            let a = tm.active->0;
            if a == i {
                if i > 0 {
                    Option::Some(i - 1)
                } else {
                    Option::Some(0int)
                }
            } else if a > i {
                Option::Some(a - 1)
            } else {
                Option::Some(a)
            }
        };
        TabsModel { tabs: rest, active: active, next_id: tm.next_id }
    } else {
        tm
    }
}

/// Creating a tab preserves well-formedness and activates the new tab.
pub proof fn lemma_push_wf(tm: TabsModel, text: Seq<char>, path: Option<Seq<char>>)
    requires
        tm.wf(),
        tm.next_id < u64::MAX,
    ensures
        spec_push(tm, text, path).wf(),
{
    let r = spec_push(tm, text, path);
    assert forall|i: int, j: int| 0 <= i < j < r.tabs.len() implies #[trigger] r.tabs[i].id
        != #[trigger] r.tabs[j].id by {
        if j < tm.tabs.len() as int {
            assert(tm.tabs[i].id != tm.tabs[j].id);
        } else {
            assert(tm.tabs[i].id < tm.next_id);
        }
    }
}

/// Replacing a tab's text or path preserves well-formedness: identities and
/// the active index are untouched.
pub proof fn lemma_update_wf(tm: TabsModel, index: int, text: Seq<char>, path: Option<Seq<char>>)
    requires
        tm.wf(),
        0 <= index < tm.tabs.len(),
    ensures
        spec_set_text(tm, index, text).wf(),
        spec_set_path(tm, index, path).wf(),
{
}

/// Selecting by identity preserves well-formedness.
pub proof fn lemma_select_wf(tm: TabsModel, id: u64)
    requires
        tm.wf(),
    ensures
        spec_select(tm, id).wf(),
{
    if has_id(tm.tabs, id) {
        let i = index_of_id(tm.tabs, id);
        assert(0 <= i < tm.tabs.len() && tm.tabs[i].id == id);
    }
}

/// Closing by identity preserves well-formedness.
pub proof fn lemma_close_wf(tm: TabsModel, id: u64)
    requires
        tm.wf(),
    ensures
        spec_close(tm, id).wf(),
{
    if has_id(tm.tabs, id) {
        let i = index_of_id(tm.tabs, id);
        assert(0 <= i < tm.tabs.len() && tm.tabs[i].id == id);
        let r = spec_close(tm, id);
        assert forall|x: int, y: int| 0 <= x < y < r.tabs.len() implies #[trigger] r.tabs[x].id
            != #[trigger] r.tabs[y].id by {
            let x0 = if x < i { x } else { x + 1 };
            let y0 = if y < i { y } else { y + 1 };
            assert(r.tabs[x] == tm.tabs[x0]);
            assert(r.tabs[y] == tm.tabs[y0]);
        }
        assert forall|x: int| 0 <= x < r.tabs.len() implies #[trigger] r.tabs[x].id < r.next_id by {
            let x0 = if x < i { x } else { x + 1 };
            assert(r.tabs[x] == tm.tabs[x0]);
        }
    }
}

/// Identities are unique in a well-formed collection, so any index holding
/// `id` is the index `index_of_id` names.
pub proof fn lemma_index_of_id_unique(tm: TabsModel, id: u64, k: int)
    requires
        tm.wf(),
        0 <= k < tm.tabs.len(),
        tm.tabs[k].id == id,
    ensures
        has_id(tm.tabs, id),
        index_of_id(tm.tabs, id) == k,
{
    assert(has_id(tm.tabs, id));
    let i = index_of_id(tm.tabs, id);
    assert(0 <= i < tm.tabs.len() && tm.tabs[i].id == id);
    if i < k {
        assert(tm.tabs[i].id != tm.tabs[k].id);
    } else if k < i {
        assert(tm.tabs[k].id != tm.tabs[i].id);
    }
}

/// One open document: its identity, its in-memory text, and its path
/// (`None` until it is first saved).
#[derive(Debug, Clone, PartialEq)]
pub struct FileTab {
    pub id: u64,
    pub text: String,
    pub path: Option<String>,
}

impl View for FileTab {
    type V = TabModel;

    open spec fn view(&self) -> TabModel {
        TabModel { id: self.id, text: self.text@, path: path_view(self.path) }
    }
}

impl Default for FileTab {
    /// A fresh unsaved tab: empty text, no path, the placeholder identity 0
    /// (the collection assigns the real identity on insertion).
    fn default() -> (t: FileTab)
        ensures
            t@ == (TabModel { id: 0, text: Seq::<char>::empty(), path: Option::None }),
    {
        let t = FileTab { id: 0, text: String::new(), path: Option::None };
        proof {
            assert(t@ =~= TabModel { id: 0, text: Seq::<char>::empty(), path: Option::None });
        }
        t
    }
}

/// One open document, as a closed set of document kinds; plain files are
/// the only kind this shell has.
#[derive(Debug, Clone, PartialEq)]
pub enum Tab {
    File(FileTab),
}

impl View for Tab {
    type V = TabModel;

    open spec fn view(&self) -> TabModel {
        match self {
            Tab::File(t) => t@,
        }
    }
}

impl Tab {
    /// The tab's stable identity.
    pub fn id(&self) -> (id: u64)
        ensures
            id == self@.id,
    {
        match self {
            Tab::File(t) => t.id,
        }
    }
}

/// An operation was given an index outside the collection.
#[derive(Debug, Clone, Copy, PartialEq, Eq, Structural)]
pub enum TabsError {
    InvalidIndex,
}

/// The ordered collection of open tabs and the active-tab pointer.
#[derive(Debug, Clone, PartialEq)]
pub struct Tabs {
    pub data: Vec<Tab>,
    pub active: Option<usize>,
    pub next_id: u64,
}

impl View for Tabs {
    type V = TabsModel;

    open spec fn view(&self) -> TabsModel {
        TabsModel {
            tabs: self.data@.map_values(|t: Tab| t@),
            active: match self.active {
                Option::Some(a) => Option::Some(a as int),
                Option::None => Option::None,
            },
            next_id: self.next_id,
        }
    }
}

impl Default for Tabs {
    /// The empty collection: no tabs, no active tab, identities from 0.
    fn default() -> (t: Tabs)
        ensures
            t@ == (TabsModel { tabs: Seq::<TabModel>::empty(), active: Option::None, next_id: 0 }),
            t@.wf(),
    {
        let t = Tabs { data: Vec::new(), active: Option::None, next_id: 0 };
        proof {
            assert(t@ =~= TabsModel {
                tabs: Seq::<TabModel>::empty(),
                active: Option::None,
                next_id: 0,
            });
        }
        t
    }
}

impl Tabs {
    /// How many tabs are open.
    pub fn len(&self) -> (n: usize)
        ensures
            n == self@.tabs.len(),
    {
        self.data.len()
    }

    /// Appends a freshly created tab holding `tab`'s text and path. The new
    /// tab receives a fresh identity (whatever identity `tab` carried is
    /// replaced) and becomes active; returns the new tab's index.
    pub fn push(&mut self, tab: FileTab) -> (index: usize)
        requires
            old(self)@.wf(),
            old(self)@.next_id < u64::MAX,
        ensures
            final(self)@ == spec_push(old(self)@, tab@.text, tab@.path),
            final(self)@.wf(),
            index == old(self)@.tabs.len(),
    {
        let index: usize = self.data.len();
        let fresh = FileTab { id: self.next_id, text: tab.text, path: tab.path };
        self.data.push(Tab::File(fresh));
        self.active = Option::Some(index);
        self.next_id = self.next_id + 1;
        proof {
            lemma_push_wf(old(self)@, tab@.text, tab@.path);
            assert(self@.tabs =~= spec_push(old(self)@, tab@.text, tab@.path).tabs);
            assert(self@ =~= spec_push(old(self)@, tab@.text, tab@.path));
        }
        index
    }

    /// The tab at the active index, or none when the collection is empty.
    pub fn get_active(&self) -> (r: Option<&Tab>)
        requires
            self@.wf(),
        ensures
            self@.active is None ==> r is None,
            self@.active matches Some(a) ==> r matches Some(t) && t@ == self@.tabs[a],
    {
        match self.active {
            Option::Some(a) => Option::Some(&self.data[a]),
            Option::None => Option::None,
        }
    }

    /// Replaces the text of the tab at `index` wholesale; signals an
    /// invalid-index condition when `index` is out of range.
    pub fn set_text(&mut self, index: usize, text: String) -> (r: Result<(), TabsError>)
        requires
            old(self)@.wf(),
        ensures
            final(self)@.wf(),
            index < old(self)@.tabs.len() ==> r is Ok && final(self)@ == spec_set_text(
                old(self)@,
                index as int,
                text@,
            ),
            index >= old(self)@.tabs.len() ==> r == Result::<(), TabsError>::Err(
                TabsError::InvalidIndex,
            ) && final(self)@ == old(self)@,
    {
        if index < self.data.len() {
            let tab = self.data.remove(index);
            let replaced = match tab {
                Tab::File(t) => Tab::File(FileTab { id: t.id, text: text, path: t.path }),
            };
            self.data.insert(index, replaced);
            proof {
                lemma_update_wf(old(self)@, index as int, text@, Option::None);
                assert(self@.tabs =~= spec_set_text(old(self)@, index as int, text@).tabs);
                assert(self@ =~= spec_set_text(old(self)@, index as int, text@));
            }
            Result::Ok(())
        } else {
            Result::Err(TabsError::InvalidIndex)
        }
    }

    /// Replaces the path of the tab at `index`; signals an invalid-index
    /// condition when `index` is out of range.
    pub fn set_path(&mut self, index: usize, path: Option<String>) -> (r: Result<(), TabsError>)
        requires
            old(self)@.wf(),
        ensures
            final(self)@.wf(),
            index < old(self)@.tabs.len() ==> r is Ok && final(self)@ == spec_set_path(
                old(self)@,
                index as int,
                path_view(path),
            ),
            index >= old(self)@.tabs.len() ==> r == Result::<(), TabsError>::Err(
                TabsError::InvalidIndex,
            ) && final(self)@ == old(self)@,
    {
        if index < self.data.len() {
            let tab = self.data.remove(index);
            let replaced = match tab {
                Tab::File(t) => Tab::File(FileTab { id: t.id, text: t.text, path: path }),
            };
            self.data.insert(index, replaced);
            proof {
                lemma_update_wf(old(self)@, index as int, Seq::<char>::empty(), path_view(path));
                assert(self@.tabs =~= spec_set_path(old(self)@, index as int, path_view(path)).tabs);
                assert(self@ =~= spec_set_path(old(self)@, index as int, path_view(path)));
            }
            Result::Ok(())
        } else {
            Result::Err(TabsError::InvalidIndex)
        }
    }

    /// The index of the tab with identity `id`, when one is open.
    fn find(&self, id: u64) -> (r: Option<usize>)
        ensures
            r matches Some(k) ==> 0 <= k < self@.tabs.len() && self@.tabs[k as int].id == id,
            r is None ==> !has_id(self@.tabs, id),
    {
        let mut k: usize = 0;
        while k < self.data.len()
            invariant
                0 <= k <= self@.tabs.len(),
                forall|j: int| 0 <= j < k ==> #[trigger] self@.tabs[j].id != id,
            decreases self@.tabs.len() - k,
        {
            if self.data[k].id() == id {
                return Option::Some(k);
            }
            k = k + 1;
        }
        Option::None
    }

    /// Makes the tab with identity `id` active; a stale identity is a
    /// no-op.
    pub fn select(&mut self, id: u64)
        requires
            old(self)@.wf(),
        ensures
            final(self)@ == spec_select(old(self)@, id),
            final(self)@.wf(),
    {
        let found = self.find(id);
        match found {
            Option::Some(k) => {
                proof {
                    lemma_index_of_id_unique(old(self)@, id, k as int);
                }
                self.active = Option::Some(k);
                proof {
                    assert(self@ =~= spec_select(old(self)@, id));
                }
            },
            Option::None => {
                proof {
                    assert(self@ =~= spec_select(old(self)@, id));
                }
            },
        }
        proof {
            lemma_select_wf(old(self)@, id);
        }
    }

    /// Removes the tab with identity `id`; a stale identity is a no-op.
    /// Closing the active tab selects the tab immediately before it (or the
    /// first tab when the closed tab was first, or none when the collection
    /// becomes empty); closing another tab keeps the active index on the
    /// same logical tab.
    pub fn close(&mut self, id: u64)
        requires
            old(self)@.wf(),
        ensures
            final(self)@ == spec_close(old(self)@, id),
            final(self)@.wf(),
    {
        let found = self.find(id);
        match found {
            Option::Some(k) => {
                proof {
                    lemma_index_of_id_unique(old(self)@, id, k as int);
                }
                let _ = self.data.remove(k);
                if self.data.len() == 0 {
                    self.active = Option::None;
                } else {
                    let a: usize = match self.active {
                        Option::Some(a) => a,
                        Option::None => 0,  // unreachable: the collection was non-empty
                    };
                    if a == k {
                        self.active = Option::Some(if k > 0 {
                            k - 1
                        } else {
                            0
                        });
                    } else if a > k {
                        self.active = Option::Some(a - 1);
                    }
                }
                proof {
                    assert(self@.tabs =~= spec_close(old(self)@, id).tabs);
                    assert(self@ =~= spec_close(old(self)@, id));
                }
            },
            Option::None => {
                proof {
                    assert(self@ =~= spec_close(old(self)@, id));
                }
            },
        }
        proof {
            lemma_close_wf(old(self)@, id);
        }
    }
}

} // verus!
