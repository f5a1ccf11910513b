//! Laws the controller obeys, stated over the same spec functions its
//! contracts use and proved once for all states.

use vstd::prelude::*;

use crate::controller::StateModel;
use crate::controller::spec_new_file;
use crate::controller::spec_path_chosen;
use crate::controller::spec_save_request;
use crate::controller::spec_text_update;
use crate::tabs::TabModel;
use crate::tabs::TabsModel;
use crate::tabs::has_id;
use crate::tabs::index_of_id;
use crate::tabs::lemma_close_wf;
use crate::tabs::lemma_index_of_id_unique;
use crate::tabs::lemma_push_wf;
use crate::tabs::spec_close;

verus! {

/// The state after a run of `n` new-document intents.
pub open spec fn apply_new_files(s: StateModel, n: nat) -> StateModel
    decreases n,
{
    if n == 0 {
        s
    } else {
        spec_new_file(apply_new_files(s, (n - 1) as nat))
    }
}

/// After any run of new-document intents the tab count has grown by exactly
/// the number of intents (no implicit duplicates), and as soon as one was
/// issued the active index points at the most recently created tab: the
/// last one, fresh, empty, and path-less. Status and quit flag are
/// untouched.
pub proof fn lemma_new_files(s: StateModel, n: nat)
    requires
        s.tabs.wf(),
        s.tabs.next_id + n <= u64::MAX,
    ensures
        ({
            let r = apply_new_files(s, n);
            &&& r.tabs.wf()
            &&& r.tabs.tabs.len() == s.tabs.tabs.len() + n
            &&& r.tabs.next_id == s.tabs.next_id + n
            &&& r.status == s.status
            &&& r.quitting == s.quitting
            &&& n > 0 ==> {
                &&& r.tabs.active == Option::Some(s.tabs.tabs.len() + n - 1)
                &&& r.tabs.tabs.last() == (TabModel {
                    id: (s.tabs.next_id + n - 1) as u64,
                    text: Seq::<char>::empty(),
                    path: Option::None,
                })
            }
        }),
    decreases n,
{
    if n > 0 {
        lemma_new_files(s, (n - 1) as nat);
        let prev = apply_new_files(s, (n - 1) as nat);
        lemma_push_wf(prev.tabs, Seq::<char>::empty(), Option::None);
    }
}

/// Closing the only open tab leaves the collection empty and the active
/// index absent.
pub proof fn lemma_close_only_tab(tm: TabsModel, id: u64)
    requires
        tm.wf(),
        tm.tabs.len() == 1,
        tm.tabs[0].id == id,
    ensures
        spec_close(tm, id).tabs.len() == 0,
        spec_close(tm, id).active is None,
{
    lemma_index_of_id_unique(tm, id, 0);
}

/// Closing a tab other than the active one keeps the active index on the
/// same logical tab: its index may shift downward, but the tab it resolves
/// to is unchanged.
pub proof fn lemma_close_non_active(tm: TabsModel, a: int, id: u64)
    requires
        tm.wf(),
        tm.active == Option::Some(a),
        has_id(tm.tabs, id),
        tm.tabs[a].id != id,
    ensures
        ({
            let r = spec_close(tm, id);
            &&& r.wf()
            &&& r.active matches Some(a2) && r.tabs[a2] == tm.tabs[a]
        }),
{
    lemma_close_wf(tm, id);
    let i = index_of_id(tm.tabs, id);
    assert(0 <= i < tm.tabs.len() && tm.tabs[i].id == id);
    assert(a != i);
}

/// A text-changed intent delivered with no active tab creates exactly one
/// new tab, makes it active, and assigns it the given text.
pub proof fn lemma_text_update_no_active(s: StateModel, text: Seq<char>)
    requires
        s.tabs.wf(),
        s.tabs.active is None,
        s.tabs.next_id < u64::MAX,
    ensures
        ({
            let r = spec_text_update(s, text);
            &&& r.tabs.wf()
            &&& s.tabs.tabs.len() == 0
            &&& r.tabs.tabs.len() == 1
            &&& r.tabs.active == Option::Some(0int)
            &&& r.tabs.tabs[0].text == text
        }),
{
    lemma_push_wf(s.tabs, text, Option::None);
}

/// Save-as followed by save hands the collaborator identical bytes for the
/// same location: once a save-as has committed the chosen path, a save
/// intent requests a write of exactly the text the tab held at save-as
/// time, to exactly the chosen path.
pub proof fn lemma_save_as_then_save(s: StateModel, a: int, path: Seq<char>)
    requires
        s.tabs.wf(),
        s.tabs.active == Option::Some(a),
    ensures
        ({
            let r = spec_path_chosen(s, path);
            &&& r.tabs.wf()
            &&& spec_save_request(r) == Option::Some((path, s.tabs.tabs[a].text))
        }),
{
}

} // verus!
