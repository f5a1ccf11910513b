//! What the tab strip shows: one label per tab (the file name of the tab's
//! path, or a placeholder for a tab that was never saved) and the active
//! tab's text for the editing surface.

use vstd::prelude::*;
use vstd::string::StrSliceExecFns;

use crate::tabs::Tab;
use crate::tabs::TabModel;

verus! {

/// `path` without its trailing separators and trailing current-directory
/// components: `a/b//`, `a/b/.` and `a/b/.//` all strip to `a/b`.
pub open spec fn strip_trailing(path: Seq<char>) -> Seq<char>
    decreases path.len(),
{
    if path.len() == 0 {
        path
    } else if path.last() == '/' {
        strip_trailing(path.drop_last())
    } else if path.last() == '.' && (path.len() == 1 || path[path.len() - 2] == '/') {
        strip_trailing(path.drop_last())
    } else {
        path
    }
}

/// Where the file name starts in `path`: the position right after the last
/// path separator, or 0 when there is none.
pub open spec fn file_name_start(path: Seq<char>) -> int
    decreases path.len(),
{
    if path.len() == 0 {
        0
    } else if path.last() == '/' {
        path.len() as int
    } else {
        file_name_start(path.drop_last())
    }
}

/// The file-name part of `path`, empty when it has none: trailing
/// separators and current-directory components are ignored, and a path
/// that is then empty or ends in a parent-directory component has no file
/// name. So `/usr/bin/` has file name `bin`, `foo.txt/.` has `foo.txt`,
/// and `foo/..`, `..`, `.` and `/` have none.
pub open spec fn spec_file_name(path: Seq<char>) -> Seq<char> {
    let stripped = strip_trailing(path);
    let name = stripped.subrange(file_name_start(stripped), stripped.len() as int);
    if name.len() == 2 && name[0] == '.' && name[1] == '.' {
        Seq::<char>::empty()
    } else {
        name
    }
}

/// The label a tab is shown under: its path's file name, with the
/// placeholder for a tab that was never saved or whose path has no file
/// name.
pub open spec fn spec_label(tab: TabModel) -> Seq<char> {
    match tab.path {
        Option::Some(p) => if spec_file_name(p).len() == 0 {
            "New Tab"@
        } else {
            spec_file_name(p)
        },
        Option::None => "New Tab"@,
    }
}

/// Whether the character ending `s[..e]` is dropped when looking for the
/// file name: a separator, or a current-directory component.
fn is_droppable_tail(s: &str, e: usize) -> (r: bool)
    requires
        1 <= e <= s@.len(),
    ensures
        r == (s@[e - 1] == '/' || (s@[e - 1] == '.' && (e == 1 || s@[e - 2] == '/'))),
{
    let c = s.get_char(e - 1);
    if c == '/' {
        true
    } else if c == '.' {
        e == 1 || s.get_char(e - 2) == '/'
    } else {
        false
    }
}

/// The label for one tab.
pub fn tab_label(tab: &Tab) -> (label: String)
    ensures
        label@ == spec_label(tab@),
{
    let Tab::File(file_tab) = tab;
    match &file_tab.path {
        Option::None => "New Tab".to_owned(),
        Option::Some(p) => {
            let s = p.as_str();
            let n = s.unicode_len();

            // Drop trailing separators and current-directory components:
            // p[..e] is what remains.
            let mut e: usize = n;
            proof {
                assert(p@.subrange(0, n as int) =~= p@);
            }
            while e > 0 && is_droppable_tail(s, e)
                invariant
                    s@ == p@,
                    n == p@.len(),
                    0 <= e <= n,
                    strip_trailing(p@) == strip_trailing(p@.subrange(0, e as int)),
                decreases e,
            {
                proof {
                    let q = p@.subrange(0, e as int);
                    assert(q.last() == p@[e - 1]);
                    assert(e >= 2 ==> q[q.len() - 2] == p@[e - 2]);
                    assert(q.drop_last() =~= p@.subrange(0, e - 1));
                }
                e = e - 1;
            }
            proof {
                let q = p@.subrange(0, e as int);
                if e == 0 {
                    assert(q =~= Seq::<char>::empty());
                } else {
                    assert(q.last() == p@[e - 1]);
                    assert(e >= 2 ==> q[q.len() - 2] == p@[e - 2]);
                }
                assert(strip_trailing(p@) == q);
            }

            // Find where the file name starts in p[..e].
            let mut i: usize = e;
            proof {
                assert(p@.subrange(0, e as int).subrange(0, e as int) =~= p@.subrange(
                    0,
                    e as int,
                ));
            }
            while i > 0 && s.get_char(i - 1) != '/'
                invariant
                    s@ == p@,
                    n == p@.len(),
                    0 <= i <= e <= n,
                    file_name_start(p@.subrange(0, e as int)) == file_name_start(
                        p@.subrange(0, i as int),
                    ),
                decreases i,
            {
                proof {
                    let q = p@.subrange(0, i as int);
                    assert(q.last() == p@[i - 1]);
                    assert(q.drop_last() =~= p@.subrange(0, i - 1));
                }
                i = i - 1;
            }
            proof {
                let q = p@.subrange(0, i as int);
                if i == 0 {
                    assert(q =~= Seq::<char>::empty());
                } else {
                    assert(q.last() == p@[i - 1]);
                }
                let stripped = strip_trailing(p@);
                assert(file_name_start(stripped) == i);
                assert(stripped.subrange(i as int, e as int) =~= p@.subrange(i as int, e as int));
            }

            if i == e {
                proof {
                    assert(spec_file_name(p@).len() == 0);
                }
                "New Tab".to_owned()
            } else if e - i == 2 && s.get_char(i) == '.' && s.get_char(i + 1) == '.' {
                proof {
                    assert(spec_file_name(p@).len() == 0);
                }
                "New Tab".to_owned()
            } else {
                let name = s.substring_char(i, e);
                proof {
                    assert(name@ == spec_file_name(p@));
                }
                name.to_owned()
            }
        },
    }
}

/// The labels for a whole tab strip, in tab order.
pub fn tab_labels(data: &Vec<Tab>) -> (labels: Vec<String>)
    ensures
        labels@.len() == data@.len(),
        forall|i: int| 0 <= i < data@.len() ==> #[trigger] labels@[i]@ == spec_label(data@[i]@),
{
    let mut labels: Vec<String> = Vec::new();
    let mut k: usize = 0;
    while k < data.len()
        invariant
            0 <= k <= data@.len(),
            labels@.len() == k,
            forall|i: int| 0 <= i < k ==> #[trigger] labels@[i]@ == spec_label(data@[i]@),
        decreases data@.len() - k,
    {
        let label = tab_label(&data[k]);
        labels.push(label);
        k = k + 1;
    }
    labels
}

/// Everything a renderer needs for the tab strip and the editing surface.
pub struct TabStrip {
    /// One label per tab, in tab order.
    pub labels: Vec<String>,
    /// The index of the active tab.
    pub active: usize,
    /// The active tab's text, bound to the editing surface.
    pub text: String,
}

/// The tab strip for the given tabs: nothing when no tab is open, otherwise
/// the labels, the active index, and the active tab's text.
pub fn tab_bar(active: usize, data: &Vec<Tab>) -> (strip: Option<TabStrip>)
    requires
        data@.len() > 0 ==> active < data@.len(),
    ensures
        data@.len() == 0 ==> strip is None,
        data@.len() > 0 ==> (strip matches Some(s) && s.active == active && s.labels@.len()
            == data@.len() && (forall|i: int|
            0 <= i < data@.len() ==> #[trigger] s.labels@[i]@ == spec_label(data@[i]@)) && s.text@
            == data@[active as int]@.text),
{
    if data.is_empty() {
        Option::None
    } else {
        let labels = tab_labels(data);
        let text = match &data[active] {
            Tab::File(file_tab) => file_tab.text.clone(),
        };
        Option::Some(TabStrip { labels: labels, active: active, text: text })
    }
}

} // verus!
