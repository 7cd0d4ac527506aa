//! A directory listing snapshot with a selection cursor.

use vstd::prelude::*;

use crate::entry::Entry;
use crate::entry::EntryM;
use crate::entry::entry_in_dir;
use crate::fs_path::AbsPath;
use crate::fs_path::path_wf;

verus! {

/// The mathematical value of a `DirView`: the listed directory, the entries
/// in listing order, and the selection cursor.
#[verifier::ext_equal]
pub ghost struct ViewM {
    pub path: Seq<Seq<char>>,
    pub entries: Seq<EntryM>,
    pub sel: int,
}

impl ViewM {
    /// A consistent snapshot: the selection is in range whenever the
    /// listing is non-empty (and pinned to zero when it is empty), and
    /// every entry lies directly inside the listed directory.
    pub open spec fn wf(self) -> bool {
        &&& path_wf(self.path)
        &&& (self.entries.len() > 0 ==> 0 <= self.sel < self.entries.len())
        &&& (self.entries.len() == 0 ==> self.sel == 0)
        &&& (forall|i: int|
            0 <= i < self.entries.len() ==> entry_in_dir(#[trigger] self.entries[i], self.path))
    }

    /// The entry under the cursor, or none when the listing is empty.
    pub open spec fn selected(self) -> Option<EntryM> {
        if self.entries.len() == 0 {
            None
        } else {
            Some(self.entries[self.sel])
        }
    }
}

/// Where `selected_index + delta` lands once clamped into `[0, len - 1]`.
pub open spec fn clamped(cur: int, delta: int, len: int) -> int {
    let t = cur + delta;
    if t <= 0 {
        0
    } else if t >= len - 1 {
        len - 1
    } else {
        t
    }
}

/// What `move_selection` does to a view: a pure cursor move, clamped, and
/// a no-op on an empty listing.
pub open spec fn view_move_m(v: ViewM, delta: int) -> ViewM {
    if v.entries.len() == 0 {
        v
    } else {
        ViewM { sel: clamped(v.sel, delta, v.entries.len() as int), ..v }
    }
}

/// The index `retarget` puts the cursor on: the first entry whose path is
/// `p`, or zero when no entry matches (or the listing is empty).
pub open spec fn first_match(entries: Seq<EntryM>, p: Seq<Seq<char>>) -> int
    decreases entries.len(),
{
    if entries.len() == 0 {
        0
    } else if entries.first().path == p {
        0
    } else {
        1 + first_match(entries.drop_first(), p)
    }
}

pub open spec fn retarget_sel(entries: Seq<EntryM>, p: Seq<Seq<char>>) -> int {
    if first_match(entries, p) < entries.len() {
        first_match(entries, p)
    } else {
        0
    }
}

pub proof fn lemma_first_match(entries: Seq<EntryM>, p: Seq<Seq<char>>, i: int)
    requires
        0 <= i <= entries.len(),
        forall|j: int| 0 <= j < i ==> (#[trigger] entries[j]).path != p,
        i < entries.len() ==> entries[i].path == p,
    ensures
        first_match(entries, p) == i,
    decreases i,
{
    if entries.len() == 0 {
    } else if i == 0 {
    } else {
        assert(entries[0].path != p);
        lemma_first_match(entries.drop_first(), p, i - 1);
    }
}

/// One directory's listing at a point in time, plus the selection cursor.
/// It is only ever replaced wholesale, never partially updated.
pub struct DirView {
    pub path: AbsPath,
    pub entries: Vec<Entry>,
    pub selected_index: usize,
}

impl View for DirView {
    type V = ViewM;

    open spec fn view(&self) -> ViewM {
        ViewM {
            path: self.path@,
            entries: self.entries.deep_view(),
            sel: self.selected_index as int,
        }
    }
}

impl DeepView for DirView {
    type V = ViewM;

    open spec fn deep_view(&self) -> ViewM {
        self@
    }
}

impl DirView {
    pub open spec fn wf(&self) -> bool {
        self@.wf()
    }

    /// A fresh snapshot of `path` listing `entries`, cursor on the first
    /// entry (or pinned to zero when empty). The caller reads the directory
    /// itself and hands the result in; a failed read never reaches here.
    pub fn new(path: AbsPath, entries: Vec<Entry>) -> (r: DirView)
        requires
            path_wf(path@),
            forall|i: int|
                0 <= i < entries.deep_view().len()
                    ==> entry_in_dir(#[trigger] entries.deep_view()[i], path@),
        ensures
            r@ == (ViewM { path: path@, entries: entries.deep_view(), sel: 0 }),
            r.wf(),
    {
        DirView { path, entries, selected_index: 0 }
    }

    /// Move the cursor by `delta`, clamped to the listing bounds; a no-op
    /// on an empty listing. Never wraps around.
    pub fn move_selection(&mut self, delta: isize)
        requires
            old(self).wf(),
        ensures
            final(self).wf(),
            final(self)@ == view_move_m(old(self)@, delta as int),
    {
        if self.entries.len() == 0 {
            return;
        }
        let len = self.entries.len();
        if delta >= 0 {
            let d = delta as usize;
            let room = len - 1 - self.selected_index;
            if d < room {
                self.selected_index = self.selected_index + d;
            } else {
                self.selected_index = len - 1;
            }
        } else {
            let d: usize = if delta == isize::MIN {
                (isize::MAX as usize) + 1
            } else {
                (-delta) as usize
            };
            if d <= self.selected_index {
                self.selected_index = self.selected_index - d;
            } else {
                self.selected_index = 0;
            }
        }
        proof {
            assert(self@ =~= view_move_m(old(self)@, delta as int));
        }
    }

    /// The entry under the cursor, or none when the listing is empty.
    pub fn selected_entry(&self) -> (r: Option<Entry>)
        requires
            self.wf(),
        ensures
            (match r {
                Some(e) => self@.selected() == Some(e@),
                None => self@.selected() is None,
            }),
    {
        if self.entries.len() == 0 {
            None
        } else {
            Some(self.entries[self.selected_index].clone())
        }
    }

    /// The display labels of the listing, one per entry in listing order:
    /// each entry's name, the final component of its path.
    pub fn labels(&self) -> (r: Vec<String>)
        requires
            self.wf(),
        ensures
            r.deep_view().len() == self@.entries.len(),
            forall|i: int|
                0 <= i < r.deep_view().len() ==> #[trigger] r.deep_view()[i]
                    == self@.entries[i].path.last(),
    {
        let ghost entries = self@.entries;
        let mut r: Vec<String> = Vec::new();
        let mut i: usize = 0;
        while i < self.entries.len()
            invariant
                self.wf(),
                i <= self.entries.len(),
                entries == self.entries.deep_view(),
                entries.len() == self.entries@.len(),
                r.deep_view().len() == i as int,
                forall|j: int|
                    0 <= j < i ==> #[trigger] r.deep_view()[j] == entries[j].path.last(),
            decreases self.entries.len() - i,
        {
            proof {
                assert(entry_in_dir(entries[i as int], self@.path));
            }
            let name = match self.entries[i].name() {
                Some(n) => n.clone(),
                None => String::new(),
            };
            let ghost prev = r.deep_view();
            r.push(name);
            proof {
                assert(r.deep_view() =~= prev.push(name@));
            }
            i = i + 1;
        }
        r
    }

    /// Reset the cursor to the first entry.
    pub fn reset_selection(&mut self)
        requires
            old(self).wf(),
        ensures
            final(self).wf(),
            final(self)@ == (ViewM { sel: 0, ..old(self)@ }),
    {
        self.selected_index = 0;
        proof {
            assert(self@ =~= (ViewM { sel: 0, ..old(self)@ }));
        }
    }

    /// Put the cursor on the first entry whose path is `target`, or on the
    /// first entry when nothing in the listing matches.
    pub fn retarget(&mut self, target: &AbsPath)
        requires
            old(self).wf(),
        ensures
            final(self).wf(),
            final(self)@ == (ViewM { sel: retarget_sel(old(self)@.entries, target@), ..old(self)@ }),
    {
        let ghost entries = self@.entries;
        let mut i: usize = 0;
        while i < self.entries.len()
            invariant
                old(self).wf(),
                i <= self.entries.len(),
                entries == self.entries.deep_view(),
                *self == *old(self),
                forall|j: int| 0 <= j < i ==> (#[trigger] entries[j]).path != target@,
            decreases self.entries.len() - i,
        {
            if self.entries[i].path.same_as(target) {
                proof {
                    lemma_first_match(entries, target@, i as int);
                }
                self.selected_index = i;
                proof {
                    assert(entries.len() == self.entries@.len());
                    assert(self@.path == old(self)@.path);
                    assert(self@.entries == old(self)@.entries);
                    assert(old(self)@.wf());
                    assert(0 <= self@.sel < self@.entries.len());
                    assert(self@ =~= (ViewM {
                        sel: retarget_sel(old(self)@.entries, target@),
                        ..old(self)@
                    }));
                    assert(self@.wf());
                }
                return;
            }
            i = i + 1;
        }
        proof {
            lemma_first_match(entries, target@, entries.len() as int);
        }
        self.selected_index = 0;
        proof {
            assert(self@ =~= (ViewM {
                sel: retarget_sel(old(self)@.entries, target@),
                ..old(self)@
            }));
        }
    }
}

/// Once the cursor sits at a boundary, pushing further in that direction
/// keeps it there: repeated moves up at the top (or down at the bottom)
/// change nothing.
pub proof fn lemma_move_boundary_idempotent(v: ViewM, delta: int)
    requires
        v.wf(),
        (delta <= 0 && v.sel == 0) || (delta >= 0 && v.sel == v.entries.len() - 1),
    ensures
        view_move_m(v, delta) == v,
{
    assert(view_move_m(v, delta) =~= v);
}

/// The cursor never leaves `[0, len - 1]` on a non-empty listing, whatever
/// the move.
pub proof fn lemma_move_in_bounds(v: ViewM, delta: int)
    requires
        v.wf(),
        v.entries.len() > 0,
    ensures
        0 <= view_move_m(v, delta).sel < v.entries.len(),
{
}

} // verus!
