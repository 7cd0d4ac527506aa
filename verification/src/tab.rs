//! One browsing session: a current directory, the directory above it, and
//! the entry the cursor previews.

use vstd::prelude::*;

use crate::entry::Entry;
use crate::entry::EntryKind;
use crate::entry::EntryM;
use crate::errors::DirectoryLoadFailed;
use crate::errors::IoErrorKind;
use crate::fs_path::AbsPath;
use crate::listing::DirView;
use crate::listing::ViewM;
use crate::listing::retarget_sel;
use crate::listing::view_move_m;

verus! {

/// The mathematical value of a `Tab`.
#[verifier::ext_equal]
pub ghost struct TabM {
    pub id: Seq<char>,
    pub parent: Option<ViewM>,
    pub current: ViewM,
    pub preview: Option<EntryM>,
}

impl TabM {
    /// A consistent tab: the parent view lists exactly the directory above
    /// the current one (and is absent exactly at a filesystem root), and
    /// the preview target is the entry under the current view's cursor.
    pub open spec fn wf(self) -> bool {
        &&& self.current.wf()
        &&& (match self.parent {
            Some(p) => p.wf() && self.current.path.len() > 0 && p.path
                == self.current.path.drop_last(),
            None => self.current.path.len() == 0,
        })
        &&& self.preview == self.current.selected()
    }

    /// The directory `enter` would descend into: the previewed entry's
    /// path, when that entry is a directory.
    pub open spec fn enter_target(self) -> Option<Seq<Seq<char>>> {
        match self.preview {
            Some(e) => if e.kind == EntryKind::Directory {
                Some(e.path)
            } else {
                None
            },
            None => None,
        }
    }

    /// The directory `go_back` would need loaded: the parent of the parent
    /// view's path, when a parent view exists and is not itself a root.
    pub open spec fn back_load_target(self) -> Option<Seq<Seq<char>>> {
        match self.parent {
            Some(p) => if p.path.len() > 0 {
                Some(p.path.drop_last())
            } else {
                None
            },
            None => None,
        }
    }
}

/// A successful `enter`: the old current view becomes the parent view,
/// the freshly loaded listing becomes the current view, and the preview
/// follows the new cursor.
pub open spec fn enter_ok_m(t: TabM, v: ViewM) -> TabM {
    TabM { id: t.id, parent: Some(t.current), current: v, preview: v.selected() }
}

/// A successful `go_back`: the old parent view becomes the current view
/// with its cursor intact, `g` (the freshly loaded grandparent listing,
/// absent at a root) becomes the parent view, and the preview follows.
pub open spec fn back_ok_m(t: TabM, g: Option<ViewM>) -> TabM {
    TabM {
        id: t.id,
        parent: g,
        current: t.parent.unwrap(),
        preview: t.parent.unwrap().selected(),
    }
}

/// A refreshed view: the new listing wholesale, with the cursor put back
/// on the entry that was selected before, when its path is still present,
/// and on the first entry otherwise.
pub open spec fn refreshed_m(oldv: ViewM, newv: ViewM) -> ViewM {
    match oldv.selected() {
        Some(e) => ViewM { sel: retarget_sel(newv.entries, e.path), ..newv },
        None => ViewM { sel: 0, ..newv },
    }
}

/// What `move_selection` does to a tab: the current view's cursor moves,
/// the preview follows, nothing else changes.
pub open spec fn tab_move_m(t: TabM, delta: int) -> TabM {
    let c = view_move_m(t.current, delta);
    TabM { current: c, preview: c.selected(), ..t }
}

/// What `go_back` answers when no directory read is needed yet.
pub enum BackStep {
    /// No parent view exists: the tab sits at a filesystem root and
    /// `go_back` is a no-op.
    NoParent,
    /// The parent view was itself a root: the tab was re-based in place
    /// and no read is needed.
    Rebased,
    /// Re-basing needs the listing of this directory; the caller reads it
    /// and hands the outcome to `go_back_finish`.
    Load(AbsPath),
}

/// One browsing session over a directory tree.
pub struct Tab {
    /// The registry-unique name of this tab.
    pub id: String,
    /// The listing of the directory containing `current_view.path`; absent
    /// exactly when `current_view.path` is a filesystem root.
    pub parent_view: Option<DirView>,
    /// The directory being browsed; its cursor drives the preview.
    pub current_view: DirView,
    /// The entry selected in `current_view`, or none when it is empty.
    pub preview_target: Option<Entry>,
}

impl View for Tab {
    type V = TabM;

    open spec fn view(&self) -> TabM {
        TabM {
            id: self.id@,
            parent: self.parent_view.deep_view(),
            current: self.current_view@,
            preview: self.preview_target.deep_view(),
        }
    }
}

impl DeepView for Tab {
    type V = TabM;

    open spec fn deep_view(&self) -> TabM {
        self@
    }
}

impl Tab {
    pub open spec fn wf(&self) -> bool {
        self@.wf()
    }

    /// Open a tab on `current`, with `parent` the listing of the directory
    /// above it (absent exactly at a filesystem root). The caller reads
    /// both directories and hands the listings in.
    pub fn open(id: String, current: DirView, parent: Option<DirView>) -> (r: Tab)
        requires
            current.wf(),
            (match parent {
                Some(p) => p.wf() && current@.path.len() > 0 && p@.path
                    == current@.path.drop_last(),
                None => current@.path.len() == 0,
            }),
        ensures
            r.wf(),
            r@ == (TabM {
                id: id@,
                parent: parent.deep_view(),
                current: current@,
                preview: current@.selected(),
            }),
    {
        let preview = current.selected_entry();
        Tab { id, parent_view: parent, current_view: current, preview_target: preview }
    }

    /// Move the cursor of the current view by `delta` (clamped, no wrap)
    /// and recompute the preview target. No directory is re-read.
    pub fn move_selection(&mut self, delta: isize)
        requires
            old(self).wf(),
        ensures
            final(self).wf(),
            final(self)@ == tab_move_m(old(self)@, delta as int),
    {
        self.current_view.move_selection(delta);
        self.preview_target = self.current_view.selected_entry();
    }

    /// The directory `enter` would descend into, or none when the preview
    /// target is missing or is not a directory.
    pub fn enter_target(&self) -> (r: Option<AbsPath>)
        requires
            self.wf(),
        ensures
            (match self@.enter_target() {
                Some(p) => r matches Some(q) && q@ == p,
                None => r is None,
            }),
    {
        match &self.preview_target {
            Some(e) => if e.is_dir() {
                Some(e.path.clone())
            } else {
                None
            },
            None => None,
        }
    }

    /// Descend into the previewed directory. The caller first asks
    /// `enter_target`; when it names a directory, the caller reads it and
    /// passes the outcome here, and passes nothing when there is no target.
    ///
    /// On a non-directory (or missing) preview target the tab is left
    /// bit-for-bit unchanged. On a failed read the re-base is aborted, the
    /// tab is left unchanged, and the failure is returned for the status
    /// line. On success the old current view becomes the parent view
    /// unchanged — no re-read — and the loaded listing becomes current.
    pub fn enter(&mut self, outcome: Option<Result<DirView, IoErrorKind>>) -> (r: Result<
        (),
        DirectoryLoadFailed,
    >)
        requires
            old(self).wf(),
            (outcome is Some) <==> (old(self)@.enter_target() is Some),
            (outcome matches Some(Ok(v)) ==> v.wf() && v@.path == old(self)@.enter_target().unwrap()),
        ensures
            final(self).wf(),
            (match outcome {
                None => *final(self) == *old(self) && r is Ok,
                Some(Err(k)) => *final(self) == *old(self) && (r matches Err(e) && e@.path == old(
                    self,
                )@.enter_target().unwrap() && e@.cause == k),
                Some(Ok(v)) => final(self)@ == enter_ok_m(old(self)@, v@) && r is Ok,
            }),
    {
        match outcome {
            None => Ok(()),
            Some(Err(k)) => {
                let p = self.preview_target.as_ref().unwrap().path.clone();
                Err(DirectoryLoadFailed { path: p, cause: k })
            },
            Some(Ok(v)) => {
                let mut v = v;
                core::mem::swap(&mut self.current_view, &mut v);
                self.parent_view = Some(v);
                self.preview_target = self.current_view.selected_entry();
                proof {
                    assert(self@ =~= enter_ok_m(old(self)@, self@.current));
                }
                Ok(())
            },
        }
    }

    /// Start going up one directory. At a root (no parent view) this is a
    /// no-op; when the parent view is itself a root the tab is re-based in
    /// place; otherwise the caller is told which directory to read before
    /// calling `go_back_finish`.
    pub fn go_back_step(&mut self) -> (r: BackStep)
        requires
            old(self).wf(),
        ensures
            final(self).wf(),
            (match old(self)@.parent {
                None => r is NoParent && *final(self) == *old(self),
                Some(p) => if p.path.len() == 0 {
                    r is Rebased && final(self)@ == back_ok_m(old(self)@, None)
                } else {
                    (r matches BackStep::Load(q) && q@ == p.path.drop_last()) && *final(self)
                        == *old(self)
                },
            }),
    {
        if self.parent_view.is_none() {
            return BackStep::NoParent;
        }
        if self.parent_view.as_ref().unwrap().path.is_root() {
            let pv = self.parent_view.take().unwrap();
            self.current_view = pv;
            self.preview_target = self.current_view.selected_entry();
            proof {
                assert(self@ =~= back_ok_m(old(self)@, None));
            }
            BackStep::Rebased
        } else {
            let q = self.parent_view.as_ref().unwrap().path.parent().unwrap();
            BackStep::Load(q)
        }
    }

    /// Finish going up once the caller has read the grandparent directory.
    /// On success the old parent view becomes the current view with its
    /// cursor intact and the loaded listing becomes the parent view; on a
    /// failed read the tab is left unchanged and the failure returned.
    pub fn go_back_finish(&mut self, outcome: Result<DirView, IoErrorKind>) -> (r: Result<
        (),
        DirectoryLoadFailed,
    >)
        requires
            old(self).wf(),
            old(self)@.back_load_target() is Some,
            (outcome matches Ok(v) ==> v.wf() && v@.path == old(self)@.back_load_target().unwrap()),
        ensures
            final(self).wf(),
            (match outcome {
                Ok(v) => final(self)@ == back_ok_m(old(self)@, Some(v@)) && r is Ok,
                Err(k) => *final(self) == *old(self) && (r matches Err(e) && e@.path == old(
                    self,
                )@.back_load_target().unwrap() && e@.cause == k),
            }),
    {
        match outcome {
            Err(k) => {
                let p = self.parent_view.as_ref().unwrap().path.parent().unwrap();
                Err(DirectoryLoadFailed { path: p, cause: k })
            },
            Ok(v) => {
                let mut pv = self.parent_view.take().unwrap();
                core::mem::swap(&mut self.current_view, &mut pv);
                self.parent_view = Some(v);
                self.preview_target = self.current_view.selected_entry();
                proof {
                    assert(self@ =~= back_ok_m(old(self)@, self@.parent));
                }
                Ok(())
            },
        }
    }

    /// Re-read both views in place at their existing paths; the caller
    /// reads the directories and hands the outcomes in. The cursor of each
    /// view is put back on the entry it selected before where that path is
    /// still listed, and reset to the first entry otherwise. Any failed
    /// read aborts the whole refresh, leaving the tab unchanged.
    pub fn refresh(
        &mut self,
        cur: Result<DirView, IoErrorKind>,
        par: Option<Result<DirView, IoErrorKind>>,
    ) -> (r: Result<(), DirectoryLoadFailed>)
        requires
            old(self).wf(),
            (cur matches Ok(v) ==> v.wf() && v@.path == old(self)@.current.path),
            (par is Some) <==> (old(self)@.parent is Some),
            (par matches Some(Ok(p)) ==> p.wf() && p@.path == old(self)@.parent.unwrap().path),
        ensures
            final(self).wf(),
            (match cur {
                Err(k) => *final(self) == *old(self) && (r matches Err(e) && e@.path == old(
                    self,
                )@.current.path && e@.cause == k),
                Ok(cv) => match par {
                    Some(Err(k)) => *final(self) == *old(self) && (r matches Err(e) && e@.path
                        == old(self)@.parent.unwrap().path && e@.cause == k),
                    Some(Ok(pv)) => r is Ok && final(self)@ == (TabM {
                        id: old(self)@.id,
                        parent: Some(refreshed_m(old(self)@.parent.unwrap(), pv@)),
                        current: refreshed_m(old(self)@.current, cv@),
                        preview: refreshed_m(old(self)@.current, cv@).selected(),
                    }),
                    None => r is Ok && final(self)@ == (TabM {
                        id: old(self)@.id,
                        parent: None,
                        current: refreshed_m(old(self)@.current, cv@),
                        preview: refreshed_m(old(self)@.current, cv@).selected(),
                    }),
                },
            }),
    {
        match cur {
            Err(k) => {
                let p = self.current_view.path.clone();
                Err(DirectoryLoadFailed { path: p, cause: k })
            },
            Ok(cv) => {
                let mut cv = cv;
                match par {
                    Some(Err(k)) => {
                        let p = self.parent_view.as_ref().unwrap().path.clone();
                        Err(DirectoryLoadFailed { path: p, cause: k })
                    },
                    Some(Ok(pv)) => {
                        let mut pv = pv;
                        match &self.preview_target {
                            Some(e) => cv.retarget(&e.path),
                            None => cv.reset_selection(),
                        }
                        let parent_sel = self.parent_view.as_ref().unwrap().selected_entry();
                        match &parent_sel {
                            Some(e) => pv.retarget(&e.path),
                            None => pv.reset_selection(),
                        }
                        self.current_view = cv;
                        self.parent_view = Some(pv);
                        self.preview_target = self.current_view.selected_entry();
                        Ok(())
                    },
                    None => {
                        match &self.preview_target {
                            Some(e) => cv.retarget(&e.path),
                            None => cv.reset_selection(),
                        }
                        self.current_view = cv;
                        self.preview_target = self.current_view.selected_entry();
                        Ok(())
                    },
                }
            },
        }
    }
}

/// In every consistent tab, the parent view lists exactly the directory
/// above the current one whenever a parent exists, and the preview target's
/// path is exactly the path of the entry under the current view's cursor
/// whenever the current view is non-empty.
pub proof fn lemma_consistent_tab(t: TabM)
    requires
        t.wf(),
    ensures
        (t.parent matches Some(p) ==> p.path == t.current.path.drop_last()),
        t.current.entries.len() > 0 ==> (t.preview matches Some(e) && e.path == t.current.entries[
            t.current.sel
        ].path),
{
}

/// Entering a directory and immediately going back restores the current
/// view — its path and its cursor — whatever listing `g` the re-read of
/// the old parent directory produced, because `enter` keeps the old
/// current view whole as the new parent view and `go_back` re-installs it.
pub proof fn lemma_enter_back_round_trip(t: TabM, v: ViewM, g: Option<ViewM>)
    requires
        t.wf(),
        t.enter_target() is Some,
        v.path == t.enter_target().unwrap(),
    ensures
        back_ok_m(enter_ok_m(t, v), g).current == t.current,
        back_ok_m(enter_ok_m(t, v), g).current.path == t.current.path,
        back_ok_m(enter_ok_m(t, v), g).current.sel == t.current.sel,
{
}

} // verus!
