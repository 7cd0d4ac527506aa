//! The set of open tabs, keyed by their unique ids, and the focus.

use vstd::prelude::*;

use crate::errors::DirectoryLoadFailed;
use crate::errors::IoErrorKind;
use crate::errors::RegistryError;
use crate::fs_path::AbsPath;
use crate::listing::DirView;
use crate::tab::BackStep;
use crate::tab::Tab;
use crate::tab::TabM;
use crate::tab::back_ok_m;
use crate::tab::enter_ok_m;
use crate::tab::tab_move_m;

verus! {

/// The mathematical value of a `TabRegistry`: the tabs in insertion order
/// (the tab-bar display order) and the index of the focused one.
#[verifier::ext_equal]
pub ghost struct RegistryM {
    pub tabs: Seq<TabM>,
    pub focused: int,
}

impl RegistryM {
    /// Consistent registry: the focus names a present tab whenever any tab
    /// is present (and is pinned to zero when none is), every tab is
    /// consistent, and no two tabs share an id.
    pub open spec fn wf(self) -> bool {
        &&& (self.tabs.len() > 0 ==> 0 <= self.focused < self.tabs.len())
        &&& (self.tabs.len() == 0 ==> self.focused == 0)
        &&& (forall|i: int| 0 <= i < self.tabs.len() ==> (#[trigger] self.tabs[i]).wf())
        &&& (forall|i: int, j: int|
            0 <= i < j < self.tabs.len() ==> (#[trigger] self.tabs[i].id) != (
            #[trigger] self.tabs[j].id))
    }
}

/// The index of the first tab named `id`, or `tabs.len()` when none is.
pub open spec fn find_id(tabs: Seq<TabM>, id: Seq<char>) -> int
    decreases tabs.len(),
{
    if tabs.len() == 0 {
        0
    } else if tabs.first().id == id {
        0
    } else {
        1 + find_id(tabs.drop_first(), id)
    }
}

pub proof fn lemma_find_id(tabs: Seq<TabM>, id: Seq<char>, i: int)
    requires
        0 <= i <= tabs.len(),
        forall|j: int| 0 <= j < i ==> (#[trigger] tabs[j]).id != id,
        i < tabs.len() ==> tabs[i].id == id,
    ensures
        find_id(tabs, id) == i,
    decreases i,
{
    if tabs.len() == 0 {
    } else if i == 0 {
    } else {
        assert(tabs[0].id != id);
        lemma_find_id(tabs.drop_first(), id, i - 1);
    }
}

/// Taking an element out and putting another back at the same position
/// is exactly a point update of the sequence.
pub proof fn lemma_remove_insert<A>(s: Seq<A>, i: int, x: A)
    requires
        0 <= i < s.len(),
    ensures
        s.remove(i).insert(i, x) == s.update(i, x),
{
    assert(s.remove(i).insert(i, x) =~= s.update(i, x));
}

pub proof fn lemma_find_id_props(tabs: Seq<TabM>, id: Seq<char>)
    ensures
        0 <= find_id(tabs, id) <= tabs.len(),
        find_id(tabs, id) < tabs.len() ==> tabs[find_id(tabs, id)].id == id,
        forall|j: int| 0 <= j < find_id(tabs, id) ==> (#[trigger] tabs[j]).id != id,
    decreases tabs.len(),
{
    if tabs.len() == 0 {
    } else if tabs.first().id == id {
    } else {
        lemma_find_id_props(tabs.drop_first(), id);
        assert forall|j: int| 0 <= j < find_id(tabs, id) implies (#[trigger] tabs[j]).id
            != id by {
            if j > 0 {
                assert(tabs[j] == tabs.drop_first()[j - 1]);
            }
        }
    }
}

/// Mapping from tab id to tab, in insertion order, plus the focused tab.
/// During normal operation it is never left empty: removing the last tab
/// is refused, and closing it instead ends the session.
pub struct TabRegistry {
    tabs: Vec<Tab>,
    focused: usize,
}

impl View for TabRegistry {
    type V = RegistryM;

    closed spec fn view(&self) -> RegistryM {
        RegistryM { tabs: self.tabs.deep_view(), focused: self.focused as int }
    }
}

impl TabRegistry {
    pub open spec fn wf(&self) -> bool {
        self@.wf()
    }

    /// An empty registry; tabs are added before the session starts.
    pub fn new() -> (r: TabRegistry)
        ensures
            r.wf(),
            r@.tabs.len() == 0,
            r@.focused == 0,
    {
        let r = TabRegistry { tabs: Vec::new(), focused: 0 };
        proof {
            assert(r@.tabs =~= Seq::<TabM>::empty());
        }
        r
    }

    pub fn len(&self) -> (r: usize)
        ensures
            r == self@.tabs.len(),
    {
        proof {
            assert(self@.tabs.len() == self.tabs@.len());
        }
        self.tabs.len()
    }

    pub fn focused_index(&self) -> (r: usize)
        ensures
            r == self@.focused,
    {
        self.focused
    }

    /// The tab at position `i` in tab-bar order.
    pub fn tab_at(&self, i: usize) -> (t: &Tab)
        requires
            i < self@.tabs.len(),
        ensures
            t@ == self@.tabs[i as int],
    {
        proof {
            assert(self@.tabs.len() == self.tabs@.len());
        }
        &self.tabs[i]
    }

    /// The focused tab; the registry is never empty while a session runs.
    pub fn focused(&self) -> (t: &Tab)
        requires
            self.wf(),
            self@.tabs.len() > 0,
        ensures
            t@ == self@.tabs[self@.focused],
    {
        proof {
            assert(self@.tabs.len() == self.tabs@.len());
        }
        &self.tabs[self.focused]
    }

    /// The index of the tab named `id`, when one is present.
    fn position_of(&self, id: &String) -> (r: Option<usize>)
        ensures
            (match r {
                Some(i) => i < self@.tabs.len() && find_id(self@.tabs, id@) == i,
                None => find_id(self@.tabs, id@) == self@.tabs.len(),
            }),
    {
        proof {
            assert(self@.tabs.len() == self.tabs@.len());
        }
        let ghost tabs = self@.tabs;
        let mut i: usize = 0;
        while i < self.tabs.len()
            invariant
                i <= self.tabs.len(),
                tabs == self.tabs.deep_view(),
                tabs.len() == self.tabs@.len(),
                forall|j: int| 0 <= j < i ==> (#[trigger] tabs[j]).id != id@,
            decreases self.tabs.len() - i,
        {
            if self.tabs[i].id == *id {
                proof {
                    lemma_find_id(tabs, id@, i as int);
                }
                return Some(i);
            }
            i = i + 1;
        }
        proof {
            lemma_find_id(tabs, id@, tabs.len() as int);
        }
        None
    }

    /// Add a freshly opened tab; refused when its id already names a tab.
    /// The focus does not move (a first tab becomes the focused one).
    pub fn add(&mut self, tab: Tab) -> (r: Result<(), RegistryError>)
        requires
            old(self).wf(),
            tab.wf(),
        ensures
            final(self).wf(),
            (if find_id(old(self)@.tabs, tab@.id) < old(self)@.tabs.len() {
                *final(self) == *old(self) && r == Err::<(), RegistryError>(
                    RegistryError::DuplicateTabId,
                )
            } else {
                final(self)@ == (RegistryM {
                    tabs: old(self)@.tabs.push(tab@),
                    focused: old(self)@.focused,
                }) && r is Ok
            }),
    {
        match self.position_of(&tab.id) {
            Some(_) => Err(RegistryError::DuplicateTabId),
            None => {
                let ghost oldtabs = self@.tabs;
                self.tabs.push(tab);
                proof {
                    lemma_find_id_props(oldtabs, tab@.id);
                    assert(forall|j: int|
                        0 <= j < oldtabs.len() ==> (#[trigger] oldtabs[j]).id != tab@.id);
                    assert(self@.tabs =~= oldtabs.push(tab@));
                    assert(self@ =~= (RegistryM {
                        tabs: old(self)@.tabs.push(tab@),
                        focused: old(self)@.focused,
                    }));
                }
                Ok(())
            },
        }
    }

    /// Close the tab named `id`. Refused when no tab has that id, and when
    /// it is the last remaining tab — the registry never becomes empty
    /// while `focused` may still be asked for; ending the session is the
    /// caller's decision. When the focused tab is removed the focus falls
    /// back to the first tab; otherwise it stays on the same tab.
    pub fn remove(&mut self, id: &String) -> (r: Result<(), RegistryError>)
        requires
            old(self).wf(),
        ensures
            final(self).wf(),
            (if find_id(old(self)@.tabs, id@) == old(self)@.tabs.len() {
                *final(self) == *old(self) && r == Err::<(), RegistryError>(
                    RegistryError::TabNotFound,
                )
            } else if old(self)@.tabs.len() == 1 {
                *final(self) == *old(self) && r == Err::<(), RegistryError>(RegistryError::LastTab)
            } else {
                final(self)@ == (RegistryM {
                    tabs: old(self)@.tabs.remove(find_id(old(self)@.tabs, id@)),
                    focused: if old(self)@.focused == find_id(old(self)@.tabs, id@) {
                        0
                    } else if old(self)@.focused > find_id(old(self)@.tabs, id@) {
                        old(self)@.focused - 1
                    } else {
                        old(self)@.focused
                    },
                }) && r is Ok
            }),
    {
        let pos = match self.position_of(id) {
            None => {
                return Err(RegistryError::TabNotFound);
            },
            Some(i) => i,
        };
        if self.tabs.len() == 1 {
            return Err(RegistryError::LastTab);
        }
        proof {
            assert(self@.tabs.len() == self.tabs@.len());
        }
        let _ = self.tabs.remove(pos);
        if self.focused == pos {
            self.focused = 0;
        } else if self.focused > pos {
            self.focused = self.focused - 1;
        }
        proof {
            assert(self@.tabs =~= old(self)@.tabs.remove(pos as int));
        }
        Ok(())
    }

    /// Focus the tab named `id`; refused when no tab has that id.
    pub fn focus(&mut self, id: &String) -> (r: Result<(), RegistryError>)
        requires
            old(self).wf(),
        ensures
            final(self).wf(),
            (if find_id(old(self)@.tabs, id@) == old(self)@.tabs.len() {
                *final(self) == *old(self) && r == Err::<(), RegistryError>(
                    RegistryError::TabNotFound,
                )
            } else {
                final(self)@ == (RegistryM {
                    tabs: old(self)@.tabs,
                    focused: find_id(old(self)@.tabs, id@),
                }) && r is Ok
            }),
    {
        match self.position_of(id) {
            None => Err(RegistryError::TabNotFound),
            Some(i) => {
                self.focused = i;
                proof {
                    assert(self@ =~= (RegistryM {
                        tabs: old(self)@.tabs,
                        focused: find_id(old(self)@.tabs, id@),
                    }));
                }
                Ok(())
            },
        }
    }

    /// Move the focused tab's cursor by `delta`; see `Tab::move_selection`.
    pub fn focused_move_selection(&mut self, delta: isize)
        requires
            old(self).wf(),
            old(self)@.tabs.len() > 0,
        ensures
            final(self).wf(),
            final(self)@ == (RegistryM {
                tabs: old(self)@.tabs.update(
                    old(self)@.focused,
                    tab_move_m(old(self)@.tabs[old(self)@.focused], delta as int),
                ),
                focused: old(self)@.focused,
            }),
    {
        proof {
            assert(self@.tabs.len() == self.tabs@.len());
        }
        let f = self.focused;
        let mut tab = self.tabs.remove(f);
        tab.move_selection(delta);
        self.tabs.insert(f, tab);
        proof {
            lemma_remove_insert(old(self).tabs@, f as int, tab);
            assert(self.tabs@ == old(self).tabs@.update(f as int, tab));
            assert(self@.tabs =~= old(self)@.tabs.update(f as int, tab@));
            assert(self@ =~= (RegistryM {
                tabs: old(self)@.tabs.update(f as int, tab@),
                focused: f as int,
            }));
        }
    }

    /// The focused tab's `enter` target; see `Tab::enter_target`.
    pub fn focused_enter_target(&self) -> (r: Option<AbsPath>)
        requires
            self.wf(),
            self@.tabs.len() > 0,
        ensures
            (match self@.tabs[self@.focused].enter_target() {
                Some(p) => r matches Some(q) && q@ == p,
                None => r is None,
            }),
    {
        self.focused().enter_target()
    }

    /// Apply `Tab::enter` to the focused tab.
    pub fn focused_enter(&mut self, outcome: Option<Result<DirView, IoErrorKind>>) -> (r: Result<
        (),
        DirectoryLoadFailed,
    >)
        requires
            old(self).wf(),
            old(self)@.tabs.len() > 0,
            (outcome is Some) <==> (old(self)@.tabs[old(self)@.focused].enter_target() is Some),
            (outcome matches Some(Ok(v)) ==> v.wf() && v@.path == old(self)@.tabs[old(
                self,
            )@.focused].enter_target().unwrap()),
        ensures
            final(self).wf(),
            final(self)@.focused == old(self)@.focused,
            (match outcome {
                None => final(self)@ == old(self)@ && r is Ok,
                Some(Err(k)) => final(self)@ == old(self)@ && (r matches Err(e) && e@.path == old(
                    self,
                )@.tabs[old(self)@.focused].enter_target().unwrap() && e@.cause == k),
                Some(Ok(v)) => final(self)@.tabs == old(self)@.tabs.update(
                    old(self)@.focused,
                    enter_ok_m(old(self)@.tabs[old(self)@.focused], v@),
                ) && r is Ok,
            }),
    {
        proof {
            assert(self@.tabs.len() == self.tabs@.len());
        }
        let f = self.focused;
        let mut tab = self.tabs.remove(f);
        let r = tab.enter(outcome);
        self.tabs.insert(f, tab);
        proof {
            lemma_remove_insert(old(self).tabs@, f as int, tab);
            assert(self.tabs@ == old(self).tabs@.update(f as int, tab));
            assert(self@.tabs =~= old(self)@.tabs.update(f as int, tab@));
            if self@.tabs[f as int] == old(self)@.tabs[f as int] {
                assert(self@.tabs =~= old(self)@.tabs);
                assert(self@ =~= old(self)@);
            }
        }
        r
    }

    /// Apply `Tab::go_back_step` to the focused tab.
    pub fn focused_go_back_step(&mut self) -> (r: BackStep)
        requires
            old(self).wf(),
            old(self)@.tabs.len() > 0,
        ensures
            final(self).wf(),
            final(self)@.focused == old(self)@.focused,
            (match old(self)@.tabs[old(self)@.focused].parent {
                None => r is NoParent && final(self)@ == old(self)@,
                Some(p) => if p.path.len() == 0 {
                    r is Rebased && final(self)@.tabs == old(self)@.tabs.update(
                        old(self)@.focused,
                        back_ok_m(old(self)@.tabs[old(self)@.focused], None),
                    )
                } else {
                    (r matches BackStep::Load(q) && q@ == p.path.drop_last()) && final(self)@
                        == old(self)@
                },
            }),
    {
        proof {
            assert(self@.tabs.len() == self.tabs@.len());
        }
        let f = self.focused;
        let mut tab = self.tabs.remove(f);
        let r = tab.go_back_step();
        self.tabs.insert(f, tab);
        proof {
            lemma_remove_insert(old(self).tabs@, f as int, tab);
            assert(self.tabs@ == old(self).tabs@.update(f as int, tab));
            assert(self@.tabs =~= old(self)@.tabs.update(f as int, tab@));
            if self@.tabs[f as int] == old(self)@.tabs[f as int] {
                assert(self@.tabs =~= old(self)@.tabs);
                assert(self@ =~= old(self)@);
            }
        }
        r
    }

    /// Apply `Tab::go_back_finish` to the focused tab.
    pub fn focused_go_back_finish(&mut self, outcome: Result<DirView, IoErrorKind>) -> (r: Result<
        (),
        DirectoryLoadFailed,
    >)
        requires
            old(self).wf(),
            old(self)@.tabs.len() > 0,
            old(self)@.tabs[old(self)@.focused].back_load_target() is Some,
            (outcome matches Ok(v) ==> v.wf() && v@.path == old(self)@.tabs[old(
                self,
            )@.focused].back_load_target().unwrap()),
        ensures
            final(self).wf(),
            final(self)@.focused == old(self)@.focused,
            (match outcome {
                Ok(v) => final(self)@.tabs == old(self)@.tabs.update(
                    old(self)@.focused,
                    back_ok_m(old(self)@.tabs[old(self)@.focused], Some(v@)),
                ) && r is Ok,
                Err(k) => final(self)@ == old(self)@ && (r matches Err(e) && e@.path == old(
                    self,
                )@.tabs[old(self)@.focused].back_load_target().unwrap() && e@.cause == k),
            }),
    {
        proof {
            assert(self@.tabs.len() == self.tabs@.len());
        }
        let f = self.focused;
        let mut tab = self.tabs.remove(f);
        let r = tab.go_back_finish(outcome);
        self.tabs.insert(f, tab);
        proof {
            lemma_remove_insert(old(self).tabs@, f as int, tab);
            assert(self.tabs@ == old(self).tabs@.update(f as int, tab));
            assert(self@.tabs =~= old(self)@.tabs.update(f as int, tab@));
            if self@.tabs[f as int] == old(self)@.tabs[f as int] {
                assert(self@.tabs =~= old(self)@.tabs);
                assert(self@ =~= old(self)@);
            }
        }
        r
    }

    /// Focus the tab at position `i` in tab-bar order; refused (with the
    /// registry unchanged) when no tab sits there.
    pub fn focus_position(&mut self, i: usize) -> (r: Result<(), RegistryError>)
        requires
            old(self).wf(),
        ensures
            final(self).wf(),
            (if i < old(self)@.tabs.len() {
                final(self)@ == (RegistryM { tabs: old(self)@.tabs, focused: i as int }) && r is Ok
            } else {
                *final(self) == *old(self) && r == Err::<(), RegistryError>(
                    RegistryError::TabNotFound,
                )
            }),
    {
        proof {
            assert(self@.tabs.len() == self.tabs@.len());
        }
        if i < self.tabs.len() {
            self.focused = i;
            proof {
                assert(self@ =~= (RegistryM { tabs: old(self)@.tabs, focused: i as int }));
            }
            Ok(())
        } else {
            Err(RegistryError::TabNotFound)
        }
    }
}

} // verus!
