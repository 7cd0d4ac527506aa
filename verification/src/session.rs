//! The composition root: the open tabs, the UI mode, and the status line,
//! driven one command at a time.
//!
//! The caller owns the blocking event loop: it reads one key, hands it to
//! `on_key`, performs the directory read a `Load` effect asks for, hands
//! the outcome to `on_load`, and redraws from the session's state. All
//! decisions stand here, verified; no I/O does.

use vstd::prelude::*;

use crate::errors::DirectoryLoadFailed;
use crate::errors::IoErrorKind;
use crate::errors::LoadErrM;
use crate::fs_path::AbsPath;
use crate::input::Command;
use crate::input::Key;
use crate::input::Mode;
use crate::input::classify;
use crate::input::classify_m;
use crate::listing::DirView;
use crate::registry::RegistryM;
use crate::registry::TabRegistry;
use crate::tab::BackStep;
use crate::tab::Tab;
use crate::tab::TabM;
use crate::tab::back_ok_m;
use crate::tab::enter_ok_m;
use crate::tab::tab_move_m;

verus! {

/// Which navigation step a requested directory read belongs to.
#[derive(Clone, Copy, Debug, PartialEq, Eq, Structural)]
pub enum NavKind {
    Enter,
    Back,
}

/// The mathematical value of an `Effect`.
pub ghost enum EffectM {
    Idle,
    Quit,
    Load(Seq<Seq<char>>, NavKind),
}

/// What the caller must do after a command: nothing, end the session, or
/// read the named directory and hand the outcome to `on_load`.
pub enum Effect {
    Idle,
    QuitRequested,
    Load(AbsPath, NavKind),
}

impl View for Effect {
    type V = EffectM;

    open spec fn view(&self) -> EffectM {
        match self {
            Effect::Idle => EffectM::Idle,
            Effect::QuitRequested => EffectM::Quit,
            Effect::Load(p, nav) => EffectM::Load(p@, *nav),
        }
    }
}

/// The mathematical value of a `Session`.
#[verifier::ext_equal]
pub ghost struct SessionM {
    pub registry: RegistryM,
    pub mode: Mode,
    pub last_error: Option<LoadErrM>,
}

impl SessionM {
    /// A live session: a consistent registry that still holds a tab.
    pub open spec fn wf(self) -> bool {
        self.registry.wf() && self.registry.tabs.len() > 0
    }

    pub open spec fn focused_tab(self) -> TabM {
        self.registry.tabs[self.registry.focused]
    }
}

pub open spec fn toggled(m: Mode) -> Mode {
    match m {
        Mode::Normal => Mode::Command,
        Mode::Command => Mode::Normal,
    }
}

/// How one command changes the session state. Commands that need a
/// directory read (`Enter` always, `Back` below a non-root parent) change
/// nothing yet: the state moves when `on_load` gets the outcome.
pub open spec fn step_m(s: SessionM, cmd: Command) -> SessionM {
    match cmd {
        Command::MoveUp => SessionM {
            registry: RegistryM {
                tabs: s.registry.tabs.update(s.registry.focused, tab_move_m(s.focused_tab(), -1)),
                focused: s.registry.focused,
            },
            ..s
        },
        Command::MoveDown => SessionM {
            registry: RegistryM {
                tabs: s.registry.tabs.update(s.registry.focused, tab_move_m(s.focused_tab(), 1)),
                focused: s.registry.focused,
            },
            ..s
        },
        Command::Enter => s,
        Command::Back => match s.focused_tab().parent {
            None => s,
            Some(p) => if p.path.len() == 0 {
                SessionM {
                    registry: RegistryM {
                        tabs: s.registry.tabs.update(
                            s.registry.focused,
                            back_ok_m(s.focused_tab(), None),
                        ),
                        focused: s.registry.focused,
                    },
                    ..s
                }
            } else {
                s
            },
        },
        Command::ToggleCommandMode => SessionM { mode: toggled(s.mode), ..s },
        Command::Quit => s,
        Command::SwitchTab(i) => if i < s.registry.tabs.len() {
            SessionM { registry: RegistryM { tabs: s.registry.tabs, focused: i as int }, ..s }
        } else {
            s
        },
        Command::Unhandled => s,
    }
}

/// What the caller is asked to do for one command.
pub open spec fn effect_m(s: SessionM, cmd: Command) -> EffectM {
    match cmd {
        Command::Enter => match s.focused_tab().enter_target() {
            Some(p) => EffectM::Load(p, NavKind::Enter),
            None => EffectM::Idle,
        },
        Command::Back => match s.focused_tab().back_load_target() {
            Some(p) => EffectM::Load(p, NavKind::Back),
            None => EffectM::Idle,
        },
        Command::Quit => EffectM::Quit,
        _ => EffectM::Idle,
    }
}

/// One running browser: the tab registry, the UI mode, and the last
/// navigation failure for the status line.
pub struct Session {
    pub registry: TabRegistry,
    pub mode: Mode,
    pub last_error: Option<DirectoryLoadFailed>,
}

impl View for Session {
    type V = SessionM;

    open spec fn view(&self) -> SessionM {
        SessionM {
            registry: self.registry@,
            mode: self.mode,
            last_error: self.last_error.deep_view(),
        }
    }
}

impl Session {
    pub open spec fn wf(&self) -> bool {
        self@.wf()
    }

    /// A session starts with one open tab, in Normal mode, with a clear
    /// status line.
    pub fn new(first_tab: Tab) -> (r: Session)
        requires
            first_tab.wf(),
        ensures
            r.wf(),
            r@.registry.tabs == seq![first_tab@],
            r@.registry.focused == 0,
            r@.mode == Mode::Normal,
            r@.last_error is None,
    {
        let mut registry = TabRegistry::new();
        let added = registry.add(first_tab);
        proof {
            assert(added is Ok);
            assert(registry@.tabs =~= seq![first_tab@]);
        }
        Session { registry, mode: Mode::Normal, last_error: None }
    }

    /// Apply one resolved command; the returned effect tells the caller
    /// what it still has to do.
    pub fn on_command(&mut self, cmd: Command) -> (eff: Effect)
        requires
            old(self).wf(),
        ensures
            final(self).wf(),
            final(self)@ == step_m(old(self)@, cmd),
            eff@ == effect_m(old(self)@, cmd),
    {
        match cmd {
            Command::MoveUp => {
                self.registry.focused_move_selection(-1);
                proof {
                    assert(self@ =~= step_m(old(self)@, cmd));
                }
                Effect::Idle
            },
            Command::MoveDown => {
                self.registry.focused_move_selection(1);
                proof {
                    assert(self@ =~= step_m(old(self)@, cmd));
                }
                Effect::Idle
            },
            Command::Enter => match self.registry.focused_enter_target() {
                Some(p) => Effect::Load(p, NavKind::Enter),
                None => Effect::Idle,
            },
            Command::Back => {
                let step = self.registry.focused_go_back_step();
                proof {
                    assert(self@ =~= step_m(old(self)@, cmd));
                }
                match step {
                    BackStep::NoParent => Effect::Idle,
                    BackStep::Rebased => Effect::Idle,
                    BackStep::Load(q) => Effect::Load(q, NavKind::Back),
                }
            },
            Command::ToggleCommandMode => {
                self.mode = match self.mode {
                    Mode::Normal => Mode::Command,
                    Mode::Command => Mode::Normal,
                };
                proof {
                    assert(self@ =~= step_m(old(self)@, cmd));
                }
                Effect::Idle
            },
            Command::Quit => Effect::QuitRequested,
            Command::SwitchTab(i) => {
                let _ = self.registry.focus_position(i);
                proof {
                    assert(self@ =~= step_m(old(self)@, cmd));
                }
                Effect::Idle
            },
            Command::Unhandled => Effect::Idle,
        }
    }

    /// Classify one raw key under the current mode and apply the result.
    pub fn on_key(&mut self, key: Key) -> (eff: Effect)
        requires
            old(self).wf(),
        ensures
            final(self).wf(),
            final(self)@ == step_m(old(self)@, classify_m(old(self)@.mode, key)),
            eff@ == effect_m(old(self)@, classify_m(old(self)@.mode, key)),
    {
        let cmd = classify(self.mode, key);
        self.on_command(cmd)
    }

    /// Hand back the outcome of a directory read that a `Load` effect asked
    /// for. On success the focused tab is re-based and the status line
    /// cleared; on failure every tab is left exactly as it was and the
    /// failure is put on the status line.
    pub fn on_load(&mut self, nav: NavKind, outcome: Result<DirView, IoErrorKind>)
        requires
            old(self).wf(),
            nav == NavKind::Enter ==> old(self)@.focused_tab().enter_target() is Some && (
            outcome matches Ok(v) ==> v.wf() && v@.path == old(
                self,
            )@.focused_tab().enter_target().unwrap()),
            nav == NavKind::Back ==> old(self)@.focused_tab().back_load_target() is Some && (
            outcome matches Ok(v) ==> v.wf() && v@.path == old(
                self,
            )@.focused_tab().back_load_target().unwrap()),
        ensures
            final(self).wf(),
            final(self)@.mode == old(self)@.mode,
            final(self)@.registry.focused == old(self)@.registry.focused,
            (match outcome {
                Ok(v) => final(self)@.registry.tabs == old(self)@.registry.tabs.update(
                    old(self)@.registry.focused,
                    if nav == NavKind::Enter {
                        enter_ok_m(old(self)@.focused_tab(), v@)
                    } else {
                        back_ok_m(old(self)@.focused_tab(), Some(v@))
                    },
                ) && final(self)@.last_error is None,
                Err(k) => final(self)@.registry == old(self)@.registry && (final(self)@.last_error
                    matches Some(e) && e.path == (if nav == NavKind::Enter {
                    old(self)@.focused_tab().enter_target().unwrap()
                } else {
                    old(self)@.focused_tab().back_load_target().unwrap()
                }) && e.cause == k),
            }),
    {
        let r = match nav {
            NavKind::Enter => self.registry.focused_enter(Some(outcome)),
            NavKind::Back => self.registry.focused_go_back_finish(outcome),
        };
        match r {
            Ok(()) => {
                self.last_error = None;
            },
            Err(e) => {
                self.last_error = Some(e);
            },
        }
    }
}

} // verus!
