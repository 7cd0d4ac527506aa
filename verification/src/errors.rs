//! Error values surfaced by navigation and by the tab registry.

use vstd::prelude::*;

use crate::fs_path::AbsPath;

verus! {

/// Why a directory read failed, as the reading collaborator reports it.
#[derive(Clone, Copy, Debug, PartialEq, Eq, Structural)]
pub enum IoErrorKind {
    NotFound,
    PermissionDenied,
    NotADirectory,
    Other,
}

/// The mathematical value of a `DirectoryLoadFailed`.
#[verifier::ext_equal]
pub ghost struct LoadErrM {
    pub path: Seq<Seq<char>>,
    pub cause: IoErrorKind,
}

/// A navigation step had to read a directory and the read failed. The
/// attempted step is rolled back; this value is surfaced as status text.
#[derive(Debug)]
pub struct DirectoryLoadFailed {
    pub path: AbsPath,
    pub cause: IoErrorKind,
}

impl View for DirectoryLoadFailed {
    type V = LoadErrM;

    open spec fn view(&self) -> LoadErrM {
        LoadErrM { path: self.path@, cause: self.cause }
    }
}

impl DeepView for DirectoryLoadFailed {
    type V = LoadErrM;

    open spec fn deep_view(&self) -> LoadErrM {
        self@
    }
}

/// Why a registry operation was refused.
#[derive(Clone, Copy, Debug, PartialEq, Eq, Structural)]
pub enum RegistryError {
    /// `add` was given an id that already names a tab.
    DuplicateTabId,
    /// `remove` or `focus` was given an id that names no tab.
    TabNotFound,
    /// `remove` would have left the registry without any tab; the caller
    /// must instead end the session.
    LastTab,
}

} // verus!
