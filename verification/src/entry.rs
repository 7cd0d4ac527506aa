//! One filesystem object as a directory listing shows it.

use vstd::prelude::*;

use crate::fs_path::AbsPath;

verus! {

/// What kind of object an entry is.
#[derive(Clone, Copy, Debug, PartialEq, Eq, Structural)]
pub enum EntryKind {
    Directory,
    File,
    Other,
}

/// The mathematical value of an `Entry`.
#[verifier::ext_equal]
pub ghost struct EntryM {
    pub path: Seq<Seq<char>>,
    pub kind: EntryKind,
}

/// One filesystem object: its absolute path and its kind. The name shown
/// for it is the final path component. Immutable once read.
pub struct Entry {
    pub path: AbsPath,
    pub kind: EntryKind,
}

impl View for Entry {
    type V = EntryM;

    open spec fn view(&self) -> EntryM {
        EntryM { path: self.path@, kind: self.kind }
    }
}

impl DeepView for Entry {
    type V = EntryM;

    open spec fn deep_view(&self) -> EntryM {
        self@
    }
}

/// An entry of the listing of directory `dir`: its path is `dir` extended
/// by the entry's own non-empty name.
pub open spec fn entry_in_dir(e: EntryM, dir: Seq<Seq<char>>) -> bool {
    &&& e.path.len() == dir.len() + 1
    &&& e.path.drop_last() == dir
    &&& e.path.last().len() > 0
}

impl Clone for Entry {
    fn clone(&self) -> (r: Self)
        ensures
            r@ == self@,
    {
        Entry { path: self.path.clone(), kind: self.kind }
    }
}

impl Entry {
    pub fn new(path: AbsPath, kind: EntryKind) -> (r: Entry)
        ensures
            r@ == (EntryM { path: path@, kind }),
    {
        Entry { path, kind }
    }

    /// The name this entry is listed under: its final path component.
    pub fn name(&self) -> (r: Option<&String>)
        ensures
            self@.path.len() == 0 ==> r is None,
            self@.path.len() > 0 ==> (r matches Some(s) && s@ == self@.path.last()),
    {
        self.path.last_component()
    }

    pub fn is_dir(&self) -> (r: bool)
        ensures
            r == (self@.kind == EntryKind::Directory),
    {
        match self.kind {
            EntryKind::Directory => true,
            EntryKind::File => false,
            EntryKind::Other => false,
        }
    }
}

} // verus!
