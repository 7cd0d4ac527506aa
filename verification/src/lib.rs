//! Navigation core of a multi-tab, Miller-column terminal file browser.
//!
//! The library models directory listings (`DirView`), browsing sessions
//! (`Tab`), the set of open tabs (`TabRegistry`), keyboard classification
//! (`input`), and the session-wide state machine (`Session`). Everything
//! here is pure state and decisions: reading directories and drawing to a
//! terminal are left to the caller, which hands listings in as plain values
//! and carries the requested loads out.

pub mod entry;
pub mod errors;
pub mod fs_path;
pub mod input;
pub mod listing;
pub mod registry;
pub mod session;
pub mod tab;

pub use entry::Entry;
pub use entry::EntryKind;
pub use fs_path::AbsPath;
pub use listing::DirView;
pub use registry::TabRegistry;
pub use session::Session;
pub use tab::Tab;
