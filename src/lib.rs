//! A file-backed byte-blob store with crash-safe saves.
//!
//! The library holds the decisions of the store: how a handle comes into
//! existence (open an existing file, create an empty one, or create one and
//! seed it once), and the atomic save protocol that replaces the stored blob
//! through a staging file, a sync and a rename. The file-system work itself is
//! done by the caller, who performs each requested action and reports its
//! outcome back. The `model` module states what a save and each opening policy
//! leave on disk, and proves it.

pub mod error;
pub mod model;
pub mod path;
pub mod save;
