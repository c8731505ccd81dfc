//! The location handle and the policies that create it.
use vstd::prelude::*;

use crate::error::{BackendError, BackendResult, IoErrorKind};

verus! {

/// The parent directory that `std::path::Path::parent` gives for a path,
/// if it gives one.
pub uninterp spec fn parent_path_of(p: Seq<char>) -> Option<Seq<char>>;

/// The name of the current directory.
pub open spec fn current_dir() -> Seq<char> {
    seq!['.']
}

/// The directory where the staging file of a save on `p` is created: the
/// parent directory of `p`, or the current directory when `p` has none.
pub open spec fn staging_dir_of(p: Seq<char>) -> Seq<char> {
    match parent_path_of(p) {
        Some(d) => d,
        None => current_dir(),
    }
}

/// Relies on `std::path::Path::parent`: the parent of a path depends on the
/// path alone, and the empty path has none.
#[verifier::external_body]
fn parent_of(p: &String) -> (r: Option<String>)
    ensures
        r matches Some(d) ==> parent_path_of(p@) == Some(d@),
        r is None ==> parent_path_of(p@) is None,
        p@.len() == 0 ==> r is None,
{
    match std::path::Path::new(p.as_str()).parent() {
        Some(d) => Some(d.to_string_lossy().into_owned()),
        None => None,
    }
}

/// The directory to stage in, given the parent directory of the target (if any).
pub fn dir_or_current(parent: Option<String>) -> (r: String)
    ensures
        r@ == match parent {
            Some(d) => d@,
            None => current_dir(),
        },
{
    match parent {
        Some(d) => d,
        None => {
            let r = String::from_str(".");
            proof {
                reveal_strlit(".");
                assert(r@ =~= current_dir());
            }
            r
        },
    }
}

/// A result with its value dropped: `Ok(())` or the error.
pub open spec fn status<T>(r: BackendResult<T>) -> Result<(), BackendError> {
    match r {
        Ok(_) => Ok(()),
        Err(e) => Err(e),
    }
}

/// The outcome of a file-system step as a backend result: its failure kind,
/// wrapped as an I/O error.
pub open spec fn io_result(o: Result<(), IoErrorKind>) -> Result<(), BackendError> {
    match o {
        Ok(()) => Ok(()),
        Err(k) => Err(BackendError::Io(k)),
    }
}

/// Whether the seeding initializer is owed: exactly when the file did not
/// exist before the handle was created.
pub open spec fn seed_owed(existed: bool) -> bool {
    !existed
}

/// A handle on a blob stored in one file, named by its path.
///
/// The handle keeps no open file between operations: each read and each save
/// opens the file afresh.
#[derive(Debug)]
pub struct PathBackend {
    path: String,
}

impl View for PathBackend {
    type V = Seq<char>;

    /// The path of the file that holds the blob.
    closed spec fn view(&self) -> Seq<char> {
        self.path@
    }
}

/// What creating a handle with a seeding initializer leaves to do.
pub enum InitStep {
    /// The file already existed: the handle is ready and the initializer
    /// must not run.
    Ready(PathBackend),
    /// The file was created just now: the initializer runs once on it, and
    /// its outcome goes to [`PathBackend::after_seed`].
    Seed(PathBackend),
}

impl PathBackend {
    /// The path of the stored blob.
    pub fn path(&self) -> (r: &String)
        ensures
            r@ == self@,
    {
        &self.path
    }

    /// Opens a handle on a file that must exist already. `opened` is the
    /// outcome of opening the file at `path` for reading.
    pub fn from_path_or_fail(path: String, opened: Result<(), IoErrorKind>) -> (r: BackendResult<
        Self,
    >)
        ensures
            status(r) == io_result(opened),
            r matches Ok(b) ==> b@ == path@,
    {
        match opened {
            Ok(()) => Ok(PathBackend { path }),
            Err(k) => Err(BackendError::Io(k)),
        }
    }

    /// Opens a handle on a file that is created empty if it does not exist.
    /// `existed` is whether a regular file stood at `path` before, and
    /// `opened` the outcome of opening it for writing with creation allowed.
    /// On success the handle comes back with `existed`.
    pub fn from_path_or_create(path: String, existed: bool, opened: Result<(), IoErrorKind>) -> (r:
        BackendResult<(Self, bool)>)
        ensures
            status(r) == io_result(opened),
            r matches Ok(p) ==> p.0@ == path@ && p.1 == existed,
    {
        match opened {
            Ok(()) => Ok((PathBackend { path }, existed)),
            Err(k) => Err(BackendError::Io(k)),
        }
    }

    /// Opens a handle on a file that is created if it does not exist, and
    /// says whether the seeding initializer is owed: exactly when the file
    /// did not exist before. `existed` and `opened` are as for
    /// [`PathBackend::from_path_or_create`].
    pub fn from_path_or_create_and(
        path: String,
        existed: bool,
        opened: Result<(), IoErrorKind>,
    ) -> (r: BackendResult<InitStep>)
        ensures
            status(r) == io_result(opened),
            r matches Ok(s) ==> match s {
                InitStep::Ready(b) => !seed_owed(existed) && b@ == path@,
                InitStep::Seed(b) => seed_owed(existed) && b@ == path@,
            },
    {
        match opened {
            Ok(()) => {
                let b = PathBackend { path };
                if existed {
                    Ok(InitStep::Ready(b))
                } else {
                    Ok(InitStep::Seed(b))
                }
            },
            Err(k) => Err(BackendError::Io(k)),
        }
    }

    /// Finishes the creation of a freshly seeded handle, given the outcome
    /// of the initializer: its failure is the failure of the whole creation.
    pub fn after_seed(self, seeded: Result<(), IoErrorKind>) -> (r: BackendResult<Self>)
        ensures
            status(r) == io_result(seeded),
            r matches Ok(b) ==> b@ == self@,
    {
        match seeded {
            Ok(()) => Ok(self),
            Err(k) => Err(BackendError::Io(k)),
        }
    }

    /// The directory where a save creates its staging file: the parent
    /// directory of the path, or the current directory when it has none.
    /// Staging there keeps the final rename on one file system.
    pub fn staging_dir(&self) -> (r: String)
        ensures
            r@ == staging_dir_of(self@),
    {
        dir_or_current(parent_of(&self.path))
    }
}

} // verus!
