//! The atomic save protocol, as a state machine driven by the caller.
//!
//! A save stages the new blob in a fresh file beside the target, writes it
//! whole, syncs it to stable storage and only then renames it onto the
//! target. The machine says which action comes next; the caller performs it
//! and reports the outcome. Any failure ends the save: the staging file is
//! discarded and the error is reported, with no retry.
use vstd::prelude::*;

use crate::error::{BackendError, IoErrorKind};
use crate::path::{staging_dir_of, PathBackend};

verus! {

/// How far a save has gone.
#[derive(Clone, Copy, Debug, PartialEq, Eq, Structural)]
pub enum SavePhase {
    /// Nothing done yet: the staging file is to be created.
    Start,
    /// The staging file exists and is empty: the blob is to be written.
    Staged,
    /// The blob is written: the staging file is to be synced.
    Written,
    /// The staging file is durable: it is to be renamed onto the target.
    Synced,
    /// The rename succeeded: the target holds the new blob.
    Persisted,
    /// A step failed: the target was left as it was.
    Aborted,
}

/// What the caller is asked to do next.
#[derive(Debug)]
pub enum SaveAction {
    /// Create a new, uniquely named staging file in this directory.
    CreateStaging(String),
    /// Write the whole blob to the staging file.
    WriteStaging,
    /// Force the staging file's content to stable storage.
    SyncStaging,
    /// Rename the staging file onto this path, replacing what is there.
    PersistStaging(String),
    /// Remove the staging file, then report this error.
    Discard(BackendError),
    /// Report this error; no staging file exists.
    Fail(BackendError),
    /// Report success.
    Complete,
}

/// The phase that follows `p` when the action asked for in `p` had outcome `o`.
pub open spec fn next_phase(p: SavePhase, o: Result<(), IoErrorKind>) -> SavePhase {
    match o {
        Ok(()) => match p {
            SavePhase::Start => SavePhase::Staged,
            SavePhase::Staged => SavePhase::Written,
            SavePhase::Written => SavePhase::Synced,
            SavePhase::Synced => SavePhase::Persisted,
            _ => p,
        },
        Err(_) => match p {
            SavePhase::Persisted => p,
            _ => SavePhase::Aborted,
        },
    }
}

/// Whether `a` is the action asked for once the action pending in phase `p`
/// had outcome `o`, in a save onto `target`: the next step after a success,
/// the report of the failure (with the discard of a staging file that
/// exists) after a failure.
pub open spec fn is_next_action(
    p: SavePhase,
    o: Result<(), IoErrorKind>,
    target: Seq<char>,
    a: SaveAction,
) -> bool {
    match o {
        Ok(()) => match p {
            SavePhase::Start => a is WriteStaging,
            SavePhase::Staged => a is SyncStaging,
            SavePhase::Written => a matches SaveAction::PersistStaging(t) && t@ == target,
            SavePhase::Synced => a is Complete,
            _ => false,
        },
        Err(k) => match p {
            SavePhase::Start => a == SaveAction::Fail(BackendError::Io(k)),
            SavePhase::Staged | SavePhase::Written | SavePhase::Synced => a
                == SaveAction::Discard(BackendError::Io(k)),
            _ => false,
        },
    }
}

/// Whether `a` is the action that a save onto `target` waits on in phase `p`:
/// create the staging file, write it, sync it, rename it onto the target;
/// once persisted, report success.
pub open spec fn is_pending_action(p: SavePhase, target: Seq<char>, a: SaveAction) -> bool {
    match p {
        SavePhase::Start => a is CreateStaging,
        SavePhase::Staged => a is WriteStaging,
        SavePhase::Written => a is SyncStaging,
        SavePhase::Synced => a matches SaveAction::PersistStaging(t) && t@ == target,
        SavePhase::Persisted => a is Complete,
        SavePhase::Aborted => a is Discard || a is Fail,
    }
}

/// After a success the machine asks for the action of the phase it enters,
/// and after a failure for the report of that failure: so the steps of a
/// save come in their fixed order, each only after the one before succeeded.
pub proof fn lemma_actions_in_order(
    p: SavePhase,
    o: Result<(), IoErrorKind>,
    target: Seq<char>,
    a: SaveAction,
)
    requires
        !is_finished(p),
        is_next_action(p, o, target, a),
    ensures
        is_pending_action(next_phase(p, o), target, a),
        o matches Err(k) ==> (a == SaveAction::Discard(BackendError::Io(k)) || a
            == SaveAction::Fail(BackendError::Io(k))),
{
}

/// Whether the save has ended.
pub open spec fn is_finished(p: SavePhase) -> bool {
    p is Persisted || p is Aborted
}

/// One run of the atomic save protocol on a target path.
pub struct AtomicSave {
    target: String,
    phase: SavePhase,
}

impl AtomicSave {
    /// The path the save replaces.
    pub closed spec fn target_view(&self) -> Seq<char> {
        self.target@
    }

    /// How far the save has gone.
    pub closed spec fn phase_view(&self) -> SavePhase {
        self.phase
    }

    /// How far the save has gone.
    pub fn phase(&self) -> (r: SavePhase)
        ensures
            r == self.phase_view(),
    {
        self.phase
    }

    /// Takes the outcome of the last action asked for and says what comes next.
    pub fn step(&mut self, outcome: Result<(), IoErrorKind>) -> (a: SaveAction)
        requires
            !is_finished(old(self).phase_view()),
        ensures
            final(self).target_view() == old(self).target_view(),
            final(self).phase_view() == next_phase(old(self).phase_view(), outcome),
            is_next_action(old(self).phase_view(), outcome, old(self).target_view(), a),
    {
        match outcome {
            Ok(()) => match self.phase {
                SavePhase::Start => {
                    self.phase = SavePhase::Staged;
                    SaveAction::WriteStaging
                },
                SavePhase::Staged => {
                    self.phase = SavePhase::Written;
                    SaveAction::SyncStaging
                },
                SavePhase::Written => {
                    self.phase = SavePhase::Synced;
                    SaveAction::PersistStaging(self.target.clone())
                },
                _ => {
                    self.phase = SavePhase::Persisted;
                    SaveAction::Complete
                },
            },
            Err(k) => {
                let staged = self.phase != SavePhase::Start;
                self.phase = SavePhase::Aborted;
                if staged {
                    SaveAction::Discard(BackendError::Io(k))
                } else {
                    SaveAction::Fail(BackendError::Io(k))
                }
            },
        }
    }
}

impl PathBackend {
    /// Starts an atomic save of a new blob onto this handle's file. The first
    /// action creates the staging file in [`PathBackend::staging_dir`].
    pub fn begin_save(&self) -> (r: (AtomicSave, SaveAction))
        ensures
            r.0.target_view() == self@,
            r.0.phase_view() == SavePhase::Start,
            r.1 matches SaveAction::CreateStaging(d) && d@ == staging_dir_of(self@),
            is_pending_action(SavePhase::Start, self@, r.1),
    {
        let dir = self.staging_dir();
        (AtomicSave { target: self.path().clone(), phase: SavePhase::Start }, SaveAction::CreateStaging(dir))
    }
}

} // verus!
