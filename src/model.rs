//! A model of the files a backend touches, and the laws the policies and the
//! save protocol obey in it.
//!
//! The model holds what a reader of the target could see: the target's
//! content, and the staging file of a save in progress. Each action asked for
//! by the save machine changes the model as the file system would; the
//! rename onto the target is a single step, as a same-directory rename is.
use vstd::prelude::*;

use crate::error::{BackendError, IoErrorKind};
use crate::path::{io_result, seed_owed};
use crate::save::{is_finished, next_phase, SavePhase};

verus! {

/// The files of one save: the target and the staging file.
pub struct Disk {
    /// The content of the target file.
    pub target: Seq<u8>,
    /// Whether the target's content is on stable storage.
    pub target_durable: bool,
    /// The content of the staging file, if one exists.
    pub staging: Option<Seq<u8>>,
    /// Whether the staging file's content is on stable storage.
    pub staging_synced: bool,
}

/// The disk before a save: the target holds `old`, and no staging file exists.
pub open spec fn disk_before(old: Seq<u8>) -> Disk {
    Disk { target: old, target_durable: true, staging: None, staging_synced: false }
}

/// The disk after the action pending in phase `p` was performed with outcome
/// `o`, for a save of `data`. The action pending in each phase is the one
/// `is_pending_action` gives: create the staging file, write `data` to it,
/// sync it, rename it onto the target. On a failure the failed
/// step left the target alone, and the staging file (if any) is discarded.
pub open spec fn perform(d: Disk, p: SavePhase, o: Result<(), IoErrorKind>, data: Seq<u8>) -> Disk {
    match o {
        Ok(()) => match p {
            SavePhase::Start => Disk { staging: Some(Seq::empty()), staging_synced: false, ..d },
            SavePhase::Staged => Disk { staging: Some(data), staging_synced: false, ..d },
            SavePhase::Written => Disk { staging_synced: true, ..d },
            SavePhase::Synced => match d.staging {
                Some(s) => Disk {
                    target: s,
                    target_durable: d.staging_synced,
                    staging: None,
                    staging_synced: false,
                },
                None => d,
            },
            _ => d,
        },
        Err(_) => Disk { staging: None, staging_synced: false, ..d },
    }
}

/// The phase and the disk reached from phase `p` and disk `d` when the
/// actions asked for have the outcomes `os` in turn. A run that stops before
/// the save is finished is a save interrupted there.
pub open spec fn run(p: SavePhase, d: Disk, data: Seq<u8>, os: Seq<Result<(), IoErrorKind>>) -> (
    SavePhase,
    Disk,
)
    decreases os.len(),
{
    if is_finished(p) || os.len() == 0 {
        (p, d)
    } else {
        run(next_phase(p, os[0]), perform(d, p, os[0], data), data, os.drop_first())
    }
}

/// What the disk holds in each phase of a save of `data` over `old`.
pub open spec fn phase_disk(p: SavePhase, d: Disk, old: Seq<u8>, data: Seq<u8>) -> bool {
    match p {
        SavePhase::Start => d == disk_before(old),
        SavePhase::Staged => d.target == old && d.target_durable && d.staging is Some,
        SavePhase::Written => d.target == old && d.target_durable && d.staging == Some(data)
            && !d.staging_synced,
        SavePhase::Synced => d.target == old && d.target_durable && d.staging == Some(data)
            && d.staging_synced,
        SavePhase::Persisted => d.target == data && d.target_durable && d.staging is None,
        SavePhase::Aborted => d.target == old && d.target_durable && d.staging is None,
    }
}

proof fn lemma_run_keeps_phase_disk(
    p: SavePhase,
    d: Disk,
    old: Seq<u8>,
    data: Seq<u8>,
    os: Seq<Result<(), IoErrorKind>>,
)
    requires
        phase_disk(p, d, old, data),
    ensures
        phase_disk(run(p, d, data, os).0, run(p, d, data, os).1, old, data),
    decreases os.len(),
{
    if !(is_finished(p) || os.len() == 0) {
        lemma_run_keeps_phase_disk(
            next_phase(p, os[0]),
            perform(d, p, os[0], data),
            old,
            data,
            os.drop_first(),
        );
    }
}

/// A save is all or nothing: whatever the outcomes of its steps, and wherever
/// it is interrupted, the target holds either its old content or the whole
/// new blob, and the new blob only once the rename succeeded. The new blob is
/// on stable storage when it becomes visible, and a failed save leaves no
/// staging file behind.
pub proof fn lemma_save_all_or_nothing(
    old: Seq<u8>,
    data: Seq<u8>,
    os: Seq<Result<(), IoErrorKind>>,
)
    ensures
        ({
            let (p, d) = run(SavePhase::Start, disk_before(old), data, os);
            &&& p is Persisted ==> d.target == data
            &&& !(p is Persisted) ==> d.target == old
            &&& d.target_durable
            &&& p is Aborted ==> d.staging is None
        }),
{
    lemma_run_keeps_phase_disk(SavePhase::Start, disk_before(old), old, data, os);
}

/// A save whose four steps all succeed finishes with the target holding
/// exactly the new blob, so a read after it returns that blob.
pub proof fn lemma_save_round_trip(old: Seq<u8>, data: Seq<u8>)
    ensures
        ({
            let os = seq![Ok::<(), IoErrorKind>(()), Ok(()), Ok(()), Ok(())];
            let (p, d) = run(SavePhase::Start, disk_before(old), data, os);
            p is Persisted && d.target == data
        }),
{
    let os = seq![Ok::<(), IoErrorKind>(()), Ok(()), Ok(()), Ok(())];
    reveal_with_fuel(run, 5);
    assert(os.drop_first() =~= seq![Ok::<(), IoErrorKind>(()), Ok(()), Ok(())]);
    assert(os.drop_first().drop_first() =~= seq![Ok::<(), IoErrorKind>(()), Ok(())]);
    assert(os.drop_first().drop_first().drop_first() =~= seq![Ok::<(), IoErrorKind>(())]);
    lemma_save_all_or_nothing(old, data, os);
}

/// A save that fails at any step finishes with the target unchanged and the
/// failure's kind reported.
pub proof fn lemma_save_failure_keeps_target(
    old: Seq<u8>,
    data: Seq<u8>,
    os: Seq<Result<(), IoErrorKind>>,
)
    requires
        exists|i: int| 0 <= i < os.len() && os[i] is Err,
        os.len() <= 4,
    ensures
        ({
            let (p, d) = run(SavePhase::Start, disk_before(old), data, os);
            p is Aborted && d.target == old && d.staging is None
        }),
{
    let i = choose|i: int| 0 <= i < os.len() && os[i] is Err;
    lemma_run_fails_at(SavePhase::Start, disk_before(old), old, data, os, i);
    lemma_save_all_or_nothing(old, data, os);
}

/// How many steps a save in phase `p` has yet to take.
spec fn steps_left(p: SavePhase) -> int {
    match p {
        SavePhase::Start => 4,
        SavePhase::Staged => 3,
        SavePhase::Written => 2,
        SavePhase::Synced => 1,
        _ => 0,
    }
}

proof fn lemma_run_fails_at(
    p: SavePhase,
    d: Disk,
    old: Seq<u8>,
    data: Seq<u8>,
    os: Seq<Result<(), IoErrorKind>>,
    i: int,
)
    requires
        !is_finished(p),
        0 <= i < os.len(),
        i < steps_left(p),
        os[i] is Err,
    ensures
        run(p, d, data, os).0 is Aborted,
    decreases os.len(),
{
    if os[0] is Ok {
        assert(os.drop_first()[i - 1] == os[i]);
        lemma_run_fails_at(next_phase(p, os[0]), perform(d, p, os[0], data), old, data, os.drop_first(), i - 1);
    } else {
        reveal_with_fuel(run, 2);
    }
}

/// The outcome of opening the file at a path for reading, where `f` is what
/// the path holds (`None`: no file).
pub open spec fn open_read(f: Option<Seq<u8>>) -> Result<(), IoErrorKind> {
    match f {
        Some(_) => Ok(()),
        None => Err(IoErrorKind::NotFound),
    }
}

/// What the path holds after it is opened for writing with creation allowed:
/// an absent file is created empty, an existing one is kept as it is.
pub open spec fn open_create(f: Option<Seq<u8>>) -> Option<Seq<u8>> {
    match f {
        Some(c) => Some(c),
        None => Some(Seq::empty()),
    }
}

/// What the path holds after an initializer wrote `w` to the file.
pub open spec fn seed(f: Option<Seq<u8>>, w: Seq<u8>) -> Option<Seq<u8>> {
    match f {
        Some(c) => Some(c + w),
        None => Some(w),
    }
}

/// Opening an existing file on a path that holds none fails with a
/// not-found error, and the policy does nothing else to the path.
pub proof fn lemma_open_existing_missing()
    ensures
        io_result(open_read(None)) == Err::<(), BackendError>(BackendError::Io(IoErrorKind::NotFound)),
{
}

/// Opening or creating reports whether a file existed, and leaves a file
/// there: the one that existed, untouched, or else an empty one.
pub proof fn lemma_open_or_create_existence(f: Option<Seq<u8>>)
    ensures
        f is Some ==> open_create(f) == f,
        f is None ==> open_create(f) == Some(Seq::<u8>::empty()),
        open_read(open_create(f)) is Ok,
{
}

/// Opening or creating with an initializer seeds a new file exactly once and
/// never touches an existing one: on an absent path the file ends up holding
/// exactly what the initializer wrote; on a path with a file, its content is
/// kept.
pub proof fn lemma_seed_once(f: Option<Seq<u8>>, w: Seq<u8>)
    ensures
        ({
            let existed = f is Some;
            let created = open_create(f);
            let after = if seed_owed(existed) {
                seed(created, w)
            } else {
                created
            };
            &&& f is None ==> after == Some(w)
            &&& f is Some ==> after == f
        }),
{
    if f is None {
        assert(Seq::<u8>::empty() + w =~= w);
    }
}

} // verus!
