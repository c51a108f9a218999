use vstd::prelude::*;

verus! {

/// Why a delete batch failed.
#[derive(Debug, Clone, PartialEq, Eq)]
pub enum DeleteError {
    AlreadyInProgress,
    EmptyInput,
    RemovalFailed { path: String, cause: String },
    VerificationFailed { path: String },
}

/// What happened to one path of a batch.
#[derive(Debug, Clone, PartialEq, Eq)]
pub enum PathOutcome {
    /// The path did not exist: already done.
    Missing,
    /// The path exists but is no directory: left alone.
    NotADirectory,
    /// Removed, and gone when checked again.
    Removed,
    /// Removal reported success, yet the path exists when checked again.
    StillPresent,
    /// Removal failed with this cause.
    RemoveError(String),
}

/// What to do with a path of a batch, from what was found on disk.
#[derive(Debug, Clone, PartialEq, Eq)]
pub enum PathAction {
    Skip(PathOutcome),
    Remove,
}

/// The single-flight flag: set while a batch runs.
pub struct DeleteGuard {
    pub busy: bool,
}

impl DeleteGuard {
    pub fn new() -> (r: Self)
        ensures
            !r.busy,
    {
        DeleteGuard { busy: false }
    }
}

/// What one path contributes to the batch's result.
pub open spec fn outcome_result(path: String, outcome: PathOutcome) -> Result<(), DeleteError> {
    match outcome {
        PathOutcome::RemoveError(cause) => Err(DeleteError::RemovalFailed { path, cause }),
        PathOutcome::StillPresent => Err(DeleteError::VerificationFailed { path }),
        _ => Ok(()),
    }
}

/// Decides on a path from whether it exists and whether it is a directory.
pub fn plan_path(exists: bool, is_dir: bool) -> (r: PathAction)
    ensures
        !exists ==> r == PathAction::Skip(PathOutcome::Missing),
        exists && !is_dir ==> r == PathAction::Skip(PathOutcome::NotADirectory),
        exists && is_dir ==> r is Remove,
{
    if !exists {
        PathAction::Skip(PathOutcome::Missing)
    } else if !is_dir {
        PathAction::Skip(PathOutcome::NotADirectory)
    } else {
        PathAction::Remove
    }
}

/// The outcome of a removal, from the removal's own report and a second look.
pub fn removal_outcome(removed: Result<(), String>, still_exists: bool) -> (r: PathOutcome)
    ensures
        match removed {
            Err(cause) => r == PathOutcome::RemoveError(cause),
            Ok(_) => r == (if still_exists {
                PathOutcome::StillPresent
            } else {
                PathOutcome::Removed
            }),
        },
{
    match removed {
        Err(cause) => PathOutcome::RemoveError(cause),
        Ok(_) => {
            if still_exists {
                PathOutcome::StillPresent
            } else {
                PathOutcome::Removed
            }
        },
    }
}

/// A batch of paths, handled one by one in the given order.
pub struct DeleteBatch {
    pub paths: Vec<String>,
    pub pos: usize,
    /// The outcomes recorded so far, one per handled path.
    pub outcomes: Ghost<Seq<PathOutcome>>,
}

impl DeleteBatch {
    pub open spec fn wf(&self) -> bool {
        &&& self.pos <= self.paths@.len()
        &&& self.outcomes@.len() == self.pos
        &&& forall|k: int| 0 <= k < self.pos ==> #[trigger] outcome_result(self.paths@[k], self.outcomes@[k]) is Ok
    }

    /// The next path to handle, if any is left.
    pub fn next_path(&self) -> (r: Option<String>)
        requires
            self.wf(),
        ensures
            r == (if self.pos < self.paths@.len() {
                Some(self.paths@[self.pos as int])
            } else {
                None
            }),
    {
        if self.pos < self.paths.len() {
            Some(self.paths[self.pos].clone())
        } else {
            None
        }
    }

    /// Records what happened to the current path. An error ends the batch: the
    /// paths after it are not attempted.
    pub fn record(&mut self, outcome: PathOutcome) -> (r: Result<(), DeleteError>)
        requires
            old(self).wf(),
            old(self).pos < old(self).paths@.len(),
        ensures
            r == outcome_result(old(self).paths@[old(self).pos as int], outcome),
            final(self).paths == old(self).paths,
            r is Ok ==> final(self).wf() && final(self).pos == old(self).pos + 1
                && final(self).outcomes@ == old(self).outcomes@.push(outcome),
            r is Err ==> final(self).pos == old(self).pos,
    {
        let n = self.paths.len();
        assert(self.pos < n);
        let r = match &outcome {
            PathOutcome::RemoveError(cause) => Err(
                DeleteError::RemovalFailed { path: self.paths[self.pos].clone(), cause: cause.clone() },
            ),
            PathOutcome::StillPresent => Err(
                DeleteError::VerificationFailed { path: self.paths[self.pos].clone() },
            ),
            _ => Ok(()),
        };
        if r.is_ok() {
            proof {
                let ghost prev = self.outcomes@;
                self.outcomes = Ghost(prev.push(outcome));
                assert forall|k: int| 0 <= k < self.pos + 1 implies #[trigger] outcome_result(
                    self.paths@[k],
                    self.outcomes@[k],
                ) is Ok by {
                    if k < self.pos {
                        assert(self.outcomes@[k] == prev[k]);
                    }
                }
            }
            self.pos = self.pos + 1;
        }
        r
    }
}

/// Starts a batch: takes the guard, or fails at once when another batch holds it.
/// An empty batch takes and gives back the guard and fails.
pub fn begin_delete(guard: &mut DeleteGuard, paths: Vec<String>) -> (r: Result<
    DeleteBatch,
    DeleteError,
>)
    ensures
        old(guard).busy ==> r == Err::<DeleteBatch, DeleteError>(DeleteError::AlreadyInProgress)
            && final(guard).busy,
        !old(guard).busy && paths@.len() == 0 ==> r == Err::<DeleteBatch, DeleteError>(
            DeleteError::EmptyInput,
        ) && !final(guard).busy,
        !old(guard).busy && paths@.len() > 0 ==> r is Ok && final(guard).busy && r->Ok_0.wf()
            && r->Ok_0.paths == paths && r->Ok_0.pos == 0,
{
    if guard.busy {
        return Err(DeleteError::AlreadyInProgress);
    }
    guard.busy = true;
    if paths.len() == 0 {
        guard.busy = false;
        return Err(DeleteError::EmptyInput);
    }
    Ok(DeleteBatch { paths, pos: 0, outcomes: Ghost(Seq::empty()) })
}

/// Ends a batch, by whatever path it ended: the guard is given back.
pub fn end_delete(guard: &mut DeleteGuard, result: Result<(), DeleteError>) -> (r: Result<(), DeleteError>)
    ensures
        !final(guard).busy,
        r == result,
{
    guard.busy = false;
    result
}

} // verus!
