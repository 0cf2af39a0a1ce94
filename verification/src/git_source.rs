//! The self-healing git-backed data source: the update-or-recreate
//! protocol that keeps the local working copy fresh.
//!
//! The git and file-system work is performed by the unverified shell;
//! this module is the protocol that sequences it. If the working copy is
//! missing, it is created and cloned, and a failure there is fatal to
//! the refresh attempt. If it is present, an update-in-place is tried;
//! any update failure -- corrupted repository, network error, missing
//! `.git` metadata -- is recovered by deleting the whole working copy
//! (best-effort) and cloning from scratch, so that no half-updated
//! working copy can ever block all future refreshes.

use vstd::prelude::*;

verus! {

/// Where an `ensure_fresh` run stands.
#[derive(Clone, Copy, PartialEq, Eq, Structural, Debug)]
pub enum EnsureFreshState {
    /// Nothing observed yet.
    Start,
    /// An update-in-place of the present working copy is running.
    AwaitUpdate,
    /// The working copy was missing; directory creation and a fresh
    /// clone are running.
    AwaitFreshClone,
    /// The update failed; the working copy is being deleted
    /// (best-effort) and cloned again.
    AwaitReclone,
    /// The working copy is fresh.
    Done,
    /// The fallback itself failed: fatal to this refresh attempt.
    Failed,
}

/// What the shell reports back to the protocol.
#[derive(Clone, Copy, PartialEq, Eq, Structural, Debug)]
pub enum GitEvent {
    /// The working-copy directory exists.
    WorkdirPresent,
    /// The working-copy directory does not exist.
    WorkdirMissing,
    /// The step the protocol last asked for succeeded.
    StepOk,
    /// The step the protocol last asked for failed. A failed deletion
    /// before a re-clone is not reported here: deletion is best-effort.
    StepFailed,
}

/// What the shell must do next.
#[derive(Clone, Copy, PartialEq, Eq, Structural, Debug)]
pub enum GitAction {
    /// Observe whether the working-copy directory exists.
    ObserveWorkdir,
    /// Fetch the tracked branch from `origin`, move the local head to
    /// the fetched reference, force-checkout.
    TryUpdate,
    /// Create the containing directory, then clone.
    CreateDirAndClone,
    /// Delete the working copy (log but ignore a deletion failure),
    /// then clone.
    DeleteAndClone,
    /// The working copy is fresh; go on with the refresh.
    Proceed,
    /// Abort the refresh attempt.
    Abort,
}

/// The first action of every run.
pub open spec fn ensure_fresh_start_action() -> GitAction {
    GitAction::ObserveWorkdir
}

/// The protocol's transition function: from a state and the shell's
/// event to the next state and the next action.
pub open spec fn ensure_fresh_step_spec(s: EnsureFreshState, e: GitEvent) -> (
    EnsureFreshState,
    GitAction,
) {
    match (s, e) {
        (EnsureFreshState::Start, GitEvent::WorkdirPresent) => (
            EnsureFreshState::AwaitUpdate,
            GitAction::TryUpdate,
        ),
        (EnsureFreshState::Start, GitEvent::WorkdirMissing) => (
            EnsureFreshState::AwaitFreshClone,
            GitAction::CreateDirAndClone,
        ),
        (EnsureFreshState::AwaitUpdate, GitEvent::StepOk) => (
            EnsureFreshState::Done,
            GitAction::Proceed,
        ),
        (EnsureFreshState::AwaitUpdate, GitEvent::StepFailed) => (
            EnsureFreshState::AwaitReclone,
            GitAction::DeleteAndClone,
        ),
        (EnsureFreshState::AwaitFreshClone, GitEvent::StepOk) => (
            EnsureFreshState::Done,
            GitAction::Proceed,
        ),
        (EnsureFreshState::AwaitFreshClone, GitEvent::StepFailed) => (
            EnsureFreshState::Failed,
            GitAction::Abort,
        ),
        (EnsureFreshState::AwaitReclone, GitEvent::StepOk) => (
            EnsureFreshState::Done,
            GitAction::Proceed,
        ),
        (EnsureFreshState::AwaitReclone, GitEvent::StepFailed) => (
            EnsureFreshState::Failed,
            GitAction::Abort,
        ),
        (EnsureFreshState::Done, _) => (EnsureFreshState::Done, GitAction::Proceed),
        (EnsureFreshState::Failed, _) => (EnsureFreshState::Failed, GitAction::Abort),
        (EnsureFreshState::Start, _) => (EnsureFreshState::Start, GitAction::ObserveWorkdir),
        (EnsureFreshState::AwaitUpdate, _) => (EnsureFreshState::AwaitUpdate, GitAction::TryUpdate),
        (EnsureFreshState::AwaitFreshClone, _) => (
            EnsureFreshState::AwaitFreshClone,
            GitAction::CreateDirAndClone,
        ),
        (EnsureFreshState::AwaitReclone, _) => (
            EnsureFreshState::AwaitReclone,
            GitAction::DeleteAndClone,
        ),
    }
}

/// Advances the protocol one step.
pub fn ensure_fresh_step(s: EnsureFreshState, e: GitEvent) -> (r: (EnsureFreshState, GitAction))
    ensures
        r == ensure_fresh_step_spec(s, e),
{
    match (s, e) {
        (EnsureFreshState::Start, GitEvent::WorkdirPresent) => (
            EnsureFreshState::AwaitUpdate,
            GitAction::TryUpdate,
        ),
        (EnsureFreshState::Start, GitEvent::WorkdirMissing) => (
            EnsureFreshState::AwaitFreshClone,
            GitAction::CreateDirAndClone,
        ),
        (EnsureFreshState::AwaitUpdate, GitEvent::StepOk) => (
            EnsureFreshState::Done,
            GitAction::Proceed,
        ),
        (EnsureFreshState::AwaitUpdate, GitEvent::StepFailed) => (
            EnsureFreshState::AwaitReclone,
            GitAction::DeleteAndClone,
        ),
        (EnsureFreshState::AwaitFreshClone, GitEvent::StepOk) => (
            EnsureFreshState::Done,
            GitAction::Proceed,
        ),
        (EnsureFreshState::AwaitFreshClone, GitEvent::StepFailed) => (
            EnsureFreshState::Failed,
            GitAction::Abort,
        ),
        (EnsureFreshState::AwaitReclone, GitEvent::StepOk) => (
            EnsureFreshState::Done,
            GitAction::Proceed,
        ),
        (EnsureFreshState::AwaitReclone, GitEvent::StepFailed) => (
            EnsureFreshState::Failed,
            GitAction::Abort,
        ),
        (EnsureFreshState::Done, _) => (EnsureFreshState::Done, GitAction::Proceed),
        (EnsureFreshState::Failed, _) => (EnsureFreshState::Failed, GitAction::Abort),
        (EnsureFreshState::Start, _) => (EnsureFreshState::Start, GitAction::ObserveWorkdir),
        (EnsureFreshState::AwaitUpdate, _) => (EnsureFreshState::AwaitUpdate, GitAction::TryUpdate),
        (EnsureFreshState::AwaitFreshClone, _) => (
            EnsureFreshState::AwaitFreshClone,
            GitAction::CreateDirAndClone,
        ),
        (EnsureFreshState::AwaitReclone, _) => (
            EnsureFreshState::AwaitReclone,
            GitAction::DeleteAndClone,
        ),
    }
}

/// Precheck of an update-in-place, run before any git call: a working
/// copy without `.git` metadata cannot be updated, and the update step
/// must report failure so that the recreate fallback runs.
pub fn update_precheck(has_git_dir: bool) -> (r: Result<(), GitEvent>)
    ensures
        r is Ok <==> has_git_dir,
        !has_git_dir ==> r == Result::<(), GitEvent>::Err(GitEvent::StepFailed),
{
    if has_git_dir {
        Ok(())
    } else {
        Err(GitEvent::StepFailed)
    }
}

/// A working copy whose `.git` metadata is missing is repaired by
/// recreation, never treated as fatal: the failed update leads to
/// delete-and-clone, and only a failure of that clone itself can abort
/// the refresh attempt; a successful clone ends the run fresh.
pub proof fn lemma_missing_git_metadata_recovers()
    ensures
        ensure_fresh_step_spec(EnsureFreshState::Start, GitEvent::WorkdirPresent) == (
            EnsureFreshState::AwaitUpdate,
            GitAction::TryUpdate,
        ),
        ensure_fresh_step_spec(EnsureFreshState::AwaitUpdate, GitEvent::StepFailed) == (
            EnsureFreshState::AwaitReclone,
            GitAction::DeleteAndClone,
        ),
        ensure_fresh_step_spec(EnsureFreshState::AwaitReclone, GitEvent::StepOk) == (
            EnsureFreshState::Done,
            GitAction::Proceed,
        ),
{
}

/// An update failure alone never reaches `Failed`: from every state,
/// `Failed` is entered only from a clone that itself failed.
pub proof fn lemma_update_failure_not_fatal(s: EnsureFreshState, e: GitEvent)
    ensures
        ensure_fresh_step_spec(s, e).0 == EnsureFreshState::Failed ==> s == EnsureFreshState::Failed
            || ((s == EnsureFreshState::AwaitFreshClone || s == EnsureFreshState::AwaitReclone)
            && e == GitEvent::StepFailed),
{
}

} // verus!
