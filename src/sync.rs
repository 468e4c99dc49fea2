//! Moving the local checkpoint reference forward.
use vstd::prelude::*;

verus! {

/// What moving the checkpoint to a fetched commit takes.
#[derive(Debug, Clone, Copy, PartialEq, Eq, Structural)]
pub enum FastForward {
    /// The checkpoint already is that commit or a descendant of it.
    UpToDate,
    /// Point the branch at the commit and check it out.
    MoveHead,
}

/// Why the checkpoint could not move.
#[derive(Debug, Clone, Copy, PartialEq, Eq, Structural)]
pub enum SyncError {
    /// The commit does not descend from the checkpoint.
    NotFastForward,
}

/// Decides a fast-forward from the merge analysis of the target commit:
/// nothing to do when up to date, a move when the commit descends from the
/// checkpoint, and a refusal otherwise.
pub fn fast_forward_step(up_to_date: bool, fast_forward: bool) -> (r: Result<FastForward, SyncError>)
    ensures
        up_to_date ==> r == Ok::<FastForward, SyncError>(FastForward::UpToDate),
        !up_to_date && fast_forward ==> r == Ok::<FastForward, SyncError>(FastForward::MoveHead),
        !up_to_date && !fast_forward ==> r == Err::<FastForward, SyncError>(SyncError::NotFastForward),
{
    if up_to_date {
        Ok(FastForward::UpToDate)
    } else if fast_forward {
        Ok(FastForward::MoveHead)
    } else {
        Err(SyncError::NotFastForward)
    }
}

} // verus!
