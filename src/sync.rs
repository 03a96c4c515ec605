use vstd::prelude::*;

use crate::error::Error;
use crate::refs::{current_branch, HeadState};

verus! {

/// What a finished sync did with uncommitted work.
#[derive(PartialEq, Eq, Structural, Clone, Copy, Debug)]
pub struct SyncOutcome {
    /// Uncommitted changes were put on the shelf before fetching.
    pub shelved: bool,
    /// The shelf was applied again on top of the remote tip.
    pub reapplied: bool,
}

/// Where a sync stands. The branch is the current branch, once known.
#[derive(Debug)]
pub enum SyncStage {
    ReadingHead,
    Probing { branch: String },
    Shelving { branch: String },
    Fetching { branch: String, shelved: bool },
    Resetting { branch: String, shelved: bool },
    Reapplying,
    Finished,
}

/// The work a sync asks of the engine next.
#[derive(Debug)]
pub enum SyncAction {
    /// Read HEAD; answer `Head`.
    ReadHead,
    /// Tell whether the working tree has any change; answer `Observed`.
    ProbeChanges,
    /// Save the uncommitted changes to the shelf; answer `Done` or `Failed`.
    Shelve,
    /// Fetch from the remote; answer `Done` or `Failed`.
    Fetch,
    /// Hard-reset working tree, index and the branch to the commit of the
    /// branch's remote-tracking reference, then make HEAD the branch.
    ResetToRemote { branch: String },
    /// Apply the newest shelf entry to the working tree.
    Reapply,
    /// The sync is over.
    Finish(Result<SyncOutcome, Error>),
}

/// The engine's answer to the last action.
#[derive(Debug)]
pub enum SyncEvent {
    Head(HeadState),
    Observed(bool),
    Done,
    Failed(String),
}

/// A last-remote-wins sync of the current branch.
#[derive(Debug)]
pub struct SyncSession {
    pub stage: SyncStage,
}

/// The session ends with `r`.
pub open spec fn sync_finish(r: Result<SyncOutcome, Error>) -> (SyncSession, SyncAction) {
    (SyncSession { stage: SyncStage::Finished }, SyncAction::Finish(r))
}

/// An answer out of turn ends the session.
pub open spec fn sync_out_of_turn() -> (SyncSession, SyncAction) {
    sync_finish(Err(Error::InvalidState))
}

/// One step of the sync orchestrator. The shelf is taken before the fetch,
/// the fetch comes before the reset, and the reset before the shelf is
/// applied again. A failed shelf or reapply does not fail the sync.
pub open spec fn sync_next(s: SyncSession, e: SyncEvent) -> (SyncSession, SyncAction) {
    match s.stage {
        SyncStage::ReadingHead => match e {
            SyncEvent::Head(head) => match head {
                HeadState::OnBranch { name, .. } => (
                    SyncSession { stage: SyncStage::Probing { branch: name } },
                    SyncAction::ProbeChanges,
                ),
                _ => sync_finish(Err(Error::InvalidState)),
            },
            _ => sync_out_of_turn(),
        },
        SyncStage::Probing { branch } => match e {
            SyncEvent::Observed(true) => (
                SyncSession { stage: SyncStage::Shelving { branch } },
                SyncAction::Shelve,
            ),
            SyncEvent::Observed(false) => (
                SyncSession { stage: SyncStage::Fetching { branch, shelved: false } },
                SyncAction::Fetch,
            ),
            SyncEvent::Failed(_) => (
                SyncSession { stage: SyncStage::Fetching { branch, shelved: false } },
                SyncAction::Fetch,
            ),
            _ => sync_out_of_turn(),
        },
        SyncStage::Shelving { branch } => match e {
            SyncEvent::Done => (
                SyncSession { stage: SyncStage::Fetching { branch, shelved: true } },
                SyncAction::Fetch,
            ),
            SyncEvent::Failed(_) => (
                SyncSession { stage: SyncStage::Fetching { branch, shelved: false } },
                SyncAction::Fetch,
            ),
            _ => sync_out_of_turn(),
        },
        SyncStage::Fetching { branch, shelved } => match e {
            SyncEvent::Done => (
                SyncSession { stage: SyncStage::Resetting { branch, shelved } },
                SyncAction::ResetToRemote { branch },
            ),
            SyncEvent::Failed(message) => sync_finish(Err(Error::TransportFailure { message })),
            _ => sync_out_of_turn(),
        },
        SyncStage::Resetting { shelved, .. } => match e {
            SyncEvent::Done => if shelved {
                (SyncSession { stage: SyncStage::Reapplying }, SyncAction::Reapply)
            } else {
                sync_finish(Ok(SyncOutcome { shelved: false, reapplied: false }))
            },
            SyncEvent::Failed(message) => sync_finish(Err(Error::Engine { message })),
            _ => sync_out_of_turn(),
        },
        SyncStage::Reapplying => match e {
            SyncEvent::Done => sync_finish(Ok(SyncOutcome { shelved: true, reapplied: true })),
            SyncEvent::Failed(_) => sync_finish(Ok(SyncOutcome { shelved: true, reapplied: false })),
            _ => sync_out_of_turn(),
        },
        SyncStage::Finished => sync_out_of_turn(),
    }
}

impl SyncSession {
    /// A new sync; it starts by reading HEAD.
    pub fn start() -> (r: (SyncSession, SyncAction))
        ensures
            r == (SyncSession { stage: SyncStage::ReadingHead }, SyncAction::ReadHead),
    {
        (SyncSession { stage: SyncStage::ReadingHead }, SyncAction::ReadHead)
    }

    /// Whether the sync is over.
    pub fn is_finished(&self) -> (r: bool)
        ensures
            r == (self.stage is Finished),
    {
        matches!(self.stage, SyncStage::Finished)
    }

    /// Takes the engine's answer and returns the next state and action.
    pub fn step(self, e: SyncEvent) -> (r: (SyncSession, SyncAction))
        ensures
            r == sync_next(self, e),
    {
        let finished = SyncSession { stage: SyncStage::Finished };
        match self.stage {
            SyncStage::ReadingHead => match e {
                SyncEvent::Head(head) => match current_branch(&head) {
                    Ok(branch) => (
                        SyncSession { stage: SyncStage::Probing { branch } },
                        SyncAction::ProbeChanges,
                    ),
                    Err(err) => (finished, SyncAction::Finish(Err(err))),
                },
                _ => (finished, SyncAction::Finish(Err(Error::InvalidState))),
            },
            SyncStage::Probing { branch } => match e {
                SyncEvent::Observed(true) => (
                    SyncSession { stage: SyncStage::Shelving { branch } },
                    SyncAction::Shelve,
                ),
                SyncEvent::Observed(false) | SyncEvent::Failed(_) => (
                    SyncSession { stage: SyncStage::Fetching { branch, shelved: false } },
                    SyncAction::Fetch,
                ),
                _ => (finished, SyncAction::Finish(Err(Error::InvalidState))),
            },
            SyncStage::Shelving { branch } => match e {
                SyncEvent::Done => (
                    SyncSession { stage: SyncStage::Fetching { branch, shelved: true } },
                    SyncAction::Fetch,
                ),
                SyncEvent::Failed(_) => (
                    SyncSession { stage: SyncStage::Fetching { branch, shelved: false } },
                    SyncAction::Fetch,
                ),
                _ => (finished, SyncAction::Finish(Err(Error::InvalidState))),
            },
            SyncStage::Fetching { branch, shelved } => match e {
                SyncEvent::Done => {
                    let target = branch.clone();
                    (
                        SyncSession { stage: SyncStage::Resetting { branch, shelved } },
                        SyncAction::ResetToRemote { branch: target },
                    )
                },
                SyncEvent::Failed(message) => (
                    finished,
                    SyncAction::Finish(Err(Error::TransportFailure { message })),
                ),
                _ => (finished, SyncAction::Finish(Err(Error::InvalidState))),
            },
            SyncStage::Resetting { shelved, .. } => match e {
                SyncEvent::Done => if shelved {
                    (SyncSession { stage: SyncStage::Reapplying }, SyncAction::Reapply)
                } else {
                    (
                        finished,
                        SyncAction::Finish(Ok(SyncOutcome { shelved: false, reapplied: false })),
                    )
                },
                SyncEvent::Failed(message) => (
                    finished,
                    SyncAction::Finish(Err(Error::Engine { message })),
                ),
                _ => (finished, SyncAction::Finish(Err(Error::InvalidState))),
            },
            SyncStage::Reapplying => match e {
                SyncEvent::Done => (
                    finished,
                    SyncAction::Finish(Ok(SyncOutcome { shelved: true, reapplied: true })),
                ),
                SyncEvent::Failed(_) => (
                    finished,
                    SyncAction::Finish(Ok(SyncOutcome { shelved: true, reapplied: false })),
                ),
                _ => (finished, SyncAction::Finish(Err(Error::InvalidState))),
            },
            SyncStage::Finished => (finished, SyncAction::Finish(Err(Error::InvalidState))),
        }
    }
}


/// A model of what a sync touches: the current branch, its tip, the remote's
/// tip, the remote-tracking reference and whether there are uncommitted edits.
pub struct SyncWorld {
    pub branch: String,
    pub local_tip: String,
    pub remote_tip: String,
    pub tracking_tip: String,
    pub edits: bool,
}

/// How a working copy in state `w` carries out `a` when every engine step
/// succeeds: the shelf takes the edits away, fetching brings the remote tip
/// into the tracking reference, the reset moves the branch there and drops
/// the edits, and reapplying the shelf brings them back.
pub open spec fn sync_answer(w: SyncWorld, a: SyncAction) -> (SyncWorld, SyncEvent) {
    match a {
        SyncAction::ReadHead => (
            w,
            SyncEvent::Head(HeadState::OnBranch { name: w.branch, id: Some(w.local_tip) }),
        ),
        SyncAction::ProbeChanges => (w, SyncEvent::Observed(w.edits)),
        SyncAction::Shelve => (SyncWorld { edits: false, ..w }, SyncEvent::Done),
        SyncAction::Fetch => (SyncWorld { tracking_tip: w.remote_tip, ..w }, SyncEvent::Done),
        SyncAction::ResetToRemote { .. } => (
            SyncWorld { local_tip: w.tracking_tip, edits: false, ..w },
            SyncEvent::Done,
        ),
        SyncAction::Reapply => (SyncWorld { edits: true, ..w }, SyncEvent::Done),
        SyncAction::Finish(_) => (w, SyncEvent::Done),
    }
}

/// Runs the session in state `s`, about to perform `a`, against the world
/// `w` for at most `fuel` steps; gives the world and the last action.
pub open spec fn sync_drive(s: SyncSession, a: SyncAction, w: SyncWorld, fuel: nat) -> (SyncWorld, SyncAction)
    decreases fuel,
{
    if fuel == 0 || a is Finish {
        (w, a)
    } else {
        let (w2, e) = sync_answer(w, a);
        let (s2, a2) = sync_next(s, e);
        sync_drive(s2, a2, w2, (fuel - 1) as nat)
    }
}

/// The world after a whole sync, and how the sync ended.
pub open spec fn synced(w: SyncWorld) -> (SyncWorld, SyncAction) {
    sync_drive(SyncSession { stage: SyncStage::ReadingHead }, SyncAction::ReadHead, w, 7)
}

/// After a sync the branch tip is the remote tip, the sync succeeded, and
/// uncommitted edits that were there before are there again, uncommitted; a
/// sync without local edits leaves none.
pub proof fn lemma_sync_round_trip(w: SyncWorld)
    ensures
        synced(w).0.local_tip == w.remote_tip,
        synced(w).0.edits == w.edits,
        synced(w).1 == SyncAction::Finish(
            Ok(SyncOutcome { shelved: w.edits, reapplied: w.edits }),
        ),
{
    reveal_with_fuel(sync_drive, 8);
}


/// The actions a sync asks for while the engine answers with `evs`.
pub open spec fn sync_run(s: SyncSession, evs: Seq<SyncEvent>) -> Seq<SyncAction>
    decreases evs.len(),
{
    if evs.len() == 0 {
        Seq::empty()
    } else {
        let (s2, a) = sync_next(s, evs[0]);
        seq![a] + sync_run(s2, evs.subrange(1, evs.len() as int))
    }
}

/// What the stage says of the actions already asked for.
pub open spec fn stage_history(st: SyncStage, fetched: bool, reset: bool) -> bool {
    &&& st is Fetching ==> fetched
    &&& st is Resetting ==> reset
    &&& st is Reapplying ==> reset
}

/// Every reset is preceded by a fetch, and every reapply of the shelf by a
/// reset (or by actions before `evs`, as `fetched` and `reset` say).
pub open spec fn ordered_from(run: Seq<SyncAction>, fetched: bool, reset: bool) -> bool {
    &&& forall|j: int|
        0 <= j < run.len() && #[trigger] run[j] is ResetToRemote ==> fetched || exists|i: int|
            0 <= i < j && run[i] is Fetch
    &&& forall|k: int|
        0 <= k < run.len() && #[trigger] run[k] is Reapply ==> reset || exists|j: int|
            0 <= j < k && run[j] is ResetToRemote
}

proof fn lemma_ordered_from(s: SyncSession, evs: Seq<SyncEvent>, fetched: bool, reset: bool)
    requires
        stage_history(s.stage, fetched, reset),
    ensures
        ordered_from(sync_run(s, evs), fetched, reset),
    decreases evs.len(),
{
    if evs.len() > 0 {
        let (s2, a) = sync_next(s, evs[0]);
        let tail = evs.subrange(1, evs.len() as int);
        let f2 = fetched || a is Fetch;
        let r2 = reset || a is ResetToRemote;
        lemma_ordered_from(s2, tail, f2, r2);
        let run = sync_run(s, evs);
        let rest = sync_run(s2, tail);
        assert(run == seq![a] + rest);
        assert forall|j: int| 0 <= j < run.len() && #[trigger] run[j] is ResetToRemote implies fetched
            || exists|i: int| 0 <= i < j && run[i] is Fetch by {
            if j > 0 {
                assert(rest[j - 1] == run[j]);
                if !f2 {
                    let i = choose|i: int| 0 <= i < j - 1 && rest[i] is Fetch;
                    assert(run[i + 1] == rest[i]);
                } else if !fetched {
                    assert(run[0] is Fetch);
                }
            }
        }
        assert forall|k: int| 0 <= k < run.len() && #[trigger] run[k] is Reapply implies reset
            || exists|j: int| 0 <= j < k && run[j] is ResetToRemote by {
            if k > 0 {
                assert(rest[k - 1] == run[k]);
                if !r2 {
                    let j = choose|j: int| 0 <= j < k - 1 && rest[j] is ResetToRemote;
                    assert(run[j + 1] == rest[j]);
                } else if !reset {
                    assert(run[0] is ResetToRemote);
                }
            }
        }
    }
}

/// Whatever the engine answers, a sync fetches before it resets the branch
/// and resets before it applies the shelf again.
pub proof fn lemma_sync_order(evs: Seq<SyncEvent>)
    ensures
        ordered_from(sync_run(SyncSession { stage: SyncStage::ReadingHead }, evs), false, false),
{
    lemma_ordered_from(SyncSession { stage: SyncStage::ReadingHead }, evs, false, false);
}

} // verus!
