use vstd::prelude::*;

use crate::error::Error;
use crate::merge::MergeOutcome;
use crate::refs::HeadState;

verus! {

/// Where a pull stands: the current branch and its tip, once known, and
/// whether the fetch is being retried.
#[derive(Debug)]
pub enum PullStage {
    ReadingHead,
    ClearingMarker { branch: String, local: String },
    Fetching { branch: String, local: String, retry: bool },
    Resolving { branch: String, local: String, retry: bool },
    ClearingStale { branch: String, local: String },
    Merging,
    Finished,
}

/// The work a pull asks of the engine next.
#[derive(Debug)]
pub enum PullAction {
    /// Read HEAD; answer `Head`.
    ReadHead,
    /// Delete the fetched-tip marker file, ignoring failure.
    ClearFetchMarker,
    /// Fetch from the remote; answer `Done` or `Failed`.
    Fetch,
    /// Read the commit id of the fetched-tip marker; answer `Resolved`.
    ResolveFetched,
    /// Merge `incoming` into `branch`, whose tip is `local`, with the merge
    /// engine; answer `Merged` with how it ended.
    Merge { branch: String, local: String, incoming: String },
    /// The pull is over.
    Finish(Result<MergeOutcome, Error>),
}

/// The engine's answer to the last action.
#[derive(Debug)]
pub enum PullEvent {
    Head(HeadState),
    Done,
    Failed(String),
    Resolved(Option<String>),
    Merged(Result<MergeOutcome, Error>),
}

/// A history-preserving pull of the current branch.
#[derive(Debug)]
pub struct PullSession {
    pub stage: PullStage,
}

/// The session ends with `r`.
pub open spec fn pull_finish(r: Result<MergeOutcome, Error>) -> (PullSession, PullAction) {
    (PullSession { stage: PullStage::Finished }, PullAction::Finish(r))
}

/// One step of the pull orchestrator. A missing or unreadable fetched tip
/// is cleared and fetched again once; the second miss ends the pull.
pub open spec fn pull_next(s: PullSession, e: PullEvent) -> (PullSession, PullAction) {
    match s.stage {
        PullStage::ReadingHead => match e {
            PullEvent::Head(HeadState::OnBranch { name, id: Some(local) }) => (
                PullSession { stage: PullStage::ClearingMarker { branch: name, local } },
                PullAction::ClearFetchMarker,
            ),
            _ => pull_finish(Err(Error::InvalidState)),
        },
        PullStage::ClearingMarker { branch, local } => match e {
            PullEvent::Done | PullEvent::Failed(_) => (
                PullSession { stage: PullStage::Fetching { branch, local, retry: false } },
                PullAction::Fetch,
            ),
            _ => pull_finish(Err(Error::InvalidState)),
        },
        PullStage::Fetching { branch, local, retry } => match e {
            PullEvent::Done => (
                PullSession { stage: PullStage::Resolving { branch, local, retry } },
                PullAction::ResolveFetched,
            ),
            PullEvent::Failed(message) => pull_finish(Err(Error::TransportFailure { message })),
            _ => pull_finish(Err(Error::InvalidState)),
        },
        PullStage::Resolving { branch, local, retry } => match e {
            PullEvent::Resolved(Some(incoming)) => (
                PullSession { stage: PullStage::Merging },
                PullAction::Merge { branch, local, incoming },
            ),
            PullEvent::Resolved(None) | PullEvent::Failed(_) => if retry {
                pull_finish(Err(Error::FetchedTipMissing))
            } else {
                (
                    PullSession { stage: PullStage::ClearingStale { branch, local } },
                    PullAction::ClearFetchMarker,
                )
            },
            _ => pull_finish(Err(Error::InvalidState)),
        },
        PullStage::ClearingStale { branch, local } => match e {
            PullEvent::Done | PullEvent::Failed(_) => (
                PullSession { stage: PullStage::Fetching { branch, local, retry: true } },
                PullAction::Fetch,
            ),
            _ => pull_finish(Err(Error::InvalidState)),
        },
        PullStage::Merging => match e {
            PullEvent::Merged(r) => pull_finish(r),
            _ => pull_finish(Err(Error::InvalidState)),
        },
        PullStage::Finished => pull_finish(Err(Error::InvalidState)),
    }
}

impl PullSession {
    /// A new pull; it starts by reading HEAD.
    pub fn start() -> (r: (PullSession, PullAction))
        ensures
            r == (PullSession { stage: PullStage::ReadingHead }, PullAction::ReadHead),
    {
        (PullSession { stage: PullStage::ReadingHead }, PullAction::ReadHead)
    }

    /// Whether the pull is over.
    pub fn is_finished(&self) -> (r: bool)
        ensures
            r == (self.stage is Finished),
    {
        matches!(self.stage, PullStage::Finished)
    }

    /// Takes the engine's answer and returns the next state and action.
    pub fn step(self, e: PullEvent) -> (r: (PullSession, PullAction))
        ensures
            r == pull_next(self, e),
    {
        let finished = PullSession { stage: PullStage::Finished };
        let out_of_turn = PullAction::Finish(Err(Error::InvalidState));
        match self.stage {
            PullStage::ReadingHead => match e {
                PullEvent::Head(HeadState::OnBranch { name, id: Some(local) }) => (
                    PullSession { stage: PullStage::ClearingMarker { branch: name, local } },
                    PullAction::ClearFetchMarker,
                ),
                _ => (finished, out_of_turn),
            },
            PullStage::ClearingMarker { branch, local } => match e {
                PullEvent::Done | PullEvent::Failed(_) => (
                    PullSession { stage: PullStage::Fetching { branch, local, retry: false } },
                    PullAction::Fetch,
                ),
                _ => (finished, out_of_turn),
            },
            PullStage::Fetching { branch, local, retry } => match e {
                PullEvent::Done => (
                    PullSession { stage: PullStage::Resolving { branch, local, retry } },
                    PullAction::ResolveFetched,
                ),
                PullEvent::Failed(message) => (
                    finished,
                    PullAction::Finish(Err(Error::TransportFailure { message })),
                ),
                _ => (finished, out_of_turn),
            },
            PullStage::Resolving { branch, local, retry } => match e {
                PullEvent::Resolved(Some(incoming)) => (
                    PullSession { stage: PullStage::Merging },
                    PullAction::Merge { branch, local, incoming },
                ),
                PullEvent::Resolved(None) | PullEvent::Failed(_) => if retry {
                    (finished, PullAction::Finish(Err(Error::FetchedTipMissing)))
                } else {
                    (
                        PullSession { stage: PullStage::ClearingStale { branch, local } },
                        PullAction::ClearFetchMarker,
                    )
                },
                _ => (finished, out_of_turn),
            },
            PullStage::ClearingStale { branch, local } => match e {
                PullEvent::Done | PullEvent::Failed(_) => (
                    PullSession { stage: PullStage::Fetching { branch, local, retry: true } },
                    PullAction::Fetch,
                ),
                _ => (finished, out_of_turn),
            },
            PullStage::Merging => match e {
                PullEvent::Merged(r) => (finished, PullAction::Finish(r)),
                _ => (finished, out_of_turn),
            },
            PullStage::Finished => (finished, out_of_turn),
        }
    }
}


/// How many times a pull in state `s` asks to fetch while the engine answers
/// with `evs`.
pub open spec fn fetches(s: PullSession, evs: Seq<PullEvent>) -> nat
    decreases evs.len(),
{
    if evs.len() == 0 {
        0
    } else {
        let (s2, a) = pull_next(s, evs[0]);
        (if a is Fetch {
            1nat
        } else {
            0nat
        }) + fetches(s2, evs.subrange(1, evs.len() as int))
    }
}

/// How many more fetches a pull at stage `st` may still ask for.
pub open spec fn fetches_left(st: PullStage) -> nat {
    match st {
        PullStage::ReadingHead => 2,
        PullStage::ClearingMarker { .. } => 2,
        PullStage::Fetching { retry, .. } => if retry {
            0
        } else {
            1
        },
        PullStage::Resolving { retry, .. } => if retry {
            0
        } else {
            1
        },
        PullStage::ClearingStale { .. } => 1,
        PullStage::Merging => 0,
        PullStage::Finished => 0,
    }
}

proof fn lemma_fetches_bounded(s: PullSession, evs: Seq<PullEvent>)
    ensures
        fetches(s, evs) <= fetches_left(s.stage),
    decreases evs.len(),
{
    if evs.len() > 0 {
        let (s2, _) = pull_next(s, evs[0]);
        lemma_fetches_bounded(s2, evs.subrange(1, evs.len() as int));
    }
}

/// Whatever the engine answers, a pull fetches at most twice: once, and
/// once more only after the fetched tip could not be read.
pub proof fn lemma_pull_fetches_at_most_twice(evs: Seq<PullEvent>)
    ensures
        fetches(PullSession { stage: PullStage::ReadingHead }, evs) <= 2,
{
    lemma_fetches_bounded(PullSession { stage: PullStage::ReadingHead }, evs);
}

} // verus!
