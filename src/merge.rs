use vstd::prelude::*;

use crate::conflict::{
    lemma_ours_wins_everywhere, resolution_plan, resolve_conflicts, ConflictEntry, Resolution, Tier,
};
use crate::error::Error;

verus! {

/// How the local branch tip relates to the incoming commit.
#[derive(PartialEq, Eq, Structural, Clone, Copy, Debug)]
pub enum MergeKind {
    /// The incoming commit is already contained in the local branch.
    UpToDate,
    /// The local tip is an ancestor of the incoming commit.
    FastForward,
    /// The two histories diverged.
    Normal,
    /// The local branch has no commit and there is nothing to take.
    Unborn,
}

/// Reads the engine's merge-analysis flags. A fast-forward is taken whenever
/// the engine allows one (also into an unborn branch); otherwise a divergence
/// calls for a three-way merge; anything else is left as it is.
pub fn classify_analysis(fast_forward: bool, normal: bool, up_to_date: bool, unborn: bool) -> (r:
    MergeKind)
    ensures
        fast_forward ==> r == MergeKind::FastForward,
        !fast_forward && normal ==> r == MergeKind::Normal,
        !fast_forward && !normal && unborn && !up_to_date ==> r == MergeKind::Unborn,
        !fast_forward && !normal && !(unborn && !up_to_date) ==> r == MergeKind::UpToDate,
{
    if fast_forward {
        MergeKind::FastForward
    } else if normal {
        MergeKind::Normal
    } else if unborn && !up_to_date {
        MergeKind::Unborn
    } else {
        MergeKind::UpToDate
    }
}

/// What a finished merge did.
#[derive(PartialEq, Eq, Structural, Clone, Copy, Debug)]
pub enum MergeOutcome {
    /// Nothing to integrate.
    UpToDate,
    /// The branch reference was moved to the incoming commit.
    FastForwarded,
    /// A two-parent merge commit was made after resolving `resolved` paths.
    Merged { resolved: usize },
}

/// Where a merge session stands.
#[derive(Debug)]
pub enum MergeStage {
    Analyzing,
    LookingUpBranch,
    UpdatingBranch,
    SettingHead,
    CheckingOut(MergeOutcome),
    MergingIndex,
    Materializing(usize),
    Restaging,
    RollingBack(Error),
    Committing,
    ClearingState,
    Finished,
}

/// The work a merge session asks of the version-control engine next. The
/// branch, the local tip, the incoming commit and the committer are those the
/// caller started the session for; see `refs` for the names and messages.
#[derive(Debug)]
pub enum MergeAction {
    /// Analyse the local tip against the incoming commit; answer `Analyzed`.
    Analyze,
    /// Tell whether the local branch reference exists; answer `BranchLookup`.
    FindBranch,
    /// Point the existing branch reference at the incoming commit.
    MoveBranch,
    /// Create the branch reference at the incoming commit.
    CreateBranch,
    /// Make HEAD the branch reference.
    SetHead,
    /// Force-checkout the working tree to HEAD.
    CheckoutHead,
    /// Merge the incoming commit into the index, conflicts allowed, with forced
    /// checkout; answer `IndexMerged` with the conflicts left.
    MergeIntoIndex,
    /// Write this side's blob to its path (creating parent directories),
    /// stage the path and clear its conflict.
    Materialize(Resolution),
    /// Write the index as a tree, check it out, stage the whole working tree;
    /// answer `Restaged`.
    Restage,
    /// Hard-reset the branch, working tree and index to the pre-merge local
    /// tip and remove the in-progress merge markers.
    ResetToLocal,
    /// Write the index as a tree and commit it on HEAD with the local tip and
    /// the incoming commit as parents.
    CommitMerge,
    /// Remove the in-progress merge markers left by the merge into the index.
    ClearMergeState,
    /// The session is over.
    Finish(Result<MergeOutcome, Error>),
}

/// What the engine reports back after an action.
#[derive(Debug)]
pub enum MergeEvent {
    Analyzed(MergeKind),
    BranchLookup(bool),
    Done,
    Failed(String),
    IndexMerged(Vec<ConflictEntry>),
    Restaged { conflicts_remain: bool },
}

/// A merge session of the incoming commit into the current branch.
#[derive(Debug)]
pub struct MergeSession {
    plan: Vec<Resolution>,
    stage: MergeStage,
}

/// The model of a session: its resolution plan and its stage.
pub struct MergeView {
    pub plan: Seq<Resolution>,
    pub stage: MergeStage,
}

impl View for MergeSession {
    type V = MergeView;

    closed spec fn view(&self) -> MergeView {
        MergeView { plan: self.plan@, stage: self.stage }
    }
}

/// The session ends with `r`.
pub open spec fn finish_with(v: MergeView, r: Result<MergeOutcome, Error>) -> (MergeView, MergeAction) {
    (MergeView { stage: MergeStage::Finished, ..v }, MergeAction::Finish(r))
}

/// The engine failed, or answered out of turn, after the session changed the
/// repository: the session rolls back to the pre-merge local tip, then ends
/// with the error.
pub open spec fn abort(v: MergeView, e: MergeEvent) -> (MergeView, MergeAction) {
    let err = match e {
        MergeEvent::Failed(message) => Error::Engine { message },
        _ => Error::InvalidState,
    };
    go(v, MergeStage::RollingBack(err), MergeAction::ResetToLocal)
}

/// The engine failed before the session changed the repository: its error
/// ends the session.
pub open spec fn engine_failure(v: MergeView, e: MergeEvent) -> (MergeView, MergeAction) {
    match e {
        MergeEvent::Failed(message) => finish_with(v, Err(Error::Engine { message })),
        _ => finish_with(v, Err(Error::InvalidState)),
    }
}

/// The session moves to `stage` and asks for `a`.
pub open spec fn go(v: MergeView, stage: MergeStage, a: MergeAction) -> (MergeView, MergeAction) {
    (MergeView { stage, ..v }, a)
}

/// One step of the merge engine.
pub open spec fn merge_next(v: MergeView, e: MergeEvent) -> (MergeView, MergeAction) {
    match v.stage {
        MergeStage::Analyzing => match e {
            MergeEvent::Analyzed(MergeKind::FastForward) => go(
                v,
                MergeStage::LookingUpBranch,
                MergeAction::FindBranch,
            ),
            MergeEvent::Analyzed(MergeKind::Normal) => go(
                v,
                MergeStage::MergingIndex,
                MergeAction::MergeIntoIndex,
            ),
            MergeEvent::Analyzed(_) => finish_with(v, Ok(MergeOutcome::UpToDate)),
            _ => engine_failure(v, e),
        },
        MergeStage::LookingUpBranch => match e {
            MergeEvent::BranchLookup(true) => go(
                v,
                MergeStage::UpdatingBranch,
                MergeAction::MoveBranch,
            ),
            MergeEvent::BranchLookup(false) => go(
                v,
                MergeStage::UpdatingBranch,
                MergeAction::CreateBranch,
            ),
            _ => engine_failure(v, e),
        },
        MergeStage::UpdatingBranch => match e {
            MergeEvent::Done => go(v, MergeStage::SettingHead, MergeAction::SetHead),
            _ => abort(v, e),
        },
        MergeStage::SettingHead => match e {
            MergeEvent::Done => go(
                v,
                MergeStage::CheckingOut(MergeOutcome::FastForwarded),
                MergeAction::CheckoutHead,
            ),
            _ => abort(v, e),
        },
        MergeStage::CheckingOut(outcome) => match e {
            MergeEvent::Done => finish_with(v, Ok(outcome)),
            _ => abort(v, e),
        },
        MergeStage::MergingIndex => match e {
            MergeEvent::IndexMerged(conflicts) => {
                let plan = resolution_plan(conflicts@);
                let v2 = MergeView { plan, ..v };
                if conflicts@.len() == 0 {
                    go(v2, MergeStage::Committing, MergeAction::CommitMerge)
                } else if plan.len() > 0 {
                    go(v2, MergeStage::Materializing(0), MergeAction::Materialize(plan[0]))
                } else {
                    go(v2, MergeStage::Restaging, MergeAction::Restage)
                }
            },
            _ => abort(v, e),
        },
        MergeStage::Materializing(i) => match e {
            MergeEvent::Done => if i + 1 < v.plan.len() {
                go(
                    v,
                    MergeStage::Materializing((i + 1) as usize),
                    MergeAction::Materialize(v.plan[i + 1]),
                )
            } else {
                go(v, MergeStage::Restaging, MergeAction::Restage)
            },
            MergeEvent::Failed(message) => go(
                v,
                MergeStage::RollingBack(Error::IoFailure { message }),
                MergeAction::ResetToLocal,
            ),
            _ => abort(v, e),
        },
        MergeStage::Restaging => match e {
            MergeEvent::Restaged { conflicts_remain: false } => go(
                v,
                MergeStage::Committing,
                MergeAction::CommitMerge,
            ),
            MergeEvent::Restaged { conflicts_remain: true } => go(
                v,
                MergeStage::RollingBack(Error::UnresolvableConflict),
                MergeAction::ResetToLocal,
            ),
            _ => abort(v, e),
        },
        MergeStage::RollingBack(err) => match e {
            MergeEvent::Done | MergeEvent::Failed(_) => finish_with(v, Err(err)),
            _ => finish_with(v, Err(Error::InvalidState)),
        },
        MergeStage::Committing => match e {
            MergeEvent::Done => go(
                v,
                MergeStage::ClearingState,
                MergeAction::ClearMergeState,
            ),
            _ => abort(v, e),
        },
        MergeStage::ClearingState => match e {
            MergeEvent::Done => go(
                v,
                MergeStage::CheckingOut(MergeOutcome::Merged { resolved: v.plan.len() as usize }),
                MergeAction::CheckoutHead,
            ),
            _ => abort(v, e),
        },
        MergeStage::Finished => finish_with(v, Err(Error::InvalidState)),
    }
}

impl MergeSession {
    /// A new session; its first action is [`MergeAction::Analyze`].
    pub fn start() -> (r: (MergeSession, MergeAction))
        ensures
            r.0@ == (MergeView { plan: Seq::empty(), stage: MergeStage::Analyzing }),
            r.1 == MergeAction::Analyze,
    {
        (MergeSession { plan: Vec::new(), stage: MergeStage::Analyzing }, MergeAction::Analyze)
    }

    /// Whether the session has ended.
    pub fn is_finished(&self) -> (r: bool)
        ensures
            r == (self@.stage is Finished),
    {
        matches!(self.stage, MergeStage::Finished)
    }

    fn fail(self, e: MergeEvent) -> (r: (MergeSession, MergeAction))
        ensures
            (r.0@, r.1) == engine_failure(self@, e),
    {
        let err = match e {
            MergeEvent::Failed(message) => Error::Engine { message },
            _ => Error::InvalidState,
        };
        (
            MergeSession { plan: self.plan, stage: MergeStage::Finished },
            MergeAction::Finish(Err(err)),
        )
    }

    fn abort(self, e: MergeEvent) -> (r: (MergeSession, MergeAction))
        ensures
            (r.0@, r.1) == abort(self@, e),
    {
        let err = match e {
            MergeEvent::Failed(message) => Error::Engine { message },
            _ => Error::InvalidState,
        };
        (
            MergeSession { plan: self.plan, stage: MergeStage::RollingBack(err) },
            MergeAction::ResetToLocal,
        )
    }

    /// Takes the engine's answer to the last action and returns the session's
    /// next state and the next action.
    pub fn step(self, e: MergeEvent) -> (r: (MergeSession, MergeAction))
        ensures
            (r.0@, r.1) == merge_next(self@, e),
    {
        let plan = self.plan;
        match self.stage {
            MergeStage::Analyzing => match e {
                MergeEvent::Analyzed(MergeKind::FastForward) => (
                    MergeSession { plan, stage: MergeStage::LookingUpBranch },
                    MergeAction::FindBranch,
                ),
                MergeEvent::Analyzed(MergeKind::Normal) => (
                    MergeSession { plan, stage: MergeStage::MergingIndex },
                    MergeAction::MergeIntoIndex,
                ),
                MergeEvent::Analyzed(_) => (
                    MergeSession { plan, stage: MergeStage::Finished },
                    MergeAction::Finish(Ok(MergeOutcome::UpToDate)),
                ),
                _ => MergeSession { plan, stage: MergeStage::Analyzing }.fail(e),
            },
            MergeStage::LookingUpBranch => match e {
                MergeEvent::BranchLookup(found) => (
                    MergeSession { plan, stage: MergeStage::UpdatingBranch },
                    if found {
                        MergeAction::MoveBranch
                    } else {
                        MergeAction::CreateBranch
                    },
                ),
                _ => MergeSession { plan, stage: MergeStage::LookingUpBranch }.fail(e),
            },
            MergeStage::UpdatingBranch => match e {
                MergeEvent::Done => (
                    MergeSession { plan, stage: MergeStage::SettingHead },
                    MergeAction::SetHead,
                ),
                _ => MergeSession { plan, stage: MergeStage::UpdatingBranch }.abort(e),
            },
            MergeStage::SettingHead => match e {
                MergeEvent::Done => (
                    MergeSession {
                        plan,
                        stage: MergeStage::CheckingOut(MergeOutcome::FastForwarded),
                    },
                    MergeAction::CheckoutHead,
                ),
                _ => MergeSession { plan, stage: MergeStage::SettingHead }.abort(e),
            },
            MergeStage::CheckingOut(outcome) => match e {
                MergeEvent::Done => (
                    MergeSession { plan, stage: MergeStage::Finished },
                    MergeAction::Finish(Ok(outcome)),
                ),
                _ => MergeSession { plan, stage: MergeStage::CheckingOut(outcome) }.abort(e),
            },
            MergeStage::MergingIndex => match e {
                MergeEvent::IndexMerged(conflicts) => {
                    let plan = resolve_conflicts(&conflicts);
                    if conflicts.len() == 0 {
                        (
                            MergeSession { plan, stage: MergeStage::Committing },
                            MergeAction::CommitMerge,
                        )
                    } else if plan.len() > 0 {
                        let first = plan[0].duplicate();
                        (
                            MergeSession { plan, stage: MergeStage::Materializing(0) },
                            MergeAction::Materialize(first),
                        )
                    } else {
                        (
                            MergeSession { plan, stage: MergeStage::Restaging },
                            MergeAction::Restage,
                        )
                    }
                },
                _ => MergeSession { plan, stage: MergeStage::MergingIndex }.abort(e),
            },
            MergeStage::Materializing(i) => match e {
                MergeEvent::Done => {
                    if i < plan.len() && i + 1 < plan.len() {
                        let next = plan[i + 1].duplicate();
                        (
                            MergeSession { plan, stage: MergeStage::Materializing(i + 1) },
                            MergeAction::Materialize(next),
                        )
                    } else {
                        (
                            MergeSession { plan, stage: MergeStage::Restaging },
                            MergeAction::Restage,
                        )
                    }
                },
                MergeEvent::Failed(message) => (
                    MergeSession {
                        plan,
                        stage: MergeStage::RollingBack(Error::IoFailure { message }),
                    },
                    MergeAction::ResetToLocal,
                ),
                _ => MergeSession { plan, stage: MergeStage::Materializing(i) }.abort(e),
            },
            MergeStage::Restaging => match e {
                MergeEvent::Restaged { conflicts_remain } => if conflicts_remain {
                    (
                        MergeSession {
                            plan,
                            stage: MergeStage::RollingBack(Error::UnresolvableConflict),
                        },
                        MergeAction::ResetToLocal,
                    )
                } else {
                    (
                        MergeSession { plan, stage: MergeStage::Committing },
                        MergeAction::CommitMerge,
                    )
                },
                _ => MergeSession { plan, stage: MergeStage::Restaging }.abort(e),
            },
            MergeStage::RollingBack(err) => {
                let r = match e {
                    MergeEvent::Done | MergeEvent::Failed(_) => err,
                    _ => Error::InvalidState,
                };
                (MergeSession { plan, stage: MergeStage::Finished }, MergeAction::Finish(Err(r)))
            },
            MergeStage::Committing => match e {
                MergeEvent::Done => (
                    MergeSession { plan, stage: MergeStage::ClearingState },
                    MergeAction::ClearMergeState,
                ),
                _ => MergeSession { plan, stage: MergeStage::Committing }.abort(e),
            },
            MergeStage::ClearingState => match e {
                MergeEvent::Done => {
                    let resolved = plan.len();
                    (
                        MergeSession {
                            plan,
                            stage: MergeStage::CheckingOut(MergeOutcome::Merged { resolved }),
                        },
                        MergeAction::CheckoutHead,
                    )
                },
                _ => MergeSession { plan, stage: MergeStage::ClearingState }.abort(e),
            },
            MergeStage::Finished => (
                MergeSession { plan, stage: MergeStage::Finished },
                MergeAction::Finish(Err(Error::InvalidState)),
            ),
        }
    }
}


/// The actions a session asks for while the engine answers with `evs`.
pub open spec fn merge_run(v: MergeView, evs: Seq<MergeEvent>) -> Seq<MergeAction>
    decreases evs.len(),
{
    if evs.len() == 0 {
        Seq::empty()
    } else {
        let (v2, a) = merge_next(v, evs[0]);
        seq![a] + merge_run(v2, evs.subrange(1, evs.len() as int))
    }
}

/// The view of a fresh session.
pub open spec fn merge_initial() -> MergeView {
    MergeView { plan: Seq::empty(), stage: MergeStage::Analyzing }
}

/// An action that would make a merge commit or touch the index with a merge.
pub open spec fn merges_histories(a: MergeAction) -> bool {
    a is CommitMerge || a is MergeIntoIndex || a is Materialize || a is Restage
}

/// The stages of the fast-forward path.
pub open spec fn fast_forward_stage(st: MergeStage) -> bool {
    ||| st is LookingUpBranch
    ||| st is UpdatingBranch
    ||| st is SettingHead
    ||| st == MergeStage::CheckingOut(MergeOutcome::FastForwarded)
    ||| st is RollingBack
    ||| st is Finished
}

proof fn lemma_fast_forward_path_closed(v: MergeView, evs: Seq<MergeEvent>)
    requires
        fast_forward_stage(v.stage),
    ensures
        forall|k: int|
            0 <= k < merge_run(v, evs).len() ==> !merges_histories(#[trigger] merge_run(v, evs)[k]),
    decreases evs.len(),
{
    if evs.len() > 0 {
        let (v2, a) = merge_next(v, evs[0]);
        let rest = evs.subrange(1, evs.len() as int);
        lemma_fast_forward_path_closed(v2, rest);
        let run = merge_run(v, evs);
        assert(run == seq![a] + merge_run(v2, rest));
        assert forall|k: int| 0 <= k < run.len() implies !merges_histories(#[trigger] run[k]) by {
            if k > 0 {
                assert(run[k] == merge_run(v2, rest)[k - 1]);
            }
        }
    }
}

/// Once the engine reports that the local tip is an ancestor of the incoming
/// commit, the session never merges into the index and never makes a merge
/// commit, whatever the engine answers afterwards.
pub proof fn lemma_fast_forward_makes_no_commit(evs: Seq<MergeEvent>)
    requires
        evs.len() > 0,
        evs[0] == MergeEvent::Analyzed(MergeKind::FastForward),
    ensures
        forall|k: int|
            0 <= k < merge_run(merge_initial(), evs).len() ==> !merges_histories(
                #[trigger] merge_run(merge_initial(), evs)[k],
            ),
{
    let (v2, a) = merge_next(merge_initial(), evs[0]);
    let rest = evs.subrange(1, evs.len() as int);
    lemma_fast_forward_path_closed(v2, rest);
    let run = merge_run(merge_initial(), evs);
    assert forall|k: int| 0 <= k < run.len() implies !merges_histories(#[trigger] run[k]) by {
        if k > 0 {
            assert(run[k] == merge_run(v2, rest)[k - 1]);
        }
    }
}

/// When every engine step succeeds, a fast-forward moves (or, into an empty
/// repository, creates) the branch reference at the incoming commit, points
/// HEAD at it, checks it out and reports `FastForwarded`.
pub proof fn lemma_fast_forward_moves_branch(branch_exists: bool)
    ensures
        merge_run(
            merge_initial(),
            seq![
                MergeEvent::Analyzed(MergeKind::FastForward),
                MergeEvent::BranchLookup(branch_exists),
                MergeEvent::Done,
                MergeEvent::Done,
                MergeEvent::Done,
            ],
        ) == seq![
            MergeAction::FindBranch,
            if branch_exists {
                MergeAction::MoveBranch
            } else {
                MergeAction::CreateBranch
            },
            MergeAction::SetHead,
            MergeAction::CheckoutHead,
            MergeAction::Finish(Ok(MergeOutcome::FastForwarded)),
        ],
{
    let e0 = MergeEvent::Analyzed(MergeKind::FastForward);
    let e1 = MergeEvent::BranchLookup(branch_exists);
    let v0 = merge_initial();
    let v1 = merge_next(v0, e0).0;
    let v2 = merge_next(v1, e1).0;
    let v3 = merge_next(v2, MergeEvent::Done).0;
    let v4 = merge_next(v3, MergeEvent::Done).0;
    let s4 = seq![MergeEvent::Done];
    let s3 = seq![MergeEvent::Done, MergeEvent::Done];
    let s2 = seq![MergeEvent::Done, MergeEvent::Done, MergeEvent::Done];
    let s1 = seq![e1, MergeEvent::Done, MergeEvent::Done, MergeEvent::Done];
    let s0 = seq![e0, e1, MergeEvent::Done, MergeEvent::Done, MergeEvent::Done];
    lemma_run_unfold(v4, s4);
    assert(s4.subrange(1, 1) =~= Seq::<MergeEvent>::empty());
    lemma_run_unfold(v3, s3);
    assert(s3.subrange(1, 2) =~= s4);
    lemma_run_unfold(v2, s2);
    assert(s2.subrange(1, 3) =~= s3);
    lemma_run_unfold(v1, s1);
    assert(s1.subrange(1, 4) =~= s2);
    lemma_run_unfold(v0, s0);
    assert(s0.subrange(1, 5) =~= s1);
    assert(merge_run(v0, s0) =~= seq![
        MergeAction::FindBranch,
        if branch_exists {
            MergeAction::MoveBranch
        } else {
            MergeAction::CreateBranch
        },
        MergeAction::SetHead,
        MergeAction::CheckoutHead,
        MergeAction::Finish(Ok(MergeOutcome::FastForwarded)),
    ]);
    assert(s0 =~= seq![
        MergeEvent::Analyzed(MergeKind::FastForward),
        MergeEvent::BranchLookup(branch_exists),
        MergeEvent::Done,
        MergeEvent::Done,
        MergeEvent::Done,
    ]);
}

proof fn lemma_run_unfold(v: MergeView, evs: Seq<MergeEvent>)
    requires
        evs.len() > 0,
    ensures
        merge_run(v, evs) == seq![merge_next(v, evs[0]).1] + merge_run(
            merge_next(v, evs[0]).0,
            evs.subrange(1, evs.len() as int),
        ),
{
}


/// `k` answers `Done`.
pub open spec fn dones(k: nat) -> Seq<MergeEvent> {
    Seq::new(k, |_i: int| MergeEvent::Done)
}

/// The actions that write back each resolution of `p`, in order.
pub open spec fn materializations(p: Seq<Resolution>) -> Seq<MergeAction> {
    p.map_values(|r: Resolution| MergeAction::Materialize(r))
}

proof fn lemma_materialize_rest(v: MergeView, i: int, rest: Seq<MergeEvent>)
    requires
        v.stage == MergeStage::Materializing(i as usize),
        0 <= i < v.plan.len() <= usize::MAX,
    ensures
        merge_run(v, dones((v.plan.len() - i) as nat) + rest) == materializations(
            v.plan.subrange(i + 1, v.plan.len() as int),
        ) + seq![MergeAction::Restage] + merge_run(
            MergeView { stage: MergeStage::Restaging, ..v },
            rest,
        ),
    decreases v.plan.len() - i,
{
    let n = v.plan.len() as int;
    let evs = dones((n - i) as nat) + rest;
    lemma_run_unfold(v, evs);
    assert(evs[0] == MergeEvent::Done);
    let tail = evs.subrange(1, evs.len() as int);
    if i == n - 1 {
        assert(tail =~= rest);
        assert(materializations(v.plan.subrange(i + 1, n)) =~= Seq::<MergeAction>::empty());
        assert(merge_run(v, evs) =~= seq![MergeAction::Restage] + merge_run(
            MergeView { stage: MergeStage::Restaging, ..v },
            rest,
        ));
    } else {
        let v2 = MergeView { stage: MergeStage::Materializing((i + 1) as usize), ..v };
        assert(merge_next(v, MergeEvent::Done) == (v2, MergeAction::Materialize(v.plan[i + 1])));
        assert(tail =~= dones((n - (i + 1)) as nat) + rest);
        lemma_materialize_rest(v2, i + 1, rest);
        assert(materializations(v.plan.subrange(i + 1, n)) =~= seq![
            MergeAction::Materialize(v.plan[i + 1]),
        ] + materializations(v.plan.subrange(i + 2, n)));
        assert(merge_run(v, evs) =~= materializations(v.plan.subrange(i + 1, n)) + seq![
            MergeAction::Restage,
        ] + merge_run(MergeView { stage: MergeStage::Restaging, ..v }, rest));
    }
}

/// When every conflicting path has a local side and every engine step
/// succeeds, the session writes back the local side of each path in order,
/// re-stages the working tree, finds no conflict left, makes the two-parent
/// merge commit and checks it out.
pub proof fn lemma_ours_merge_commits(conflicts: Vec<ConflictEntry>)
    requires
        0 < conflicts@.len() <= usize::MAX,
        forall|i: int| 0 <= i < conflicts@.len() ==> (#[trigger] conflicts@[i]).ours is Some,
    ensures
        merge_run(
            MergeView { plan: Seq::empty(), stage: MergeStage::MergingIndex },
            seq![MergeEvent::IndexMerged(conflicts)] + dones(conflicts@.len()) + seq![
                MergeEvent::Restaged { conflicts_remain: false },
                MergeEvent::Done,
                MergeEvent::Done,
                MergeEvent::Done,
            ],
        ) == conflicts@.map_values(
            |e: ConflictEntry|
                MergeAction::Materialize(Resolution { tier: Tier::Ours, side: e.ours.unwrap() }),
        ) + seq![
            MergeAction::Restage,
            MergeAction::CommitMerge,
            MergeAction::ClearMergeState,
            MergeAction::CheckoutHead,
            MergeAction::Finish(Ok(MergeOutcome::Merged { resolved: conflicts@.len() as usize })),
        ],
{
    let c = conflicts@;
    let n = c.len() as int;
    lemma_ours_wins_everywhere(c);
    let plan = resolution_plan(c);
    let v0 = MergeView { plan: Seq::empty(), stage: MergeStage::MergingIndex };
    let v1 = MergeView { plan, stage: MergeStage::Materializing(0) };
    let finale = seq![
        MergeEvent::Restaged { conflicts_remain: false },
        MergeEvent::Done,
        MergeEvent::Done,
        MergeEvent::Done,
    ];
    let evs = seq![MergeEvent::IndexMerged(conflicts)] + dones(c.len()) + finale;
    lemma_run_unfold(v0, evs);
    assert(merge_next(v0, evs[0]) == (v1, MergeAction::Materialize(plan[0])));
    assert(evs.subrange(1, evs.len() as int) =~= dones((n - 0) as nat) + finale);
    lemma_materialize_rest(v1, 0, finale);
    let vr = MergeView { plan, stage: MergeStage::Restaging };
    let vc = MergeView { plan, stage: MergeStage::Committing };
    let vs = MergeView { plan, stage: MergeStage::ClearingState };
    let vk = MergeView {
        plan,
        stage: MergeStage::CheckingOut(MergeOutcome::Merged { resolved: n as usize }),
    };
    let d3 = seq![MergeEvent::Done, MergeEvent::Done, MergeEvent::Done];
    let d2 = seq![MergeEvent::Done, MergeEvent::Done];
    let d1 = seq![MergeEvent::Done];
    lemma_run_unfold(vr, finale);
    assert(finale.subrange(1, 4) =~= d3);
    lemma_run_unfold(vc, d3);
    assert(d3.subrange(1, 3) =~= d2);
    lemma_run_unfold(vs, d2);
    assert(d2.subrange(1, 2) =~= d1);
    lemma_run_unfold(vk, d1);
    assert(d1.subrange(1, 1) =~= Seq::<MergeEvent>::empty());
    assert(merge_run(vr, finale) =~= seq![
        MergeAction::CommitMerge,
        MergeAction::ClearMergeState,
        MergeAction::CheckoutHead,
        MergeAction::Finish(Ok(MergeOutcome::Merged { resolved: n as usize })),
    ]);
    assert(seq![MergeAction::Materialize(plan[0])] + materializations(plan.subrange(1, n))
        =~= c.map_values(
        |e: ConflictEntry|
            MergeAction::Materialize(Resolution { tier: Tier::Ours, side: e.ours.unwrap() }),
    ));
    assert(merge_run(v0, evs) =~= c.map_values(
        |e: ConflictEntry|
            MergeAction::Materialize(Resolution { tier: Tier::Ours, side: e.ours.unwrap() }),
    ) + seq![
        MergeAction::Restage,
        MergeAction::CommitMerge,
        MergeAction::ClearMergeState,
        MergeAction::CheckoutHead,
        MergeAction::Finish(Ok(MergeOutcome::Merged { resolved: n as usize })),
    ]);
}


/// A merge commit is asked for only when the engine reported no conflict
/// left: right after a merge into the index that left none, or after
/// re-staging found none. A merge with conflicts left is never committed.
pub proof fn lemma_commit_only_when_clean(v: MergeView, e: MergeEvent)
    ensures
        merge_next(v, e).1 is CommitMerge ==> {
            ||| (v.stage is Restaging && e == MergeEvent::Restaged { conflicts_remain: false })
            ||| (v.stage is MergingIndex && (e matches MergeEvent::IndexMerged(c) && c@.len() == 0))
        },
{
}


/// An action that changes the repository on the way to a merge.
pub open spec fn changes_repository(a: MergeAction) -> bool {
    ||| a is MoveBranch
    ||| a is CreateBranch
    ||| a is SetHead
    ||| a is CheckoutHead
    ||| a is MergeIntoIndex
    ||| a is Materialize
    ||| a is Restage
    ||| a is CommitMerge
    ||| a is ClearMergeState
}

/// The stages a session can be in once it changed the repository.
pub open spec fn touched_stage(st: MergeStage) -> bool {
    !(st is Analyzing || st is LookingUpBranch || st is Finished)
}

/// The session ends in failure at `k` for the first time.
pub open spec fn first_failure(run: Seq<MergeAction>, k: int) -> bool {
    &&& 0 <= k < run.len()
    &&& run[k] matches MergeAction::Finish(Err(_))
    &&& forall|j: int| 0 <= j < k ==> !(#[trigger] run[j] is Finish)
}

proof fn lemma_rolls_back_from(v: MergeView, evs: Seq<MergeEvent>, touched: bool, after_reset: bool)
    requires
        !(v.stage is Finished),
        touched ==> touched_stage(v.stage),
        v.stage is RollingBack ==> after_reset,
    ensures
        forall|k: int|
            first_failure(merge_run(v, evs), k) && (touched || exists|i: int|
                0 <= i < k && changes_repository(#[trigger] merge_run(v, evs)[i])) ==> if k > 0 {
                merge_run(v, evs)[k - 1] is ResetToLocal
            } else {
                after_reset
            },
    decreases evs.len(),
{
    if evs.len() > 0 {
        let (v2, a) = merge_next(v, evs[0]);
        let tail = evs.subrange(1, evs.len() as int);
        let run = merge_run(v, evs);
        let rest = merge_run(v2, tail);
        assert(run == seq![a] + rest);
        let touched2 = touched || changes_repository(a);
        let reset2 = a is ResetToLocal;
        if !(a is Finish) {
            lemma_rolls_back_from(v2, tail, touched2, reset2);
        }
        assert forall|k: int|
            first_failure(run, k) && (touched || exists|i: int|
                0 <= i < k && changes_repository(#[trigger] run[i])) implies if k > 0 {
            run[k - 1] is ResetToLocal
        } else {
            after_reset
        } by {
            if k > 0 {
                assert(!(run[0] is Finish));
                assert(first_failure(rest, k - 1)) by {
                    assert forall|j: int| 0 <= j < k - 1 implies !(#[trigger] rest[j] is Finish) by {
                        assert(run[j + 1] == rest[j]);
                    }
                    assert(run[k] == rest[k - 1]);
                }
                if !touched2 {
                    let i = choose|i: int| 0 <= i < k && changes_repository(#[trigger] run[i]);
                    assert(i > 0);
                    assert(run[i] == rest[i - 1]);
                }
                if k > 1 {
                    assert(run[k - 1] == rest[k - 2]);
                }
            }
        }
    }
}

/// A merge that fails after it changed the repository rolls back: the
/// action right before its failure is the reset to the pre-merge local tip,
/// whatever the engine answered.
pub proof fn lemma_failed_merge_rolls_back(evs: Seq<MergeEvent>)
    ensures
        forall|k: int|
            first_failure(merge_run(merge_initial(), evs), k) && (exists|i: int|
                0 <= i < k && changes_repository(#[trigger] merge_run(merge_initial(), evs)[i]))
                ==> k > 0 && merge_run(merge_initial(), evs)[k - 1] is ResetToLocal,
{
    lemma_rolls_back_from(merge_initial(), evs, false, false);
}

} // verus!
