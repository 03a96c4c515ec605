use vstd::prelude::*;

verus! {

/// The checks of the sanitizer, in the order it runs them.
#[derive(PartialEq, Eq, Structural, Clone, Copy, Debug)]
pub enum Check {
    /// An interrupted merge left its markers.
    MergeMarkers,
    /// An interrupted rebase left its markers.
    RebaseMarkers,
    /// An interrupted cherry-pick left its markers.
    CherryPickMarkers,
    /// An interrupted revert left its marker.
    RevertMarkers,
    /// The index holds unresolved conflicts.
    IndexConflicts,
    /// Tracked files differ from the branch tip (untracked files do not count).
    DirtyTree,
}

/// The check that follows `k`, if any.
pub open spec fn check_after(k: Check) -> Option<Check> {
    match k {
        Check::MergeMarkers => Some(Check::RebaseMarkers),
        Check::RebaseMarkers => Some(Check::CherryPickMarkers),
        Check::CherryPickMarkers => Some(Check::RevertMarkers),
        Check::RevertMarkers => Some(Check::IndexConflicts),
        Check::IndexConflicts => Some(Check::DirtyTree),
        Check::DirtyTree => None,
    }
}

/// Whether a check is healed by deleting marker references (the others are
/// healed by a hard reset to the branch tip).
pub open spec fn is_marker_check(k: Check) -> bool {
    !(k is IndexConflicts || k is DirtyTree)
}

/// The marker references that make up each marker set; the first one tells
/// whether the operation is in flight.
pub open spec fn markers_of(k: Check) -> Seq<&'static str> {
    match k {
        Check::MergeMarkers => seq!["MERGE_HEAD", "MERGE_MSG", "MERGE_MODE"],
        Check::RebaseMarkers => seq!["REBASE_HEAD", "REBASE_SEQ"],
        Check::CherryPickMarkers => seq!["CHERRY_PICK_HEAD", "CHERRY_PICK_SEQ"],
        Check::RevertMarkers => seq!["REVERT_HEAD"],
        _ => Seq::empty(),
    }
}

fn following_check(k: Check) -> (r: Option<Check>)
    ensures
        r == check_after(k),
{
    match k {
        Check::MergeMarkers => Some(Check::RebaseMarkers),
        Check::RebaseMarkers => Some(Check::CherryPickMarkers),
        Check::CherryPickMarkers => Some(Check::RevertMarkers),
        Check::RevertMarkers => Some(Check::IndexConflicts),
        Check::IndexConflicts => Some(Check::DirtyTree),
        Check::DirtyTree => None,
    }
}

/// The marker references to delete for a marker check (none for the others).
pub fn marker_refs(k: Check) -> (r: Vec<&'static str>)
    ensures
        r@ == markers_of(k),
{
    let r = match k {
        Check::MergeMarkers => vec!["MERGE_HEAD", "MERGE_MSG", "MERGE_MODE"],
        Check::RebaseMarkers => vec!["REBASE_HEAD", "REBASE_SEQ"],
        Check::CherryPickMarkers => vec!["CHERRY_PICK_HEAD", "CHERRY_PICK_SEQ"],
        Check::RevertMarkers => vec!["REVERT_HEAD"],
        _ => Vec::new(),
    };
    proof {
        assert(r@ =~= markers_of(k));
    }
    r
}

/// Where a sanitizing pass stands.
#[derive(PartialEq, Eq, Structural, Clone, Copy, Debug)]
pub enum SanitizeStage {
    Inspecting(Check),
    Healing(Check),
    Finished,
}

/// A sanitizing pass: the stage and whether anything was healed so far.
#[derive(PartialEq, Eq, Structural, Clone, Copy, Debug)]
pub struct Sanitizer {
    pub stage: SanitizeStage,
    pub cleaned: bool,
}

/// The work the pass asks of the engine next.
#[derive(PartialEq, Eq, Structural, Clone, Copy, Debug)]
pub enum SanitizeAction {
    /// Tell whether the check's condition holds; answer `Observed`.
    Inspect(Check),
    /// Heal the condition: delete the check's marker references, each on its
    /// own and ignoring failures, or hard-reset working tree and index to the
    /// commit at the branch tip; answer `Healed`, with `false` when there was
    /// no tip commit to reset to.
    Heal(Check),
    /// The pass is over; it always succeeds.
    Finish { cleaned: bool },
}

/// The engine's answer to the last action.
#[derive(PartialEq, Eq, Structural, Clone, Copy, Debug)]
pub enum SanitizeEvent {
    Observed(bool),
    Healed(bool),
}

/// Leaves check `k` behind: inspects the next one, or finishes.
pub open spec fn advance(k: Check, cleaned: bool) -> (Sanitizer, SanitizeAction) {
    match check_after(k) {
        Some(n) => (
            Sanitizer { stage: SanitizeStage::Inspecting(n), cleaned },
            SanitizeAction::Inspect(n),
        ),
        None => (
            Sanitizer { stage: SanitizeStage::Finished, cleaned },
            SanitizeAction::Finish { cleaned },
        ),
    }
}

/// One step of the sanitizer. No answer stops the pass early: a step that
/// failed, or an answer out of turn, moves on to the next check.
pub open spec fn sanitize_next(s: Sanitizer, e: SanitizeEvent) -> (Sanitizer, SanitizeAction) {
    match s.stage {
        SanitizeStage::Inspecting(k) => match e {
            SanitizeEvent::Observed(true) => (
                Sanitizer { stage: SanitizeStage::Healing(k), cleaned: s.cleaned },
                SanitizeAction::Heal(k),
            ),
            _ => advance(k, s.cleaned),
        },
        SanitizeStage::Healing(k) => match e {
            SanitizeEvent::Healed(ok) => advance(k, s.cleaned || is_marker_check(k) || ok),
            _ => advance(k, s.cleaned),
        },
        SanitizeStage::Finished => (s, SanitizeAction::Finish { cleaned: s.cleaned }),
    }
}

fn advance_from(k: Check, cleaned: bool) -> (r: (Sanitizer, SanitizeAction))
    ensures
        r == advance(k, cleaned),
{
    match following_check(k) {
        Some(n) => (
            Sanitizer { stage: SanitizeStage::Inspecting(n), cleaned },
            SanitizeAction::Inspect(n),
        ),
        None => (
            Sanitizer { stage: SanitizeStage::Finished, cleaned },
            SanitizeAction::Finish { cleaned },
        ),
    }
}

impl Sanitizer {
    /// A new pass; it starts with the merge markers.
    pub fn start() -> (r: (Sanitizer, SanitizeAction))
        ensures
            r == sanitize_initial(),
    {
        (
            Sanitizer { stage: SanitizeStage::Inspecting(Check::MergeMarkers), cleaned: false },
            SanitizeAction::Inspect(Check::MergeMarkers),
        )
    }

    /// Takes the engine's answer and returns the next state and action.
    pub fn step(self, e: SanitizeEvent) -> (r: (Sanitizer, SanitizeAction))
        ensures
            r == sanitize_next(self, e),
    {
        match self.stage {
            SanitizeStage::Inspecting(k) => match e {
                SanitizeEvent::Observed(true) => (
                    Sanitizer { stage: SanitizeStage::Healing(k), cleaned: self.cleaned },
                    SanitizeAction::Heal(k),
                ),
                _ => advance_from(k, self.cleaned),
            },
            SanitizeStage::Healing(k) => match e {
                SanitizeEvent::Healed(ok) => {
                    let marker = match k {
                        Check::IndexConflicts | Check::DirtyTree => false,
                        _ => true,
                    };
                    advance_from(k, self.cleaned || marker || ok)
                },
                _ => advance_from(k, self.cleaned),
            },
            SanitizeStage::Finished => (self, SanitizeAction::Finish { cleaned: self.cleaned }),
        }
    }

    /// Whether the pass is over.
    pub fn is_finished(&self) -> (r: bool)
        ensures
            r == (self.stage is Finished),
    {
        matches!(self.stage, SanitizeStage::Finished)
    }
}

/// The state and first action of a new pass.
pub open spec fn sanitize_initial() -> (Sanitizer, SanitizeAction) {
    (
        Sanitizer { stage: SanitizeStage::Inspecting(Check::MergeMarkers), cleaned: false },
        SanitizeAction::Inspect(Check::MergeMarkers),
    )
}

/// What the sanitizer can observe of a repository.
#[derive(PartialEq, Eq, Structural, Clone, Copy, Debug)]
pub struct RepoCondition {
    pub merging: bool,
    pub rebasing: bool,
    pub cherry_picking: bool,
    pub reverting: bool,
    pub conflicted: bool,
    pub dirty: bool,
    /// The branch has a tip commit (false in a brand-new repository).
    pub has_tip: bool,
}

/// The answer a repository in condition `c` gives to an inspection.
pub open spec fn observe(c: RepoCondition, k: Check) -> bool {
    match k {
        Check::MergeMarkers => c.merging,
        Check::RebaseMarkers => c.rebasing,
        Check::CherryPickMarkers => c.cherry_picking,
        Check::RevertMarkers => c.reverting,
        Check::IndexConflicts => c.conflicted,
        Check::DirtyTree => c.dirty,
    }
}

/// What healing does to a repository in condition `c`, and the answer it
/// gives: deleting markers clears them; a hard reset to the tip clears
/// conflicts and tracked changes, and cannot be done without a tip.
pub open spec fn heal(c: RepoCondition, k: Check) -> (RepoCondition, bool) {
    match k {
        Check::MergeMarkers => (RepoCondition { merging: false, ..c }, true),
        Check::RebaseMarkers => (RepoCondition { rebasing: false, ..c }, true),
        Check::CherryPickMarkers => (RepoCondition { cherry_picking: false, ..c }, true),
        Check::RevertMarkers => (RepoCondition { reverting: false, ..c }, true),
        _ => if c.has_tip {
            (RepoCondition { conflicted: false, dirty: false, ..c }, true)
        } else {
            (c, false)
        },
    }
}

/// The condition a repository in condition `c` is left in once the pass,
/// in state `s` about to perform `a`, has run `fuel` more steps against it.
pub open spec fn settle(s: Sanitizer, a: SanitizeAction, c: RepoCondition, fuel: nat) -> RepoCondition
    decreases fuel,
{
    if fuel == 0 {
        c
    } else {
        match a {
            SanitizeAction::Inspect(k) => {
                let (s2, a2) = sanitize_next(s, SanitizeEvent::Observed(observe(c, k)));
                settle(s2, a2, c, (fuel - 1) as nat)
            },
            SanitizeAction::Heal(k) => {
                let (c2, ok) = heal(c, k);
                let (s2, a2) = sanitize_next(s, SanitizeEvent::Healed(ok));
                settle(s2, a2, c2, (fuel - 1) as nat)
            },
            SanitizeAction::Finish { .. } => c,
        }
    }
}

/// The number of steps that a whole pass takes at most: an inspection and a
/// heal for each check.
pub open spec fn pass_length() -> nat {
    12
}

/// The condition a whole pass leaves a repository in.
pub open spec fn sanitized(c: RepoCondition) -> RepoCondition {
    settle(sanitize_initial().0, sanitize_initial().1, c, pass_length())
}

/// The condition after check `k` ran on a repository in condition `c`.
pub open spec fn after_check(c: RepoCondition, k: Check) -> RepoCondition {
    if observe(c, k) {
        heal(c, k).0
    } else {
        c
    }
}

/// Whether the pass counts something as healed after check `k`.
pub open spec fn cleaned_after(cleaned: bool, c: RepoCondition, k: Check) -> bool {
    if observe(c, k) {
        cleaned || is_marker_check(k) || heal(c, k).1
    } else {
        cleaned
    }
}

proof fn lemma_check_runs(k: Check, cleaned: bool, c: RepoCondition, fuel: nat)
    requires
        fuel >= 2,
    ensures
        settle(
            Sanitizer { stage: SanitizeStage::Inspecting(k), cleaned },
            SanitizeAction::Inspect(k),
            c,
            fuel,
        ) == settle(
            advance(k, cleaned_after(cleaned, c, k)).0,
            advance(k, cleaned_after(cleaned, c, k)).1,
            after_check(c, k),
            (if observe(c, k) {
                fuel - 2
            } else {
                fuel - 1
            }) as nat,
        ),
{
    reveal_with_fuel(settle, 3);
}

/// A pass removes every marker set and, where the branch has a tip, every
/// conflict and tracked change; without a tip the index and working tree are
/// left as they were.
pub proof fn lemma_sanitized_condition(c: RepoCondition)
    ensures
        sanitized(c) == (RepoCondition {
            merging: false,
            rebasing: false,
            cherry_picking: false,
            reverting: false,
            conflicted: c.conflicted && !c.has_tip,
            dirty: c.dirty && !c.has_tip,
            has_tip: c.has_tip,
        }),
{
    let c1 = after_check(c, Check::MergeMarkers);
    let c2 = after_check(c1, Check::RebaseMarkers);
    let c3 = after_check(c2, Check::CherryPickMarkers);
    let c4 = after_check(c3, Check::RevertMarkers);
    let c5 = after_check(c4, Check::IndexConflicts);
    let c6 = after_check(c5, Check::DirtyTree);
    let l0 = false;
    let l1 = cleaned_after(l0, c, Check::MergeMarkers);
    let l2 = cleaned_after(l1, c1, Check::RebaseMarkers);
    let l3 = cleaned_after(l2, c2, Check::CherryPickMarkers);
    let l4 = cleaned_after(l3, c3, Check::RevertMarkers);
    let l5 = cleaned_after(l4, c4, Check::IndexConflicts);
    let l6 = cleaned_after(l5, c5, Check::DirtyTree);
    let f0: nat = 12;
    let f1: nat = (if observe(c, Check::MergeMarkers) { f0 - 2 } else { f0 - 1 }) as nat;
    let f2: nat = (if observe(c1, Check::RebaseMarkers) { f1 - 2 } else { f1 - 1 }) as nat;
    let f3: nat = (if observe(c2, Check::CherryPickMarkers) { f2 - 2 } else { f2 - 1 }) as nat;
    let f4: nat = (if observe(c3, Check::RevertMarkers) { f3 - 2 } else { f3 - 1 }) as nat;
    let f5: nat = (if observe(c4, Check::IndexConflicts) { f4 - 2 } else { f4 - 1 }) as nat;
    let f6: nat = (if observe(c5, Check::DirtyTree) { f5 - 2 } else { f5 - 1 }) as nat;
    lemma_check_runs(Check::MergeMarkers, l0, c, f0);
    lemma_check_runs(Check::RebaseMarkers, l1, c1, f1);
    lemma_check_runs(Check::CherryPickMarkers, l2, c2, f2);
    lemma_check_runs(Check::RevertMarkers, l3, c3, f3);
    lemma_check_runs(Check::IndexConflicts, l4, c4, f4);
    lemma_check_runs(Check::DirtyTree, l5, c5, f5);
    assert(settle(
        advance(Check::DirtyTree, l6).0,
        advance(Check::DirtyTree, l6).1,
        c6,
        f6,
    ) == c6);
}

/// Running the sanitizer twice in a row leaves the repository as the first
/// run left it.
pub proof fn lemma_sanitize_idempotent(c: RepoCondition)
    ensures
        sanitized(sanitized(c)) == sanitized(c),
{
    lemma_sanitized_condition(c);
    lemma_sanitized_condition(sanitized(c));
}

} // verus!
