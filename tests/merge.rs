use notesync::conflict::{resolve_conflicts, ConflictEntry, ConflictSide, Tier};
use notesync::error::Error;
use notesync::merge::{
    classify_analysis, MergeAction, MergeEvent, MergeKind, MergeOutcome, MergeSession,
};
use notesync::refs::{create_branch_message, fast_forward_message, merge_message};

fn side(blob: &str, path: &str) -> Option<ConflictSide> {
    Some(ConflictSide { blob: blob.to_string(), path: path.to_string() })
}

fn entry(
    ours: Option<ConflictSide>,
    theirs: Option<ConflictSide>,
    ancestor: Option<ConflictSide>,
) -> ConflictEntry {
    ConflictEntry { ours, theirs, ancestor }
}

fn run(events: Vec<MergeEvent>) -> Vec<MergeAction> {
    let (mut session, first) = MergeSession::start();
    let mut actions = vec![first];
    for e in events {
        let (next, action) = session.step(e);
        session = next;
        actions.push(action);
    }
    actions
}

#[test]
fn analysis_flags() {
    assert_eq!(classify_analysis(true, false, false, false), MergeKind::FastForward);
    assert_eq!(classify_analysis(true, false, false, true), MergeKind::FastForward);
    assert_eq!(classify_analysis(false, true, false, false), MergeKind::Normal);
    assert_eq!(classify_analysis(false, false, true, false), MergeKind::UpToDate);
    assert_eq!(classify_analysis(false, false, false, true), MergeKind::Unborn);
    assert_eq!(classify_analysis(false, false, false, false), MergeKind::UpToDate);
}

#[test]
fn fast_forward_moves_existing_branch() {
    let actions = run(vec![
        MergeEvent::Analyzed(MergeKind::FastForward),
        MergeEvent::BranchLookup(true),
        MergeEvent::Done,
        MergeEvent::Done,
        MergeEvent::Done,
    ]);
    assert!(matches!(actions[0], MergeAction::Analyze));
    assert!(matches!(actions[1], MergeAction::FindBranch));
    assert!(matches!(actions[2], MergeAction::MoveBranch));
    assert!(matches!(actions[3], MergeAction::SetHead));
    assert!(matches!(actions[4], MergeAction::CheckoutHead));
    assert!(matches!(actions[5], MergeAction::Finish(Ok(MergeOutcome::FastForwarded))));
    assert!(!actions.iter().any(|a| matches!(a, MergeAction::CommitMerge)));
}

#[test]
fn fast_forward_into_empty_repository_creates_branch() {
    let actions = run(vec![
        MergeEvent::Analyzed(MergeKind::FastForward),
        MergeEvent::BranchLookup(false),
        MergeEvent::Done,
        MergeEvent::Done,
        MergeEvent::Done,
    ]);
    assert!(matches!(actions[2], MergeAction::CreateBranch));
    assert!(matches!(actions[5], MergeAction::Finish(Ok(MergeOutcome::FastForwarded))));
}

#[test]
fn up_to_date_and_unborn_do_nothing() {
    for kind in [MergeKind::UpToDate, MergeKind::Unborn] {
        let actions = run(vec![MergeEvent::Analyzed(kind)]);
        assert_eq!(actions.len(), 2);
        assert!(matches!(actions[1], MergeAction::Finish(Ok(MergeOutcome::UpToDate))));
    }
}

#[test]
fn ours_wins_every_path() {
    let conflicts = vec![
        entry(side("o1", "a.md"), side("t1", "a.md"), side("b1", "a.md")),
        entry(side("o2", "b.md"), None, side("b2", "b.md")),
    ];
    let plan = resolve_conflicts(&conflicts);
    assert_eq!(plan.len(), 2);
    assert_eq!(plan[0].tier, Tier::Ours);
    assert_eq!(plan[0].side.blob, "o1");
    assert_eq!(plan[1].tier, Tier::Ours);
    assert_eq!(plan[1].side.blob, "o2");
}

#[test]
fn theirs_when_ours_deleted() {
    let conflicts = vec![
        entry(None, side("t1", "gone.md"), side("b1", "gone.md")),
        entry(side("o2", "kept.md"), side("t2", "kept.md"), None),
    ];
    let plan = resolve_conflicts(&conflicts);
    assert_eq!(plan.len(), 2);
    assert_eq!(plan[0].tier, Tier::Ours);
    assert_eq!(plan[0].side.path, "kept.md");
    assert_eq!(plan[1].tier, Tier::Theirs);
    assert_eq!(plan[1].side.blob, "t1");
    assert_eq!(plan[1].side.path, "gone.md");
}

#[test]
fn ancestor_as_last_resort() {
    let conflicts = vec![
        entry(None, None, side("b1", "old.md")),
        entry(None, None, None),
    ];
    let plan = resolve_conflicts(&conflicts);
    assert_eq!(plan.len(), 1);
    assert_eq!(plan[0].tier, Tier::Ancestor);
    assert_eq!(plan[0].side.blob, "b1");
}

#[test]
fn empty_conflict_set() {
    assert!(resolve_conflicts(&vec![]).is_empty());
}

#[test]
fn pull_resolves_to_local_content_with_merge_commit() {
    let conflicts = vec![entry(side("local", "f"), side("remote", "f"), side("base", "f"))];
    let actions = run(vec![
        MergeEvent::Analyzed(MergeKind::Normal),
        MergeEvent::IndexMerged(conflicts),
        MergeEvent::Done,
        MergeEvent::Restaged { conflicts_remain: false },
        MergeEvent::Done,
        MergeEvent::Done,
        MergeEvent::Done,
    ]);
    assert!(matches!(actions[1], MergeAction::MergeIntoIndex));
    match &actions[2] {
        MergeAction::Materialize(r) => {
            assert_eq!(r.tier, Tier::Ours);
            assert_eq!(r.side.blob, "local");
            assert_eq!(r.side.path, "f");
        }
        other => panic!("unexpected action {:?}", other),
    }
    assert!(matches!(actions[3], MergeAction::Restage));
    assert!(matches!(actions[4], MergeAction::CommitMerge));
    assert!(matches!(actions[5], MergeAction::ClearMergeState));
    assert!(matches!(actions[6], MergeAction::CheckoutHead));
    assert!(matches!(actions[7], MergeAction::Finish(Ok(MergeOutcome::Merged { resolved: 1 }))));
}

#[test]
fn clean_merge_commits_directly() {
    let actions = run(vec![
        MergeEvent::Analyzed(MergeKind::Normal),
        MergeEvent::IndexMerged(vec![]),
        MergeEvent::Done,
        MergeEvent::Done,
        MergeEvent::Done,
    ]);
    assert!(matches!(actions[2], MergeAction::CommitMerge));
    assert!(matches!(actions[3], MergeAction::ClearMergeState));
    assert!(matches!(actions[4], MergeAction::CheckoutHead));
    assert!(matches!(actions[5], MergeAction::Finish(Ok(MergeOutcome::Merged { resolved: 0 }))));
}

#[test]
fn leftover_conflicts_roll_back() {
    let conflicts = vec![entry(side("o", "f"), side("t", "f"), None)];
    let actions = run(vec![
        MergeEvent::Analyzed(MergeKind::Normal),
        MergeEvent::IndexMerged(conflicts),
        MergeEvent::Done,
        MergeEvent::Restaged { conflicts_remain: true },
        MergeEvent::Done,
    ]);
    assert!(matches!(actions[4], MergeAction::ResetToLocal));
    assert!(matches!(actions[5], MergeAction::Finish(Err(Error::UnresolvableConflict))));
    assert!(!actions.iter().any(|a| matches!(a, MergeAction::CommitMerge)));
}

#[test]
fn failed_write_rolls_back() {
    let conflicts = vec![
        entry(side("o1", "a"), side("t1", "a"), None),
        entry(side("o2", "b"), side("t2", "b"), None),
    ];
    let actions = run(vec![
        MergeEvent::Analyzed(MergeKind::Normal),
        MergeEvent::IndexMerged(conflicts),
        MergeEvent::Failed("disk full".to_string()),
        MergeEvent::Done,
    ]);
    assert!(matches!(actions[3], MergeAction::ResetToLocal));
    match &actions[4] {
        MergeAction::Finish(Err(Error::IoFailure { message })) => assert_eq!(message, "disk full"),
        other => panic!("unexpected action {:?}", other),
    }
}

#[test]
fn engine_failure_ends_merge() {
    let actions = run(vec![MergeEvent::Failed("corrupt object".to_string())]);
    match &actions[1] {
        MergeAction::Finish(Err(Error::Engine { message })) => {
            assert_eq!(message, "corrupt object")
        }
        other => panic!("unexpected action {:?}", other),
    }
}

#[test]
fn answer_out_of_turn() {
    let actions = run(vec![MergeEvent::Done]);
    assert!(matches!(actions[1], MergeAction::Finish(Err(Error::InvalidState))));
}

#[test]
fn reflog_and_commit_messages() {
    assert_eq!(
        fast_forward_message("refs/heads/master", "abc123"),
        "Fast-Forward: Setting refs/heads/master to id: abc123"
    );
    assert_eq!(create_branch_message("master", "abc123"), "Setting master to abc123");
    assert_eq!(merge_message("remote1", "local1"), "Merge: remote1 into local1");
}

fn assert_rolled_back(actions: &[MergeAction], message: &str) {
    let n = actions.len();
    assert!(matches!(actions[n - 2], MergeAction::ResetToLocal));
    match &actions[n - 1] {
        MergeAction::Finish(Err(Error::Engine { message: m })) => assert_eq!(m, message),
        other => panic!("unexpected action {:?}", other),
    }
}

#[test]
fn failed_restage_rolls_back() {
    let conflicts = vec![entry(side("o", "f"), side("t", "f"), None)];
    let actions = run(vec![
        MergeEvent::Analyzed(MergeKind::Normal),
        MergeEvent::IndexMerged(conflicts),
        MergeEvent::Done,
        MergeEvent::Failed("checkout failed".to_string()),
        MergeEvent::Done,
    ]);
    assert_rolled_back(&actions, "checkout failed");
}

#[test]
fn failed_checkout_after_commit_rolls_back() {
    let actions = run(vec![
        MergeEvent::Analyzed(MergeKind::Normal),
        MergeEvent::IndexMerged(vec![]),
        MergeEvent::Done,
        MergeEvent::Done,
        MergeEvent::Failed("locked".to_string()),
        MergeEvent::Done,
    ]);
    assert!(matches!(actions[4], MergeAction::CheckoutHead));
    assert_rolled_back(&actions, "locked");
}

#[test]
fn failed_commit_rolls_back() {
    let actions = run(vec![
        MergeEvent::Analyzed(MergeKind::Normal),
        MergeEvent::IndexMerged(vec![]),
        MergeEvent::Failed("no signature".to_string()),
        MergeEvent::Failed("reset failed too".to_string()),
    ]);
    assert_rolled_back(&actions, "no signature");
}

#[test]
fn failed_merge_into_index_rolls_back() {
    let actions = run(vec![
        MergeEvent::Analyzed(MergeKind::Normal),
        MergeEvent::Failed("corrupt object".to_string()),
        MergeEvent::Done,
    ]);
    assert_rolled_back(&actions, "corrupt object");
}

#[test]
fn failed_checkout_after_fast_forward_rolls_back() {
    let actions = run(vec![
        MergeEvent::Analyzed(MergeKind::FastForward),
        MergeEvent::BranchLookup(true),
        MergeEvent::Done,
        MergeEvent::Done,
        MergeEvent::Failed("dirty tree".to_string()),
        MergeEvent::Done,
    ]);
    assert!(matches!(actions[4], MergeAction::CheckoutHead));
    assert_rolled_back(&actions, "dirty tree");
}
