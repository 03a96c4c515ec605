use notesync::error::Error;
use notesync::refs::HeadState;
use notesync::sync::{SyncAction, SyncEvent, SyncOutcome, SyncSession};

/// A working copy as far as sync sees it.
struct Copy {
    branch: String,
    local_tip: String,
    remote_tip: String,
    tracking_tip: String,
    edits: Option<String>,
    shelf: Option<String>,
    reapply_fails: bool,
}

fn drive(copy: &mut Copy) -> (Vec<String>, Result<SyncOutcome, Error>) {
    let (mut session, mut action) = SyncSession::start();
    let mut trace = Vec::new();
    loop {
        let event = match &action {
            SyncAction::ReadHead => {
                trace.push("head".to_string());
                SyncEvent::Head(HeadState::OnBranch {
                    name: copy.branch.clone(),
                    id: Some(copy.local_tip.clone()),
                })
            }
            SyncAction::ProbeChanges => SyncEvent::Observed(copy.edits.is_some()),
            SyncAction::Shelve => {
                trace.push("shelve".to_string());
                copy.shelf = copy.edits.take();
                SyncEvent::Done
            }
            SyncAction::Fetch => {
                trace.push("fetch".to_string());
                copy.tracking_tip = copy.remote_tip.clone();
                SyncEvent::Done
            }
            SyncAction::ResetToRemote { branch } => {
                trace.push(format!("reset {}", branch));
                copy.local_tip = copy.tracking_tip.clone();
                copy.edits = None;
                SyncEvent::Done
            }
            SyncAction::Reapply => {
                trace.push("reapply".to_string());
                if copy.reapply_fails {
                    SyncEvent::Failed("conflict".to_string())
                } else {
                    copy.edits = copy.shelf.take();
                    SyncEvent::Done
                }
            }
            SyncAction::Finish(_) => unreachable!(),
        };
        let (next, next_action) = session.step(event);
        session = next;
        action = next_action;
        if let SyncAction::Finish(r) = action {
            return (trace, r);
        }
    }
}

fn copy(edits: Option<&str>, reapply_fails: bool) -> Copy {
    Copy {
        branch: "master".to_string(),
        local_tip: "c1".to_string(),
        remote_tip: "c2".to_string(),
        tracking_tip: "c0".to_string(),
        edits: edits.map(|e| e.to_string()),
        shelf: None,
        reapply_fails,
    }
}

#[test]
fn sync_round_trip_matches_remote_tip() {
    let mut c = copy(None, false);
    let (trace, r) = drive(&mut c);
    assert_eq!(trace, vec!["head", "fetch", "reset master"]);
    assert_eq!(r.unwrap(), SyncOutcome { shelved: false, reapplied: false });
    assert_eq!(c.local_tip, c.remote_tip);
    assert!(c.edits.is_none());
    let (_, again) = drive(&mut c);
    assert!(again.is_ok());
    assert_eq!(c.local_tip, "c2");
}

#[test]
fn sync_reapplies_uncommitted_edit() {
    let mut c = copy(Some("f: my edit"), false);
    let (trace, r) = drive(&mut c);
    assert_eq!(trace, vec!["head", "shelve", "fetch", "reset master", "reapply"]);
    assert_eq!(r.unwrap(), SyncOutcome { shelved: true, reapplied: true });
    assert_eq!(c.local_tip, "c2");
    assert_eq!(c.edits, Some("f: my edit".to_string()));
}

#[test]
fn sync_drops_edit_when_reapply_fails() {
    let mut c = copy(Some("f: my edit"), true);
    let (_, r) = drive(&mut c);
    assert_eq!(r.unwrap(), SyncOutcome { shelved: true, reapplied: false });
    assert_eq!(c.local_tip, "c2");
    assert!(c.edits.is_none());
}

#[test]
fn sync_goes_on_when_shelving_fails() {
    let (s, _) = SyncSession::start();
    let (s, _) = s.step(SyncEvent::Head(HeadState::OnBranch {
        name: "main".to_string(),
        id: None,
    }));
    let (s, a) = s.step(SyncEvent::Observed(true));
    assert!(matches!(a, SyncAction::Shelve));
    let (s, a) = s.step(SyncEvent::Failed("no identity".to_string()));
    assert!(matches!(a, SyncAction::Fetch));
    let (s, a) = s.step(SyncEvent::Done);
    assert!(matches!(a, SyncAction::ResetToRemote { ref branch } if branch == "main"));
    let (s, a) = s.step(SyncEvent::Done);
    assert!(matches!(a, SyncAction::Finish(Ok(SyncOutcome { shelved: false, reapplied: false }))));
    assert!(s.is_finished());
}

#[test]
fn sync_needs_a_named_branch() {
    for head in [HeadState::Unreadable, HeadState::Detached { id: Some("c1".to_string()) }] {
        let (s, _) = SyncSession::start();
        let (_, a) = s.step(SyncEvent::Head(head));
        assert!(matches!(a, SyncAction::Finish(Err(Error::InvalidState))));
    }
}

#[test]
fn sync_fetch_failure_is_transport_failure() {
    let (s, _) = SyncSession::start();
    let (s, _) = s.step(SyncEvent::Head(HeadState::OnBranch {
        name: "main".to_string(),
        id: Some("c1".to_string()),
    }));
    let (s, _) = s.step(SyncEvent::Observed(false));
    let (_, a) = s.step(SyncEvent::Failed("unreachable".to_string()));
    match a {
        SyncAction::Finish(Err(Error::TransportFailure { message })) => {
            assert_eq!(message, "unreachable")
        }
        other => panic!("unexpected action {:?}", other),
    }
}

#[test]
fn sync_reset_failure_is_engine_failure() {
    let (s, _) = SyncSession::start();
    let (s, _) = s.step(SyncEvent::Head(HeadState::OnBranch {
        name: "main".to_string(),
        id: Some("c1".to_string()),
    }));
    let (s, _) = s.step(SyncEvent::Observed(false));
    let (s, _) = s.step(SyncEvent::Done);
    let (_, a) = s.step(SyncEvent::Failed("no remote branch".to_string()));
    assert!(matches!(a, SyncAction::Finish(Err(Error::Engine { .. }))));
}
