use notesync::error::Error;
use notesync::handle::{close, last_commit, signature, RepoSlot};
use notesync::history::{changes_path, commit_millis, log_entry};
use notesync::refs::{current_branch, local_branch_ref, push_refspec, remote_branch_ref, HeadState};
use notesync::setup::{branch_already_exists, setup_after_clone, CloneSetup};

fn pair(a: &str, b: &str) -> Option<(String, String)> {
    Some((a.to_string(), b.to_string()))
}

#[test]
fn slot_replace_and_close() {
    let mut slot: RepoSlot<&str> = RepoSlot::new();
    assert!(!slot.is_open());
    assert_eq!(slot.replace("first"), None);
    assert_eq!(slot.replace("second"), Some("first"));
    assert_eq!(slot.get(), Some(&"second"));
    close(&mut slot);
    assert!(!slot.is_open());
    assert_eq!(slot.get(), None);
}

#[test]
fn last_commit_follows_head() {
    assert_eq!(last_commit(&HeadState::Unreadable), None);
    let head = HeadState::OnBranch { name: "main".to_string(), id: Some("abc".to_string()) };
    assert_eq!(last_commit(&head), Some("abc".to_string()));
    let detached = HeadState::Detached { id: Some("def".to_string()) };
    assert_eq!(last_commit(&detached), Some("def".to_string()));
    assert_eq!(last_commit(&HeadState::OnBranch { name: "main".to_string(), id: None }), None);
}

#[test]
fn signature_prefers_configuration() {
    let head = HeadState::OnBranch { name: "main".to_string(), id: Some("abc".to_string()) };
    assert_eq!(signature(&head, pair("Ann", "ann@x"), pair("Bob", "bob@x")), pair("Ann", "ann@x"));
    assert_eq!(signature(&head, pair("", "ann@x"), pair("Bob", "bob@x")), pair("", "ann@x"));
    assert_eq!(signature(&head, pair("", ""), pair("Bob", "bob@x")), pair("Bob", "bob@x"));
    assert_eq!(signature(&head, None, pair("Bob", "bob@x")), pair("Bob", "bob@x"));
    assert_eq!(signature(&head, None, None), None);
    assert_eq!(signature(&HeadState::Unreadable, pair("Ann", "a"), None), None);
}

#[test]
fn branch_of_head() {
    let head = HeadState::OnBranch { name: "main".to_string(), id: None };
    assert_eq!(current_branch(&head).unwrap(), "main");
    assert!(matches!(current_branch(&HeadState::Unreadable), Err(Error::InvalidState)));
    assert!(matches!(
        current_branch(&HeadState::Detached { id: None }),
        Err(Error::InvalidState)
    ));
}

#[test]
fn reference_names() {
    assert_eq!(local_branch_ref("main"), "refs/heads/main");
    assert_eq!(remote_branch_ref("main"), "refs/remotes/origin/main");
    assert_eq!(push_refspec("main"), "refs/heads/main:refs/heads/main");
}

#[test]
fn clone_setup() {
    assert_eq!(setup_after_clone(false, false, false), CloneSetup::CreateInitialCommit);
    assert_eq!(setup_after_clone(true, false, false), CloneSetup::CreateMainFromHead);
    assert_eq!(setup_after_clone(true, true, false), CloneSetup::Ready);
    assert_eq!(setup_after_clone(true, false, true), CloneSetup::Ready);
    assert!(branch_already_exists(-4));
    assert!(!branch_already_exists(-1));
}

#[test]
fn log_entries() {
    let e = log_entry("abc".to_string(), "msg".to_string(), "Ann".to_string(), 0);
    assert_eq!(e.hash, "abc");
    assert_eq!(e.message, "msg");
    assert_eq!(e.author, "Ann");
    assert_eq!(e.date.len(), 19);
    assert!(e.date.starts_with("1970-01-01 ") || e.date.starts_with("1969-12-31 "));
    let later = log_entry(String::new(), String::new(), String::new(), 1_000_000_000);
    assert!(later.date.starts_with("2001-09-0"));
}

#[test]
fn timestamps() {
    assert_eq!(commit_millis(1_700_000_000), Some(1_700_000_000_000));
    assert_eq!(commit_millis(-2), Some(-2000));
    assert_eq!(commit_millis(i64::MAX), None);
    assert!(changes_path(false, false));
    assert!(changes_path(true, true));
    assert!(!changes_path(true, false));
}
