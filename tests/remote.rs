use notesync::credential::{cred_request, credential_helper, CredRequest, Credential};
use notesync::error::Error;
use notesync::remote::{
    check_push_credentials, clone_failure, hosting_service, http_url, progress_percent,
    push_failure, HostingService, NON_FAST_FORWARD_CODE,
};
use notesync::text::{contains, same_text, starts_with};

#[test]
fn push_behind_remote_is_non_fast_forward() {
    let e = push_failure(NON_FAST_FORWARD_CODE, Some("https://github.com/a/b.git"), "rejected");
    assert!(matches!(e, Error::NonFastForward));
    assert!(matches!(push_failure(-11, None, "x"), Error::NonFastForward));
}

#[test]
fn push_failure_hints() {
    match push_failure(-1, Some("https://github.com/a/b.git"), "auth") {
        Error::TransportFailure { message } => assert_eq!(
            message,
            "GitHub push failed - check credentials (use Personal Access Token): auth"
        ),
        other => panic!("unexpected {:?}", other),
    }
    match push_failure(-1, Some("git@example.org:a/b.git"), "down") {
        Error::TransportFailure { message } => assert_eq!(message, "push: down"),
        other => panic!("unexpected {:?}", other),
    }
    match push_failure(-1, None, "down") {
        Error::TransportFailure { message } => assert_eq!(message, "push: down"),
        other => panic!("unexpected {:?}", other),
    }
}

#[test]
fn clone_failure_hints() {
    match clone_failure("https://bitbucket.org/a/b.git", "401") {
        Error::TransportFailure { message } => assert_eq!(
            message,
            "Bitbucket clone failed - check credentials (use App Password): 401"
        ),
        other => panic!("unexpected {:?}", other),
    }
    match clone_failure("https://example.org/a.git", "401") {
        Error::TransportFailure { message } => {
            assert_eq!(message, "HTTP clone failed - check credentials: 401")
        }
        other => panic!("unexpected {:?}", other),
    }
    match clone_failure("git@github.com:a/b.git", "denied") {
        Error::TransportFailure { message } => assert_eq!(message, "clone: denied"),
        other => panic!("unexpected {:?}", other),
    }
}

#[test]
fn hosting_services() {
    assert_eq!(hosting_service("https://github.com/x"), Some(HostingService::GitHub));
    assert_eq!(hosting_service("https://bitbucket.org/x"), Some(HostingService::Bitbucket));
    assert_eq!(hosting_service("https://gitlab.com/x"), Some(HostingService::GitLab));
    assert_eq!(hosting_service("https://gitlab.corp.net/x"), Some(HostingService::GitLab));
    assert_eq!(hosting_service("https://dev.azure.com/x"), Some(HostingService::AzureDevOps));
    assert_eq!(hosting_service("https://x.visualstudio.com/y"), Some(HostingService::AzureDevOps));
    assert_eq!(
        hosting_service("https://git-codecommit.us-east-1.amazonaws.com/v1/repos/x"),
        Some(HostingService::CodeCommit)
    );
    assert_eq!(hosting_service("file:///tmp/remote"), None);
}

#[test]
fn push_credentials() {
    assert!(matches!(
        check_push_credentials(Some("https://example.org/a.git"), false),
        Err(Error::MissingCredentials)
    ));
    assert!(check_push_credentials(Some("http://example.org/a.git"), true).is_ok());
    assert!(check_push_credentials(Some("file:///tmp/remote"), false).is_ok());
    assert!(check_push_credentials(None, false).is_ok());
    assert!(http_url("https://a"));
    assert!(!http_url("ssh://a"));
}

#[test]
fn text_matching() {
    assert!(starts_with("https://x", "https://"));
    assert!(!starts_with("http", "https://"));
    assert!(starts_with("abc", ""));
    assert!(contains("abc", "bc"));
    assert!(contains("abc", ""));
    assert!(contains("", ""));
    assert!(!contains("abc", "cd"));
    assert!(!contains("", "a"));
    assert!(same_text("md", "md"));
    assert!(!same_text("md", "mdx"));
}

#[test]
fn progress_percentages() {
    assert_eq!(progress_percent(0, 10), 0);
    assert_eq!(progress_percent(5, 10), 50);
    assert_eq!(progress_percent(1, 3), 33);
    assert_eq!(progress_percent(10, 10), 100);
    assert_eq!(progress_percent(0, 0), 0);
    assert_eq!(progress_percent(3, 0), 100);
}

#[test]
fn credentials_translate() {
    let plain = Credential::UserPassPlainText {
        username: "ann".to_string(),
        password: "pw".to_string(),
    };
    assert!(credential_helper(&plain).is_some());
    let broken = Credential::UserPassPlainText {
        username: "ann\0".to_string(),
        password: "pw".to_string(),
    };
    assert!(credential_helper(&broken).is_none());
    let ssh = Credential::Ssh {
        username: "git".to_string(),
        private_key: "key\0".to_string(),
        public_key: "pub".to_string(),
        passphrase: None,
    };
    assert!(credential_helper(&ssh).is_none());
}

#[test]
fn credential_requests() {
    let ssh = Credential::Ssh {
        username: "git".to_string(),
        private_key: "PRIVATE".to_string(),
        public_key: "PUBLIC".to_string(),
        passphrase: Some("phrase".to_string()),
    };
    match cred_request(&ssh) {
        CredRequest::SshKeyFromMemory { username, public_key, private_key, passphrase } => {
            assert_eq!(username, "git");
            assert_eq!(public_key, "PUBLIC");
            assert_eq!(private_key, "PRIVATE");
            assert_eq!(passphrase, Some("phrase".to_string()));
        }
        other => panic!("unexpected {:?}", other),
    }
    let plain = Credential::UserPassPlainText {
        username: "ann".to_string(),
        password: "pw".to_string(),
    };
    match cred_request(&plain) {
        CredRequest::UserPassPlaintext { username, password } => {
            assert_eq!(username, "ann");
            assert_eq!(password, "pw");
        }
        other => panic!("unexpected {:?}", other),
    }
}
