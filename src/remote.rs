use vstd::prelude::*;

use crate::error::Error;
use crate::text::{contains, has_infix, has_prefix, starts_with};

verus! {

/// The engine's code for a push refused because it is not a fast-forward.
pub const NON_FAST_FORWARD_CODE: i32 = -11;

/// Hosting services whose failed authentication deserves a specific hint.
#[derive(PartialEq, Eq, Structural, Clone, Copy, Debug)]
pub enum HostingService {
    GitHub,
    Bitbucket,
    GitLab,
    AzureDevOps,
    CodeCommit,
}

/// The hosting service a remote URL belongs to, judged by the host names it
/// mentions.
pub open spec fn service_of(url: Seq<char>) -> Option<HostingService> {
    if has_infix(url, "github.com"@) {
        Some(HostingService::GitHub)
    } else if has_infix(url, "bitbucket.org"@) {
        Some(HostingService::Bitbucket)
    } else if has_infix(url, "gitlab.com"@) || has_infix(url, "gitlab."@) {
        Some(HostingService::GitLab)
    } else if has_infix(url, "azure.com"@) || has_infix(url, "visualstudio.com"@) {
        Some(HostingService::AzureDevOps)
    } else if has_infix(url, "codecommit."@) {
        Some(HostingService::CodeCommit)
    } else {
        None
    }
}

/// A remote reached over HTTP(S), which needs credentials to push.
pub open spec fn is_http_url(url: Seq<char>) -> bool {
    has_prefix(url, "http://"@) || has_prefix(url, "https://"@)
}

/// The hosting service of a remote URL.
pub fn hosting_service(url: &str) -> (r: Option<HostingService>)
    ensures
        r == service_of(url@),
{
    if contains(url, "github.com") {
        Some(HostingService::GitHub)
    } else if contains(url, "bitbucket.org") {
        Some(HostingService::Bitbucket)
    } else if contains(url, "gitlab.com") || contains(url, "gitlab.") {
        Some(HostingService::GitLab)
    } else if contains(url, "azure.com") || contains(url, "visualstudio.com") {
        Some(HostingService::AzureDevOps)
    } else if contains(url, "codecommit.") {
        Some(HostingService::CodeCommit)
    } else {
        None
    }
}

/// Whether a remote URL is reached over HTTP(S).
pub fn http_url(url: &str) -> (r: bool)
    ensures
        r == is_http_url(url@),
{
    starts_with(url, "http://") || starts_with(url, "https://")
}

/// The hint attached to a failed push or clone at a hosting service.
pub open spec fn hint_of(service: HostingService, cloning: bool) -> &'static str {
    match service {
        HostingService::GitHub => if cloning {
            "GitHub clone failed - check credentials (use Personal Access Token)"
        } else {
            "GitHub push failed - check credentials (use Personal Access Token)"
        },
        HostingService::Bitbucket => if cloning {
            "Bitbucket clone failed - check credentials (use App Password)"
        } else {
            "Bitbucket push failed - check credentials (use App Password)"
        },
        HostingService::GitLab => if cloning {
            "GitLab clone failed - check credentials (use Personal Access Token)"
        } else {
            "GitLab push failed - check credentials (use Personal Access Token)"
        },
        HostingService::AzureDevOps => if cloning {
            "Azure DevOps clone failed - check credentials (use Personal Access Token)"
        } else {
            "Azure DevOps push failed - check credentials (use Personal Access Token)"
        },
        HostingService::CodeCommit => if cloning {
            "AWS CodeCommit clone failed - check IAM permissions"
        } else {
            "AWS CodeCommit push failed - check IAM permissions"
        },
    }
}

fn hint(service: HostingService, cloning: bool) -> (r: &'static str)
    ensures
        r == hint_of(service, cloning),
{
    match service {
        HostingService::GitHub => if cloning {
            "GitHub clone failed - check credentials (use Personal Access Token)"
        } else {
            "GitHub push failed - check credentials (use Personal Access Token)"
        },
        HostingService::Bitbucket => if cloning {
            "Bitbucket clone failed - check credentials (use App Password)"
        } else {
            "Bitbucket push failed - check credentials (use App Password)"
        },
        HostingService::GitLab => if cloning {
            "GitLab clone failed - check credentials (use Personal Access Token)"
        } else {
            "GitLab push failed - check credentials (use Personal Access Token)"
        },
        HostingService::AzureDevOps => if cloning {
            "Azure DevOps clone failed - check credentials (use Personal Access Token)"
        } else {
            "Azure DevOps push failed - check credentials (use Personal Access Token)"
        },
        HostingService::CodeCommit => if cloning {
            "AWS CodeCommit clone failed - check IAM permissions"
        } else {
            "AWS CodeCommit push failed - check IAM permissions"
        },
    }
}

/// The context a failed push is reported with.
pub open spec fn push_context(url: Option<Seq<char>>) -> Seq<char> {
    match url {
        Some(u) => match service_of(u) {
            Some(service) => hint_of(service, false)@,
            None => "push"@,
        },
        None => "push"@,
    }
}

/// The context a failed clone is reported with: hints only for HTTP(S).
pub open spec fn clone_context(url: Seq<char>) -> Seq<char> {
    if is_http_url(url) {
        match service_of(url) {
            Some(service) => hint_of(service, true)@,
            None => "HTTP clone failed - check credentials"@,
        }
    } else {
        "clone"@
    }
}

/// The text of an optional URL.
pub open spec fn url_view(url: Option<&str>) -> Option<Seq<char>> {
    match url {
        Some(u) => Some(u@),
        None => None,
    }
}

fn annotated(context: &str, message: &str) -> (r: String)
    ensures
        r@ == context@ + ": "@ + message@,
{
    let mut r = crate::refs::concat(context, ": ");
    r.append(message);
    r
}

/// A push needs credentials when the remote is reached over HTTP(S).
pub fn check_push_credentials(url: Option<&str>, has_credentials: bool) -> (r: Result<(), Error>)
    ensures
        r is Err <==> (url is Some && is_http_url(url.unwrap()@) && !has_credentials),
        r is Err ==> r == Err::<(), Error>(Error::MissingCredentials),
{
    match url {
        Some(u) => if http_url(u) && !has_credentials {
            Err(Error::MissingCredentials)
        } else {
            Ok(())
        },
        None => Ok(()),
    }
}

/// The error a refused push ends with: a non-fast-forward asks the caller to
/// sync or pull first, never a forced push; any other failure is a transport
/// failure carrying the hosting service's hint.
pub fn push_failure(code: i32, url: Option<&str>, message: &str) -> (r: Error)
    ensures
        code == NON_FAST_FORWARD_CODE ==> r == Error::NonFastForward,
        code != NON_FAST_FORWARD_CODE ==> (r matches Error::TransportFailure { message: m } && m@
            == push_context(url_view(url)) + ": "@ + message@),
{
    if code == NON_FAST_FORWARD_CODE {
        return Error::NonFastForward;
    }
    let context: &str = match url {
        Some(u) => match hosting_service(u) {
            Some(service) => hint(service, false),
            None => "push",
        },
        None => "push",
    };
    Error::TransportFailure { message: annotated(context, message) }
}

/// The error a failed clone ends with, carrying the hosting service's hint.
pub fn clone_failure(url: &str, message: &str) -> (r: Error)
    ensures
        r matches Error::TransportFailure { message: m } && m@ == clone_context(url@) + ": "@
            + message@,
{
    let context: &str = if http_url(url) {
        match hosting_service(url) {
            Some(service) => hint(service, true),
            None => "HTTP clone failed - check credentials",
        }
    } else {
        "clone"
    };
    Error::TransportFailure { message: annotated(context, message) }
}


/// Clone progress in percent: indexed objects over all objects, rounded
/// down and capped at `i32::MAX`. With no objects at all it is 0 while
/// nothing is indexed, else 100.
pub fn progress_percent(indexed: usize, total: usize) -> (r: i32)
    ensures
        total > 0 && (indexed * 100) as int / (total as int) <= i32::MAX ==> r == (indexed * 100)
            as int / (total as int),
        total > 0 && (indexed * 100) as int / (total as int) > i32::MAX ==> r == i32::MAX,
        total == 0 && indexed == 0 ==> r == 0,
        total == 0 && indexed > 0 ==> r == 100,
{
    if total == 0 {
        return if indexed == 0 {
            0
        } else {
            100
        };
    }
    let scaled: u128 = indexed as u128 * 100;
    let percent: u128 = scaled / total as u128;
    if percent > i32::MAX as u128 {
        i32::MAX
    } else {
        percent as i32
    }
}

} // verus!
