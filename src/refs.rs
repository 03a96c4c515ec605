use vstd::prelude::*;

use crate::error::Error;

verus! {

/// The one remote a working copy is kept in step with.
pub const REMOTE: &'static str = "origin";

/// `a` followed by `b`.
pub fn concat(a: &str, b: &str) -> (r: String)
    ensures
        r@ == a@ + b@,
{
    let mut r = String::from_str(a);
    r.append(b);
    r
}

/// The full name of a local branch.
pub fn local_branch_ref(branch: &str) -> (r: String)
    ensures
        r@ == "refs/heads/"@ + branch@,
{
    concat("refs/heads/", branch)
}

/// The full name of the remote-tracking reference of a branch.
pub fn remote_branch_ref(branch: &str) -> (r: String)
    ensures
        r@ == "refs/remotes/origin/"@ + branch@,
{
    concat("refs/remotes/origin/", branch)
}

/// The refspec that pushes a branch to the branch of the same name.
pub fn push_refspec(branch: &str) -> (r: String)
    ensures
        r@ == "refs/heads/"@ + branch@ + ":refs/heads/"@ + branch@,
{
    let mut r = local_branch_ref(branch);
    r.append(":refs/heads/");
    r.append(branch);
    r
}

/// The reflog message of a fast-forward of reference `refname` to `target`.
pub fn fast_forward_message(refname: &str, target: &str) -> (r: String)
    ensures
        r@ == "Fast-Forward: Setting "@ + refname@ + " to id: "@ + target@,
{
    let mut r = concat("Fast-Forward: Setting ", refname);
    r.append(" to id: ");
    r.append(target);
    r
}

/// The reflog message when a branch is created at `target`.
pub fn create_branch_message(branch: &str, target: &str) -> (r: String)
    ensures
        r@ == "Setting "@ + branch@ + " to "@ + target@,
{
    let mut r = concat("Setting ", branch);
    r.append(" to ");
    r.append(target);
    r
}

/// The message of the merge commit of `incoming` into `local`.
pub fn merge_message(incoming: &str, local: &str) -> (r: String)
    ensures
        r@ == "Merge: "@ + incoming@ + " into "@ + local@,
{
    let mut r = concat("Merge: ", incoming);
    r.append(" into ");
    r.append(local);
    r
}

/// What HEAD looks like.
#[derive(Debug)]
pub enum HeadState {
    /// HEAD cannot be read: an unborn branch, or a damaged repository.
    Unreadable,
    /// HEAD points at a commit, not at a named branch.
    Detached { id: Option<String> },
    /// HEAD is the named branch, with its tip commit if it resolves.
    OnBranch { name: String, id: Option<String> },
}

/// The name of the current branch.
pub open spec fn branch_of(head: HeadState) -> Result<String, Error> {
    match head {
        HeadState::OnBranch { name, .. } => Ok(name),
        _ => Err(Error::InvalidState),
    }
}

/// The current branch: an error when HEAD is unreadable or detached.
pub fn current_branch(head: &HeadState) -> (r: Result<String, Error>)
    ensures
        r == branch_of(*head),
{
    match head {
        HeadState::OnBranch { name, .. } => Ok(name.clone()),
        _ => Err(Error::InvalidState),
    }
}

} // verus!
