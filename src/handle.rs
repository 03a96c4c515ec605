use vstd::prelude::*;

use crate::error::Error;
use crate::refs::HeadState;
use crate::sanitize::{sanitize_initial, SanitizeAction, Sanitizer};

verus! {

/// The slot that holds the one open repository. Opening, cloning or creating
/// a repository replaces what it holds; closing empties it.
pub struct RepoSlot<R> {
    repo: Option<R>,
}

impl<R> RepoSlot<R> {
    /// What the slot holds.
    pub closed spec fn held(&self) -> Option<R> {
        self.repo
    }

    /// An empty slot.
    pub fn new() -> (r: RepoSlot<R>)
        ensures
            r.held() is None,
    {
        RepoSlot { repo: None }
    }

    /// Puts `repo` in the slot; the repository held before, if any, is handed
    /// back.
    pub fn replace(&mut self, repo: R) -> (previous: Option<R>)
        ensures
            final(self).held() == Some(repo),
            previous == old(self).held(),
    {
        let previous = self.repo.take();
        self.repo = Some(repo);
        previous
    }

    /// Takes the repository out of the slot, leaving it empty.
    pub fn take(&mut self) -> (r: Option<R>)
        ensures
            r == old(self).held(),
            final(self).held() is None,
    {
        self.repo.take()
    }

    /// Whether a repository is open.
    pub fn is_open(&self) -> (r: bool)
        ensures
            r == (self.held() is Some),
    {
        self.repo.is_some()
    }

    /// The open repository.
    pub fn get(&self) -> (r: Option<&R>)
        ensures
            r == match self.held() {
                Some(x) => Some(&x),
                None => None::<&R>,
            },
    {
        self.repo.as_ref()
    }
}

/// Closes the open repository, if any.
pub fn close<R>(slot: &mut RepoSlot<R>)
    ensures
        final(slot).held() is None,
{
    slot.repo = None;
}

/// Starts a sanitizing pass over the open repository; fails when none is open.
pub fn cleanup_repo<R>(slot: &RepoSlot<R>) -> (r: Result<(Sanitizer, SanitizeAction), Error>)
    ensures
        slot.held() is None ==> r == Err::<(Sanitizer, SanitizeAction), Error>(
            Error::NotInitialized,
        ),
        slot.held() is Some ==> r == Ok::<(Sanitizer, SanitizeAction), Error>(sanitize_initial()),
{
    if slot.is_open() {
        Ok(Sanitizer::start())
    } else {
        Err(Error::NotInitialized)
    }
}

/// The id of the commit HEAD resolves to.
pub open spec fn head_commit(head: HeadState) -> Option<String> {
    match head {
        HeadState::Unreadable => None,
        HeadState::Detached { id } => id,
        HeadState::OnBranch { id, .. } => id,
    }
}

/// The id of the last commit: none while HEAD is unreadable (a new
/// repository has no commit yet).
pub fn last_commit(head: &HeadState) -> (r: Option<String>)
    ensures
        r == head_commit(*head),
{
    match head {
        HeadState::Unreadable => None,
        HeadState::Detached { id } => id.clone(),
        HeadState::OnBranch { id, .. } => id.clone(),
    }
}

/// The identity commits are made with: none while HEAD is unreadable; the
/// configured name and email unless both are empty; else the author of the
/// commit at HEAD, if there is one.
pub open spec fn identity_of(
    head: HeadState,
    configured: Option<(String, String)>,
    tip_author: Option<(String, String)>,
) -> Option<(String, String)> {
    if head is Unreadable {
        None
    } else {
        match configured {
            Some((name, email)) => if name@.len() > 0 || email@.len() > 0 {
                Some((name, email))
            } else {
                tip_author
            },
            None => tip_author,
        }
    }
}

/// Picks the identity commits are made with, from the configured one and the
/// author of the commit at HEAD.
pub fn signature(
    head: &HeadState,
    configured: Option<(String, String)>,
    tip_author: Option<(String, String)>,
) -> (r: Option<(String, String)>)
    ensures
        r == identity_of(*head, configured, tip_author),
{
    if matches!(head, HeadState::Unreadable) {
        return None;
    }
    match configured {
        Some((name, email)) => if !name.as_str().is_empty() || !email.as_str().is_empty() {
            Some((name, email))
        } else {
            tip_author
        },
        None => tip_author,
    }
}

} // verus!
