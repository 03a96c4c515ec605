use vstd::prelude::*;

verus! {

/// The branch a repository without `main` or `master` is given.
pub const DEFAULT_BRANCH: &'static str = "main";

/// The empty file committed to give an empty clone a first commit.
pub const PLACEHOLDER_FILE: &'static str = ".gitkeep";

/// The message of that first commit.
pub const INITIAL_COMMIT_MESSAGE: &'static str = "Initial commit";

/// The identity that first commit is made with.
pub const INITIAL_AUTHOR_NAME: &'static str = "GitNoteCJE";

/// The email of that identity.
pub const INITIAL_AUTHOR_EMAIL: &'static str = "gitnote@localhost";

/// The global configuration written on first start: every directory is safe.
pub const SAFE_DIRECTORY_CONFIG: &'static str = "[safe]\n\tdirectory = *";

/// The engine's code for "already exists".
pub const ALREADY_EXISTS_CODE: i32 = -4;

/// What a fresh clone still needs.
#[derive(PartialEq, Eq, Structural, Clone, Copy, Debug)]
pub enum CloneSetup {
    /// The remote was empty: commit the placeholder file and make `main`
    /// point at that commit.
    CreateInitialCommit,
    /// Neither `main` nor `master` exists: create `main` at HEAD and make it
    /// HEAD.
    CreateMainFromHead,
    /// Nothing.
    Ready,
}

/// Decides what a fresh clone needs from whether HEAD resolves and which of
/// `main` and `master` exist locally.
pub fn setup_after_clone(has_head: bool, has_main: bool, has_master: bool) -> (r: CloneSetup)
    ensures
        !has_head ==> r == CloneSetup::CreateInitialCommit,
        has_head && !has_main && !has_master ==> r == CloneSetup::CreateMainFromHead,
        has_head && (has_main || has_master) ==> r == CloneSetup::Ready,
{
    if !has_head {
        CloneSetup::CreateInitialCommit
    } else if !has_main && !has_master {
        CloneSetup::CreateMainFromHead
    } else {
        CloneSetup::Ready
    }
}

/// Whether a failed branch creation only means that the branch is already
/// there (it is then moved to the new commit instead).
pub fn branch_already_exists(code: i32) -> (r: bool)
    ensures
        r == (code == ALREADY_EXISTS_CODE),
{
    code == ALREADY_EXISTS_CODE
}

} // verus!
