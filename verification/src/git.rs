//! Version-control workflows: reading probe results, planning worktree
//! removal, and the four-step merge-to-main machine.
//!
//! Running the tool is a collaborator's job; everything here turns plain
//! probe results (exit flag, captured output) into decisions and the next
//! command to run.

use vstd::prelude::*;

use crate::error::PmanError;
use crate::text::{basename_spec, starts_with_spec, strip_prefix, trim, trim_spec};

verus! {

/// One command a workflow asks the collaborator to run.
pub enum GitCmd {
    /// Check out the named branch in the repository root.
    Checkout(String),
    /// Merge the named branch into the current one.
    Merge(String),
    /// Probe the worktree at this path for uncommitted changes.
    StatusPorcelain(String),
    /// Remove the worktree at this path.
    RemoveWorktree(String),
    /// Delete the named branch.
    DeleteBranch(String),
}

/// The spec-level shape of a [`GitCmd`].
pub enum GitCmdV {
    /// See [`GitCmd::Checkout`].
    Checkout(Seq<char>),
    /// See [`GitCmd::Merge`].
    Merge(Seq<char>),
    /// See [`GitCmd::StatusPorcelain`].
    StatusPorcelain(Seq<char>),
    /// See [`GitCmd::RemoveWorktree`].
    RemoveWorktree(Seq<char>),
    /// See [`GitCmd::DeleteBranch`].
    DeleteBranch(Seq<char>),
}

impl View for GitCmd {
    type V = GitCmdV;

    open spec fn view(&self) -> GitCmdV {
        match self {
            GitCmd::Checkout(b) => GitCmdV::Checkout(b@),
            GitCmd::Merge(b) => GitCmdV::Merge(b@),
            GitCmd::StatusPorcelain(p) => GitCmdV::StatusPorcelain(p@),
            GitCmd::RemoveWorktree(p) => GitCmdV::RemoveWorktree(p@),
            GitCmd::DeleteBranch(b) => GitCmdV::DeleteBranch(b@),
        }
    }
}

/// A handle on one repository, pinned to its root.
pub struct GitClient {
    repo_root: String,
}

impl GitClient {
    /// The repository root's characters.
    pub closed spec fn repo_root_spec(&self) -> Seq<char> {
        self.repo_root@
    }

    /// Reads the root-discovery probe (the version-control tool asked for the
    /// top level at the starting path): a failed probe means no repository.
    pub fn new(probe_ok: bool, probe_stdout: &str) -> (r: Result<GitClient, PmanError>)
        ensures
            probe_ok ==> (r matches Ok(c) && c.repo_root_spec() == trim_spec(probe_stdout@)),
            !probe_ok ==> (r matches Err(e) && e == PmanError::NotARepository),
    {
        if !probe_ok {
            return Err(PmanError::NotARepository);
        }
        Ok(GitClient { repo_root: trim(probe_stdout).to_owned() })
    }

    /// The repository root.
    pub fn repo_root(&self) -> (r: &str)
        ensures
            r@ == self.repo_root_spec(),
    {
        self.repo_root.as_str()
    }

    /// Reads a worktree's status probe: any porcelain output means
    /// uncommitted changes.
    pub fn has_uncommitted_changes(&self, status_stdout: &str) -> (r: bool)
        ensures
            r == (status_stdout@.len() > 0),
    {
        status_stdout.unicode_len() > 0
    }

    /// Where the new worktree for a branch goes: beside the repository root,
    /// named after the branch.
    pub fn create_worktree_path(&self, branch_name: &str) -> (r: String)
        ensures
            r@ == worktree_path_spec(self.repo_root_spec(), branch_name@),
    {
        let root = self.repo_root.as_str();
        let root_len = root.unicode_len();
        let base = crate::text::basename(root);
        let base_len = base.unicode_len();
        proof {
            crate::text::lemma_basename_len(root@);
        }
        if base_len == root_len {
            return branch_name.to_owned();
        }
        let mut r = root.substring_char(0, root_len - base_len).to_owned();
        r.append(branch_name);
        proof {
            assert(r@ =~= worktree_path_spec(self.repo_root_spec(), branch_name@));
        }
        r
    }

    /// The removal plan for a worktree: a dirty one is refused before any
    /// mutation, a clean one yields the removal command.
    pub fn delete_worktree(&self, dirty: bool, path: &str) -> (r: Result<GitCmd, PmanError>)
        ensures
            dirty ==> (r matches Err(e) && e == PmanError::UncommittedChanges),
            !dirty ==> (r matches Ok(c) && c@ == GitCmdV::RemoveWorktree(path@)),
    {
        if dirty {
            return Err(PmanError::UncommittedChanges);
        }
        Ok(GitCmd::RemoveWorktree(path.to_owned()))
    }

    /// Starts the merge-to-main workflow for a worktree's branch.
    pub fn merge_to_main(&self, main_branch: String, worktree_path: String, branch: String) -> (r:
        MergeToMain)
        ensures
            r.main_spec() == main_branch@,
            r.path_spec() == worktree_path@,
            r.branch_spec() == branch@,
            r.step_spec() == MergeStep::CheckoutMain,
            r.failed_spec() is None,
    {
        MergeToMain { main_branch, worktree_path, branch, step: MergeStep::CheckoutMain, failed: None }
    }
}

/// Reads a mutation command's outcome: a failure carries the tool's message.
pub fn interpret_git_result(ok: bool, stderr: String) -> (r: Result<(), PmanError>)
    ensures
        ok ==> r is Ok,
        !ok ==> (r matches Err(e) && e == PmanError::VersionControlError(stderr)),
{
    if ok {
        Ok(())
    } else {
        Err(PmanError::VersionControlError(stderr))
    }
}

/// The branch a trimmed symbolic-ref answer names: the remote head with its
/// prefix removed, or `main` where the answer has another shape.
pub open spec fn symref_branch_spec(t: Seq<char>) -> Seq<char> {
    if starts_with_spec(t, "refs/remotes/origin/"@) {
        t.skip("refs/remotes/origin/"@.len() as int)
    } else {
        "main"@
    }
}

/// Reads the symbolic-ref probe for the remote head: a failed probe names no
/// branch.
pub fn main_branch_from_symref(ok: bool, stdout: &str) -> (r: Option<String>)
    ensures
        ok ==> (r matches Some(b) && b@ == symref_branch_spec(trim_spec(stdout@))),
        !ok ==> r is None,
{
    if !ok {
        return None;
    }
    let t = trim(stdout);
    match strip_prefix(t, "refs/remotes/origin/") {
        Some(rest) => Some(rest.to_owned()),
        None => Some(String::from_str("main")),
    }
}

/// Picks the main branch: the symbolic-ref answer where there is one, else
/// whichever of `main` and `master` exists, else `main`.
pub fn choose_main_branch(symref: Option<String>, main_exists: bool, master_exists: bool) -> (r:
    String)
    ensures
        symref matches Some(b) ==> r@ == b@,
        symref is None && main_exists ==> r@ == "main"@,
        symref is None && !main_exists && master_exists ==> r@ == "master"@,
        symref is None && !main_exists && !master_exists ==> r@ == "main"@,
{
    match symref {
        Some(b) => b,
        None => {
            if main_exists {
                String::from_str("main")
            } else if master_exists {
                String::from_str("master")
            } else {
                String::from_str("main")
            }
        },
    }
}

/// Where the new worktree for a branch goes: the repository root's directory
/// plus the branch name, or the branch name alone where the root has no
/// directory part.
pub open spec fn worktree_path_spec(root: Seq<char>, branch: Seq<char>) -> Seq<char> {
    let base = basename_spec(root);
    if base.len() == root.len() {
        branch
    } else {
        root.take(root.len() - base.len()) + branch
    }
}

/// The steps of the merge-to-main workflow, in the order they run.
#[derive(Clone, Copy, Debug, PartialEq, Eq, Structural)]
pub enum MergeStep {
    /// Check out the main branch in the repository root.
    CheckoutMain,
    /// Merge the worktree's branch into main.
    MergeBranch,
    /// Probe the worktree for uncommitted changes before removing it.
    CheckDirty,
    /// Remove the worktree.
    RemoveWorktree,
    /// Delete the merged branch.
    DeleteBranch,
    /// Nothing left to do.
    Done,
}

/// The step after a successful one.
pub open spec fn merge_next_step(s: MergeStep) -> MergeStep {
    match s {
        MergeStep::CheckoutMain => MergeStep::MergeBranch,
        MergeStep::MergeBranch => MergeStep::CheckDirty,
        MergeStep::CheckDirty => MergeStep::RemoveWorktree,
        MergeStep::RemoveWorktree => MergeStep::DeleteBranch,
        MergeStep::DeleteBranch => MergeStep::Done,
        MergeStep::Done => MergeStep::Done,
    }
}

/// The merge-to-main workflow: check out main, merge the branch, probe the
/// worktree, remove it, delete the branch — one logical operation that aborts
/// at the first failing step with no rollback. The failing step stays
/// recorded for the caller to surface.
pub struct MergeToMain {
    main_branch: String,
    worktree_path: String,
    branch: String,
    step: MergeStep,
    failed: Option<MergeStep>,
}

impl MergeToMain {
    /// The main branch's characters.
    pub closed spec fn main_spec(&self) -> Seq<char> {
        self.main_branch@
    }

    /// The worktree path's characters.
    pub closed spec fn path_spec(&self) -> Seq<char> {
        self.worktree_path@
    }

    /// The merged branch's characters.
    pub closed spec fn branch_spec(&self) -> Seq<char> {
        self.branch@
    }

    /// The step about to run.
    pub closed spec fn step_spec(&self) -> MergeStep {
        self.step
    }

    /// The step that failed, where one did.
    pub closed spec fn failed_spec(&self) -> Option<MergeStep> {
        self.failed
    }

    /// The command the workflow asks to run next, spelled over views.
    pub open spec fn command_spec(&self) -> Option<GitCmdV> {
        if self.failed_spec() is Some {
            None
        } else {
            match self.step_spec() {
                MergeStep::CheckoutMain => Some(GitCmdV::Checkout(self.main_spec())),
                MergeStep::MergeBranch => Some(GitCmdV::Merge(self.branch_spec())),
                MergeStep::CheckDirty => Some(GitCmdV::StatusPorcelain(self.path_spec())),
                MergeStep::RemoveWorktree => Some(GitCmdV::RemoveWorktree(self.path_spec())),
                MergeStep::DeleteBranch => Some(GitCmdV::DeleteBranch(self.branch_spec())),
                MergeStep::Done => None,
            }
        }
    }

    /// The command to run next: nothing once the workflow is done or a step
    /// has failed.
    pub fn next_command(&self) -> (r: Option<GitCmd>)
        ensures
            match (r, self.command_spec()) {
                (Some(c), Some(v)) => c@ == v,
                (None, None) => true,
                _ => false,
            },
    {
        if self.failed.is_some() {
            return None;
        }
        match self.step {
            MergeStep::CheckoutMain => Some(GitCmd::Checkout(self.main_branch.clone())),
            MergeStep::MergeBranch => Some(GitCmd::Merge(self.branch.clone())),
            MergeStep::CheckDirty => Some(GitCmd::StatusPorcelain(self.worktree_path.clone())),
            MergeStep::RemoveWorktree => Some(GitCmd::RemoveWorktree(self.worktree_path.clone())),
            MergeStep::DeleteBranch => Some(GitCmd::DeleteBranch(self.branch.clone())),
            MergeStep::Done => None,
        }
    }

    /// Feeds back one command's outcome. A success moves to the next step; a
    /// failure records the failing step and stops the workflow, rolling
    /// nothing back. At the probing step, uncommitted changes are a failure
    /// of their own kind.
    pub fn advance(&mut self, ok: bool, stdout: &str, stderr: String) -> (r: Result<(), PmanError>)
        requires
            old(self).failed_spec() is None,
            old(self).step_spec() != MergeStep::Done,
        ensures
            final(self).main_spec() == old(self).main_spec(),
            final(self).path_spec() == old(self).path_spec(),
            final(self).branch_spec() == old(self).branch_spec(),
            !ok ==> (r matches Err(e) && e == PmanError::VersionControlError(stderr)
                && final(self).failed_spec() == Some(old(self).step_spec()) && final(self).step_spec()
                == old(self).step_spec()),
            ok && old(self).step_spec() == MergeStep::CheckDirty && stdout@.len() > 0 ==> (
            r matches Err(e) && e == PmanError::UncommittedChanges && final(self).failed_spec()
                == Some(MergeStep::CheckDirty) && final(self).step_spec() == old(self).step_spec()),
            ok && !(old(self).step_spec() == MergeStep::CheckDirty && stdout@.len() > 0) ==> (
            r is Ok && final(self).failed_spec() is None && final(self).step_spec()
                == merge_next_step(old(self).step_spec())),
    {
        if !ok {
            self.failed = Some(self.step);
            return Err(PmanError::VersionControlError(stderr));
        }
        match self.step {
            MergeStep::CheckDirty => {
                if stdout.unicode_len() > 0 {
                    self.failed = Some(MergeStep::CheckDirty);
                    return Err(PmanError::UncommittedChanges);
                }
                self.step = MergeStep::RemoveWorktree;
            },
            MergeStep::CheckoutMain => {
                self.step = MergeStep::MergeBranch;
            },
            MergeStep::MergeBranch => {
                self.step = MergeStep::CheckDirty;
            },
            MergeStep::RemoveWorktree => {
                self.step = MergeStep::DeleteBranch;
            },
            MergeStep::DeleteBranch => {
                self.step = MergeStep::Done;
            },
            MergeStep::Done => {},
        }
        Ok(())
    }

    /// Whether every step ran.
    pub fn is_done(&self) -> (r: bool)
        ensures
            r == (self.step_spec() == MergeStep::Done && self.failed_spec() is None),
    {
        self.failed.is_none() && matches!(self.step, MergeStep::Done)
    }

    /// The step that failed, where one did: the caller surfaces it.
    pub fn failed_step(&self) -> (r: Option<MergeStep>)
        ensures
            r == self.failed_spec(),
    {
        self.failed
    }
}

/// Once a step has failed, the workflow issues no further command: a failure
/// at the merge step leaves the checked-out main branch in place and skips
/// the worktree and branch deletions.
pub proof fn lemma_failed_merge_stops(m: MergeToMain)
    requires
        m.failed_spec() is Some,
    ensures
        m.command_spec() is None,
{
}

} // verus!
