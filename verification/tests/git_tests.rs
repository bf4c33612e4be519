use pman::error::PmanError;
use pman::git::{
    choose_main_branch, interpret_git_result, main_branch_from_symref, GitClient, GitCmd,
    MergeStep,
};

fn client() -> GitClient {
    GitClient::new(true, "/repo\n").unwrap()
}

#[test]
fn root_probe_failure_means_no_repository() {
    let r = GitClient::new(false, "");
    assert!(matches!(r, Err(PmanError::NotARepository)));
}

#[test]
fn root_probe_output_is_trimmed() {
    let c = GitClient::new(true, "  /home/u/repo\n").unwrap();
    assert_eq!(c.repo_root(), "/home/u/repo");
}

#[test]
fn delete_worktree_on_a_dirty_path_refuses_before_any_mutation() {
    let c = client();
    assert!(c.has_uncommitted_changes(" M src/lib.rs\n"));
    let r = c.delete_worktree(true, "/repo-feat");
    assert!(matches!(r, Err(PmanError::UncommittedChanges)));
    let r = c.delete_worktree(false, "/repo-feat");
    assert!(matches!(r, Ok(GitCmd::RemoveWorktree(ref p)) if p == "/repo-feat"));
}

#[test]
fn merge_failing_at_the_merge_step_stops_the_workflow() {
    let c = client();
    let mut m = c.merge_to_main(
        "main".to_string(),
        "/repo-feat".to_string(),
        "feature".to_string(),
    );
    assert!(matches!(m.next_command(), Some(GitCmd::Checkout(ref b)) if b == "main"));
    m.advance(true, "", String::new()).unwrap();
    assert!(matches!(m.next_command(), Some(GitCmd::Merge(ref b)) if b == "feature"));
    let r = m.advance(false, "", "merge conflict".to_string());
    assert!(matches!(r, Err(PmanError::VersionControlError(ref s)) if s == "merge conflict"));
    assert_eq!(m.failed_step(), Some(MergeStep::MergeBranch));
    // The checked-out main branch stays; no removal or deletion is issued.
    assert!(m.next_command().is_none());
    assert!(!m.is_done());
}

#[test]
fn merge_runs_all_four_steps_in_order() {
    let c = client();
    let mut m = c.merge_to_main("main".to_string(), "/wt".to_string(), "feat".to_string());
    assert!(matches!(m.next_command(), Some(GitCmd::Checkout(_))));
    m.advance(true, "", String::new()).unwrap();
    assert!(matches!(m.next_command(), Some(GitCmd::Merge(_))));
    m.advance(true, "", String::new()).unwrap();
    assert!(matches!(m.next_command(), Some(GitCmd::StatusPorcelain(ref p)) if p == "/wt"));
    m.advance(true, "", String::new()).unwrap();
    assert!(matches!(m.next_command(), Some(GitCmd::RemoveWorktree(ref p)) if p == "/wt"));
    m.advance(true, "", String::new()).unwrap();
    assert!(matches!(m.next_command(), Some(GitCmd::DeleteBranch(ref b)) if b == "feat"));
    m.advance(true, "", String::new()).unwrap();
    assert!(m.next_command().is_none());
    assert!(m.is_done());
}

#[test]
fn merge_refuses_a_dirty_worktree_at_the_probe_step() {
    let c = client();
    let mut m = c.merge_to_main("main".to_string(), "/wt".to_string(), "feat".to_string());
    m.advance(true, "", String::new()).unwrap();
    m.advance(true, "", String::new()).unwrap();
    assert!(matches!(m.next_command(), Some(GitCmd::StatusPorcelain(_))));
    let r = m.advance(true, " M file\n", String::new());
    assert!(matches!(r, Err(PmanError::UncommittedChanges)));
    assert_eq!(m.failed_step(), Some(MergeStep::CheckDirty));
    assert!(m.next_command().is_none());
}

#[test]
fn symref_probe_names_the_remote_head() {
    let r = main_branch_from_symref(true, "refs/remotes/origin/trunk\n");
    assert_eq!(r.as_deref(), Some("trunk"));
    let r = main_branch_from_symref(true, "something else\n");
    assert_eq!(r.as_deref(), Some("main"));
    assert_eq!(main_branch_from_symref(false, ""), None);
}

#[test]
fn main_branch_fallback_order_is_main_then_master() {
    assert_eq!(choose_main_branch(Some("trunk".to_string()), false, false), "trunk");
    assert_eq!(choose_main_branch(None, true, true), "main");
    assert_eq!(choose_main_branch(None, false, true), "master");
    assert_eq!(choose_main_branch(None, false, false), "main");
}

#[test]
fn worktree_path_lands_beside_the_repository() {
    let c = GitClient::new(true, "/home/u/repo").unwrap();
    assert_eq!(c.create_worktree_path("feat"), "/home/u/feat");
}

#[test]
fn command_outcomes_map_to_version_control_errors() {
    assert!(interpret_git_result(true, String::new()).is_ok());
    let r = interpret_git_result(false, "fatal: oops".to_string());
    assert!(matches!(r, Err(PmanError::VersionControlError(ref s)) if s == "fatal: oops"));
}

#[test]
fn error_messages_name_their_kind() {
    assert_eq!(
        PmanError::UncommittedChanges.message(),
        "Worktree has uncommitted changes"
    );
    assert_eq!(PmanError::NotARepository.message(), "Not in a repository");
    assert_eq!(
        PmanError::VersionControlError("boom".to_string()).message(),
        "Version control error: boom"
    );
    assert_eq!(
        PmanError::MissingPrerequisite("tmux".to_string()).message(),
        "Missing prerequisite: tmux"
    );
    assert_eq!(
        PmanError::SessionManagerError("x".to_string()).message(),
        "Session manager error: x"
    );
    assert_eq!(PmanError::BridgeError("y".to_string()).message(), "Editor bridge error: y");
    assert_eq!(PmanError::IOError("z".to_string()).message(), "IO error: z");
    assert_eq!(PmanError::TerminalError("t".to_string()).message(), "Terminal error: t");
    assert_eq!(PmanError::Cancelled.message(), "Operation cancelled");
}
