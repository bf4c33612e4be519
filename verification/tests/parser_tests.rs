use pman::buffer::parse_buffer_json;
use pman::error::PmanError;
use pman::session::{interpret_sessions_output, parse_sessions};
use pman::text::{parse_i64, parse_u64};
use pman::worktree::parse_worktrees;

#[test]
fn parses_a_full_session_listing() {
    let out = "work\t1\t/home/u/proj\t3\t1700000000\nscratch\t0\t\t1\t\n\nshort\tline\n";
    let sessions = parse_sessions(out);
    assert_eq!(sessions.len(), 2);
    assert_eq!(sessions[0].name, "work");
    assert!(sessions[0].attached);
    assert_eq!(sessions[0].path.as_deref(), Some("/home/u/proj"));
    assert_eq!(sessions[0].windows, 3);
    assert_eq!(sessions[0].created, Some(1700000000));
    assert_eq!(sessions[1].name, "scratch");
    assert!(!sessions[1].attached);
    assert_eq!(sessions[1].path, None);
    assert_eq!(sessions[1].windows, 1);
    assert_eq!(sessions[1].created, None);
}

#[test]
fn unparseable_window_count_defaults_to_one() {
    let sessions = parse_sessions("odd\t0\t/p\tmany\t");
    assert_eq!(sessions.len(), 1);
    assert_eq!(sessions[0].windows, 1);
}

#[test]
fn missing_server_reads_as_empty_listing() {
    let r = interpret_sessions_output(false, "", "no server running on /tmp/tmux".to_string());
    assert!(matches!(r, Ok(ref v) if v.is_empty()));
    let r = interpret_sessions_output(false, "", "no sessions".to_string());
    assert!(matches!(r, Ok(ref v) if v.is_empty()));
}

#[test]
fn other_listing_failures_are_session_manager_errors() {
    let r = interpret_sessions_output(false, "", "server exited unexpectedly".to_string());
    assert!(
        matches!(r, Err(PmanError::SessionManagerError(ref m)) if m == "server exited unexpectedly")
    );
}

#[test]
fn successful_listing_is_parsed() {
    let r = interpret_sessions_output(true, "a\t1\t\t2\t", "".to_string());
    let v = r.unwrap();
    assert_eq!(v.len(), 1);
    assert_eq!(v[0].name, "a");
}

#[test]
fn parses_a_porcelain_worktree_listing() {
    let out = "worktree /repo\nHEAD 0123456789abcdef\nbranch refs/heads/main\n\nworktree /repo-feat\nHEAD fedcba9876543210\nbranch refs/heads/feature\n\nworktree /repo-det\nHEAD 1111111111111111\ndetached\n";
    let wts = parse_worktrees(out, "main");
    assert_eq!(wts.len(), 3);
    assert_eq!(wts[0].path, "/repo");
    assert_eq!(wts[0].branch, "main");
    assert!(wts[0].is_main);
    assert_eq!(wts[0].commit_hash, "0123456789abcdef");
    assert!(!wts[0].has_changes);
    assert_eq!(wts[1].path, "/repo-feat");
    assert_eq!(wts[1].branch, "feature");
    assert!(!wts[1].is_main);
    assert_eq!(wts[2].branch, "(detached)");
    assert!(!wts[2].is_main);
}

#[test]
fn bare_branch_lines_are_read_too() {
    let wts = parse_worktrees("worktree /r\nbranch master\n", "master");
    assert_eq!(wts.len(), 1);
    assert_eq!(wts[0].branch, "master");
    assert!(wts[0].is_main);
}

#[test]
fn worktree_listing_ignores_unknown_lines() {
    let wts = parse_worktrees("noise\nworktree /r\nlocked\nHEAD abc\n", "main");
    assert_eq!(wts.len(), 1);
    assert_eq!(wts[0].path, "/r");
    assert_eq!(wts[0].commit_hash, "abc");
}

#[test]
fn parses_a_buffer_listing() {
    let json =
        "[{\"bufnr\": 1, \"name\": \"/home/u/a.rs\", \"changed\": 0},{\"bufnr\": 7, \"name\": \"/home/u/b.txt\", \"changed\": 1}]";
    let bufs = parse_buffer_json(json).unwrap();
    assert_eq!(bufs.len(), 2);
    assert_eq!(bufs[0].bufnr, 1);
    assert_eq!(bufs[0].name, "/home/u/a.rs");
    assert!(!bufs[0].modified);
    assert_eq!(bufs[1].bufnr, 7);
    assert!(bufs[1].modified);
}

#[test]
fn buffers_without_a_name_are_skipped() {
    let json = "[{\"bufnr\": 1, \"name\": \"\", \"changed\": 0},{\"bufnr\": 2, \"name\": \"/x\", \"changed\": true}]";
    let bufs = parse_buffer_json(json).unwrap();
    assert_eq!(bufs.len(), 1);
    assert_eq!(bufs[0].bufnr, 2);
    assert!(bufs[0].modified);
}

#[test]
fn non_array_buffer_output_reads_as_empty() {
    assert!(parse_buffer_json("").unwrap().is_empty());
    assert!(parse_buffer_json("  garbage ").unwrap().is_empty());
    assert!(parse_buffer_json("[]").unwrap().is_empty());
    assert!(parse_buffer_json("[ oops").unwrap().is_empty());
}

#[test]
fn decimal_parsing_is_exact_at_the_edges() {
    assert_eq!(parse_u64("0"), Some(0));
    assert_eq!(parse_u64("42"), Some(42));
    assert_eq!(parse_u64("18446744073709551615"), Some(u64::MAX));
    assert_eq!(parse_u64("18446744073709551616"), None);
    assert_eq!(parse_u64(""), None);
    assert_eq!(parse_u64("12a"), None);
    assert_eq!(parse_u64("-3"), None);
    assert_eq!(parse_i64("-3"), Some(-3));
    assert_eq!(parse_i64("9223372036854775807"), Some(i64::MAX));
    assert_eq!(parse_i64("-9223372036854775808"), Some(i64::MIN));
    assert_eq!(parse_i64("9223372036854775808"), None);
    assert_eq!(parse_i64("-"), None);
}
