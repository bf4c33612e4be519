use pman::buffer::NvimBuffer;
use pman::command::PaletteCommand;
use pman::keybindings::{install_into, is_installed, keybinding_block, uninstall_from};
use pman::list::Searchable;
use pman::session::TmuxSession;
use pman::worktree::GitWorktree;

#[test]
fn session_lines_show_status_name_and_directory() {
    let s = TmuxSession {
        name: "work".to_string(),
        attached: true,
        path: Some("/home/u/proj".to_string()),
        windows: 2,
        created: None,
    };
    assert_eq!(s.display_name(), "\u{25cf} work (proj)");
    assert_eq!(s.search_text(), "work /home/u/proj");
    let s = TmuxSession { name: "idle".to_string(), attached: false, path: None, windows: 1, created: None };
    assert_eq!(s.display_name(), "\u{25cb} idle");
    assert_eq!(s.search_text(), "idle ");
}

#[test]
fn worktree_lines_truncate_the_hash_and_mark_main() {
    let w = GitWorktree {
        path: "/repo".to_string(),
        branch: "main".to_string(),
        is_main: true,
        commit_hash: "0123456789".to_string(),
        has_changes: false,
    };
    assert_eq!(w.display_name(), "main (0123456) [main]");
    let w = GitWorktree {
        path: "/repo-f".to_string(),
        branch: "feat".to_string(),
        is_main: false,
        commit_hash: "abc".to_string(),
        has_changes: true,
    };
    assert_eq!(w.display_name(), "feat* (abc)");
    assert_eq!(w.search_text(), "feat /repo-f");
}

#[test]
fn buffer_lines_show_the_file_name_and_a_change_marker() {
    let b = NvimBuffer { bufnr: 3, name: "/home/u/src/main.rs".to_string(), modified: true };
    assert_eq!(b.display_name(), "main.rs [+]");
    assert_eq!(b.search_text(), "/home/u/src/main.rs");
    let b = NvimBuffer { bufnr: 1, name: "".to_string(), modified: false };
    assert_eq!(b.display_name(), "[No Name]");
}

#[test]
fn the_palette_lists_every_command_once() {
    let all = PaletteCommand::all();
    assert_eq!(all.len(), 8);
    let non_git = PaletteCommand::non_git_commands();
    assert_eq!(non_git.len(), 5);
    for c in non_git.iter() {
        assert!(all.contains(c));
    }
    assert!(!non_git.contains(&PaletteCommand::GitDiff));
    assert_eq!(PaletteCommand::GitDiff.display_name(), "Git Diff");
    assert_eq!(PaletteCommand::GitDiff.description(), "Show git diff in popup");
    assert_eq!(PaletteCommand::GitDiff.search_text(), "Git Diff Show git diff in popup");
}

#[test]
fn installing_appends_the_block_and_is_detected() {
    let config = "set -g mouse on\n";
    let installed = install_into(config, "/usr/local/bin/pman").unwrap();
    assert!(installed.starts_with("set -g mouse on\n"));
    assert!(installed.contains("# pman keybindings (managed by pman)"));
    assert!(installed.contains("bind s display-popup -E -w 80% -h 80% \"/usr/local/bin/pman session-picker\""));
    assert!(installed.contains("bind d display-popup -E -w 90% -h 90% \"/usr/local/bin/pman git-diff\""));
    assert!(installed.ends_with("# end pman keybindings\n"));
    assert!(is_installed(&installed));
    // A second install changes nothing.
    assert!(install_into(&installed, "/usr/local/bin/pman").is_none());
}

#[test]
fn uninstalling_removes_exactly_the_managed_block() {
    let config = "set -g mouse on\nbind x kill-pane\n";
    let installed = install_into(config, "/bin/pman").unwrap();
    let removed = uninstall_from(&installed);
    assert!(!removed.contains("pman keybindings"));
    assert!(!removed.contains("display-popup"));
    assert!(removed.contains("set -g mouse on"));
    assert!(removed.contains("bind x kill-pane"));
    assert!(!is_installed(&removed));
}

#[test]
fn the_block_text_is_bounded_by_the_markers() {
    let block = keybinding_block("/bin/pman");
    assert!(block.starts_with("\n# pman keybindings (managed by pman)\n"));
    assert!(block.ends_with("# end pman keybindings\n"));
    assert_eq!(block.matches("display-popup").count(), 5);
}
