use pman::actions::Action;
use pman::app::{App, Dialog, Effect, Screen};
use pman::command::PaletteCommand;
use pman::session::TmuxSession;
use pman::worktree::GitWorktree;

fn session(name: &str) -> TmuxSession {
    TmuxSession {
        name: name.to_string(),
        attached: false,
        path: None,
        windows: 1,
        created: None,
    }
}

fn worktree(path: &str, branch: &str) -> GitWorktree {
    GitWorktree {
        path: path.to_string(),
        branch: branch.to_string(),
        is_main: false,
        commit_hash: "abcdef0".to_string(),
        has_changes: false,
    }
}

#[test]
fn escape_quits_when_no_dialog_is_open() {
    let mut app = App::new(Screen::SessionPicker);
    let r = app.handle_action(&Action::Escape);
    assert!(r.quit);
    assert!(r.effect.is_none());
}

#[test]
fn characters_edit_the_active_lists_query() {
    let mut app = App::new(Screen::SessionPicker);
    app.set_sessions(vec![session("work"), session("play")]);
    let r = app.handle_action(&Action::Character('w'));
    assert!(r.render);
    assert!(!r.quit);
    assert_eq!(app.sessions().query(), "w");
    assert_eq!(app.sessions().filtered_len(), 1);
}

#[test]
fn enter_on_a_session_switches_and_quits() {
    let mut app = App::new(Screen::SessionPicker);
    app.set_sessions(vec![session("work"), session("play")]);
    app.handle_action(&Action::MoveDown);
    let r = app.handle_action(&Action::Enter);
    assert!(r.quit);
    assert!(matches!(r.effect, Some(Effect::SwitchSession(ref n)) if n == "play"));
}

#[test]
fn enter_on_an_empty_list_does_nothing() {
    let mut app = App::new(Screen::SessionPicker);
    let r = app.handle_action(&Action::Enter);
    assert!(!r.quit);
    assert!(r.effect.is_none());
}

#[test]
fn delete_item_opens_a_confirmation_and_yes_kills_that_session() {
    let mut app = App::new(Screen::SessionPicker);
    app.set_sessions(vec![session("work"), session("scratch")]);
    app.handle_action(&Action::MoveDown);
    let r = app.handle_action(&Action::DeleteItem);
    assert!(r.render);
    assert!(matches!(app.dialog(), Some(Dialog::Confirm(_))));
    // The open dialog intercepts; 'y' emits the bound kill, and the dialog closes.
    let r = app.handle_action(&Action::Character('y'));
    assert!(matches!(r.effect, Some(Effect::KillSession(ref n)) if n == "scratch"));
    assert!(app.dialog().is_none());
}

#[test]
fn dialog_intercepts_list_edits() {
    let mut app = App::new(Screen::SessionPicker);
    app.set_sessions(vec![session("work")]);
    app.handle_action(&Action::NewItem);
    assert!(matches!(app.dialog(), Some(Dialog::Input(_))));
    app.handle_action(&Action::Character('x'));
    // The character went to the dialog's buffer, not the list's query.
    assert_eq!(app.sessions().query(), "");
    let r = app.handle_action(&Action::Enter);
    assert!(matches!(r.effect, Some(Effect::CreateSession(ref n, None)) if n == "x"));
    assert!(app.dialog().is_none());
}

#[test]
fn escaping_a_dialog_closes_it_without_quitting() {
    let mut app = App::new(Screen::WorktreePicker);
    app.set_worktrees(vec![worktree("/wt", "feat")]);
    app.handle_action(&Action::MergeItem);
    assert!(matches!(app.dialog(), Some(Dialog::Confirm(_))));
    let r = app.handle_action(&Action::Escape);
    assert!(!r.quit);
    assert!(app.dialog().is_none());
}

#[test]
fn merge_item_yes_emits_the_merge_for_the_selected_path() {
    let mut app = App::new(Screen::WorktreePicker);
    app.set_worktrees(vec![worktree("/wt-a", "a"), worktree("/wt-b", "b")]);
    app.handle_action(&Action::MoveDown);
    app.handle_action(&Action::MergeItem);
    let r = app.handle_action(&Action::Character('y'));
    assert!(matches!(r.effect, Some(Effect::MergeWorktree(ref p)) if p == "/wt-b"));
}

#[test]
fn palette_commands_switch_screens_and_ask_for_refreshes() {
    let mut app = App::new(Screen::CommandPalette);
    app.set_commands(PaletteCommand::all());
    let r = app.handle_action(&Action::Enter);
    assert_eq!(app.view(), Screen::SessionPicker);
    assert!(matches!(r.effect, Some(Effect::RefreshSessions)));
}

#[test]
fn palette_worktree_listing_switches_to_the_worktree_screen() {
    let mut app = App::new(Screen::CommandPalette);
    app.set_commands(PaletteCommand::all());
    for c in "worktrees".chars() {
        app.handle_action(&Action::Character(c));
    }
    let r = app.handle_action(&Action::Enter);
    assert_eq!(app.view(), Screen::WorktreePicker);
    assert!(matches!(r.effect, Some(Effect::RefreshWorktrees)));
}

#[test]
fn switching_views_shows_the_target_list_afresh() {
    let mut app = App::new(Screen::CommandPalette);
    app.set_commands(PaletteCommand::all());
    app.set_sessions(vec![session("work"), session("play")]);
    // The palette's first entry switches to the session picker; the shown
    // list carries no query and the cursor sits at the top.
    let r = app.handle_action(&Action::Enter);
    assert_eq!(app.view(), Screen::SessionPicker);
    assert!(matches!(r.effect, Some(Effect::RefreshSessions)));
    assert_eq!(app.sessions().query(), "");
    assert_eq!(app.sessions().cursor(), Some(0));
}

#[test]
fn messages_are_kept_for_the_renderer() {
    let mut app = App::new(Screen::SessionPicker);
    assert!(app.message().is_none());
    app.set_message(Some("Version control error: boom".to_string()));
    assert_eq!(app.message().as_deref(), Some("Version control error: boom"));
    app.set_message(None);
    assert!(app.message().is_none());
}
