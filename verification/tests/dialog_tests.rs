use pman::actions::{Action, ConfirmCallback, InputCallback};
use pman::confirm::ConfirmDialog;
use pman::input::InputDialog;

fn confirm_with(cb: ConfirmCallback) -> ConfirmDialog {
    ConfirmDialog::new("Confirm".to_string(), "Sure?".to_string(), cb)
}

#[test]
fn yes_emits_the_bound_action_for_every_callback() {
    let mut d = confirm_with(ConfirmCallback::DeleteWorktree("/tmp/wt".to_string()));
    let r = d.handle_action(&Action::Character('y')).unwrap();
    assert!(matches!(r, Some(Action::DeleteWorktree(ref p)) if p == "/tmp/wt"));

    let mut d = confirm_with(ConfirmCallback::MergeWorktree("/tmp/wt".to_string()));
    let r = d.handle_action(&Action::Character('Y')).unwrap();
    assert!(matches!(r, Some(Action::MergeWorktree(ref p)) if p == "/tmp/wt"));

    let mut d = confirm_with(ConfirmCallback::KillSession("work".to_string()));
    let r = d.handle_action(&Action::Character('y')).unwrap();
    assert!(matches!(r, Some(Action::KillSession(ref n)) if n == "work"));
}

#[test]
fn enter_at_default_state_closes() {
    let mut d = confirm_with(ConfirmCallback::KillSession("work".to_string()));
    assert!(!d.is_yes_selected());
    let r = d.handle_action(&Action::Enter).unwrap();
    assert!(matches!(r, Some(Action::CloseDialog)));
}

#[test]
fn enter_after_toggle_confirms() {
    let mut d = confirm_with(ConfirmCallback::KillSession("work".to_string()));
    let r = d.handle_action(&Action::MoveUp).unwrap();
    assert!(matches!(r, Some(Action::Render)));
    assert!(d.is_yes_selected());
    let r = d.handle_action(&Action::Enter).unwrap();
    assert!(matches!(r, Some(Action::KillSession(ref n)) if n == "work"));
}

#[test]
fn two_toggles_return_to_initial_state() {
    let mut d = confirm_with(ConfirmCallback::KillSession("work".to_string()));
    d.handle_action(&Action::MoveDown).unwrap();
    d.handle_action(&Action::MoveDown).unwrap();
    assert!(!d.is_yes_selected());
    d.handle_action(&Action::Character('h')).unwrap();
    d.handle_action(&Action::Character('l')).unwrap();
    assert!(!d.is_yes_selected());
}

#[test]
fn no_and_escape_close_the_confirmation() {
    let mut d = confirm_with(ConfirmCallback::KillSession("work".to_string()));
    let r = d.handle_action(&Action::Character('n')).unwrap();
    assert!(matches!(r, Some(Action::CloseDialog)));
    let r = d.handle_action(&Action::Escape).unwrap();
    assert!(matches!(r, Some(Action::CloseDialog)));
}

#[test]
fn unrecognized_input_is_dropped_by_the_confirmation() {
    let mut d = confirm_with(ConfirmCallback::KillSession("work".to_string()));
    let r = d.handle_action(&Action::PageUp).unwrap();
    assert!(r.is_none());
    assert!(!d.is_yes_selected());
}

#[test]
fn enter_on_empty_buffer_closes_and_emits_no_domain_action() {
    let mut d = InputDialog::new("New Session".to_string(), InputCallback::CreateSession);
    let r = d.handle_action(&Action::Enter).unwrap();
    assert!(matches!(r, Some(Action::CloseDialog)));

    let mut d = InputDialog::new("New Worktree".to_string(), InputCallback::CreateWorktree);
    let r = d.handle_action(&Action::Enter).unwrap();
    assert!(matches!(r, Some(Action::CloseDialog)));
}

#[test]
fn abc_backspace_enter_builds_action_from_ab() {
    let mut d = InputDialog::new("New Session".to_string(), InputCallback::CreateSession);
    d.handle_action(&Action::Character('a')).unwrap();
    d.handle_action(&Action::Character('b')).unwrap();
    d.handle_action(&Action::Character('c')).unwrap();
    let r = d.handle_action(&Action::Backspace).unwrap();
    assert!(matches!(r, Some(Action::Render)));
    assert_eq!(d.input(), "ab");
    let r = d.handle_action(&Action::Enter).unwrap();
    assert!(matches!(r, Some(Action::CreateSession(ref n, None)) if n == "ab"));
}

#[test]
fn input_builds_worktree_action_from_buffer() {
    let mut d = InputDialog::new("New Worktree".to_string(), InputCallback::CreateWorktree);
    for c in "feature-x".chars() {
        d.handle_action(&Action::Character(c)).unwrap();
    }
    let r = d.handle_action(&Action::Enter).unwrap();
    assert!(matches!(r, Some(Action::CreateWorktree(ref b)) if b == "feature-x"));
}

#[test]
fn rename_session_submit_is_inert() {
    let mut d = InputDialog::new("Rename".to_string(), InputCallback::RenameSession);
    d.handle_action(&Action::Character('x')).unwrap();
    let r = d.handle_action(&Action::Enter).unwrap();
    assert!(matches!(r, Some(Action::CloseDialog)));
}

#[test]
fn backspace_on_empty_buffer_is_a_noop() {
    let mut d = InputDialog::new("New Session".to_string(), InputCallback::CreateSession);
    let r = d.handle_action(&Action::Backspace).unwrap();
    assert!(matches!(r, Some(Action::Render)));
    assert_eq!(d.input(), "");
}

#[test]
fn escape_closes_the_input_dialog() {
    let mut d = InputDialog::new("New Session".to_string(), InputCallback::CreateSession);
    d.handle_action(&Action::Character('q')).unwrap();
    let r = d.handle_action(&Action::Escape).unwrap();
    assert!(matches!(r, Some(Action::CloseDialog)));
}
