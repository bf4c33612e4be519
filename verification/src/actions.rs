//! The action model: every message routed through the system.

use vstd::prelude::*;

verus! {

/// One message: a raw key event, a lifecycle signal, or a domain command with
/// its payload. Created by input translation or by a handler; consumed once by
/// its addressed handler.
pub enum Action {
    /// A printable character was typed.
    Character(char),
    /// The backspace key.
    Backspace,
    /// The enter key.
    Enter,
    /// The escape key.
    Escape,
    /// Move the cursor up one entry.
    MoveUp,
    /// Move the cursor down one entry.
    MoveDown,
    /// Move the cursor up one page.
    PageUp,
    /// Move the cursor down one page.
    PageDown,
    /// Open the creation dialog of the active view.
    NewItem,
    /// Open the deletion dialog for the selected entry.
    DeleteItem,
    /// Open the merge dialog for the selected worktree.
    MergeItem,
    /// Redraw the screen.
    Render,
    /// Close the open dialog.
    CloseDialog,
    /// Leave the program.
    Quit,
    /// Switch to the named session.
    SwitchSession(String),
    /// Create a session with this name, in this directory if given.
    CreateSession(String, Option<String>),
    /// Kill the named session.
    KillSession(String),
    /// Remove the worktree at this path.
    DeleteWorktree(String),
    /// Merge the worktree at this path into the main branch.
    MergeWorktree(String),
    /// Create a worktree for a branch of this name.
    CreateWorktree(String),
}

/// The spec-level shape of an [`Action`]: string payloads become character
/// sequences, so contracts can compare actions by content.
pub enum ActionV {
    /// See [`Action::Character`].
    Character(char),
    /// See [`Action::Backspace`].
    Backspace,
    /// See [`Action::Enter`].
    Enter,
    /// See [`Action::Escape`].
    Escape,
    /// See [`Action::MoveUp`].
    MoveUp,
    /// See [`Action::MoveDown`].
    MoveDown,
    /// See [`Action::PageUp`].
    PageUp,
    /// See [`Action::PageDown`].
    PageDown,
    /// See [`Action::NewItem`].
    NewItem,
    /// See [`Action::DeleteItem`].
    DeleteItem,
    /// See [`Action::MergeItem`].
    MergeItem,
    /// See [`Action::Render`].
    Render,
    /// See [`Action::CloseDialog`].
    CloseDialog,
    /// See [`Action::Quit`].
    Quit,
    /// See [`Action::SwitchSession`].
    SwitchSession(Seq<char>),
    /// See [`Action::CreateSession`].
    CreateSession(Seq<char>, Option<Seq<char>>),
    /// See [`Action::KillSession`].
    KillSession(Seq<char>),
    /// See [`Action::DeleteWorktree`].
    DeleteWorktree(Seq<char>),
    /// See [`Action::MergeWorktree`].
    MergeWorktree(Seq<char>),
    /// See [`Action::CreateWorktree`].
    CreateWorktree(Seq<char>),
}

impl View for Action {
    type V = ActionV;

    open spec fn view(&self) -> ActionV {
        match self {
            Action::Character(c) => ActionV::Character(*c),
            Action::Backspace => ActionV::Backspace,
            Action::Enter => ActionV::Enter,
            Action::Escape => ActionV::Escape,
            Action::MoveUp => ActionV::MoveUp,
            Action::MoveDown => ActionV::MoveDown,
            Action::PageUp => ActionV::PageUp,
            Action::PageDown => ActionV::PageDown,
            Action::NewItem => ActionV::NewItem,
            Action::DeleteItem => ActionV::DeleteItem,
            Action::MergeItem => ActionV::MergeItem,
            Action::Render => ActionV::Render,
            Action::CloseDialog => ActionV::CloseDialog,
            Action::Quit => ActionV::Quit,
            Action::SwitchSession(name) => ActionV::SwitchSession(name@),
            Action::CreateSession(name, dir) => ActionV::CreateSession(
                name@,
                match dir {
                    Some(d) => Some(d@),
                    None => None,
                },
            ),
            Action::KillSession(name) => ActionV::KillSession(name@),
            Action::DeleteWorktree(path) => ActionV::DeleteWorktree(path@),
            Action::MergeWorktree(path) => ActionV::MergeWorktree(path@),
            Action::CreateWorktree(branch) => ActionV::CreateWorktree(branch@),
        }
    }
}

/// The workflow a confirmation dialog is bound to, with the payload the
/// resulting action needs.
pub enum ConfirmCallback {
    /// Confirm removing the worktree at this path.
    DeleteWorktree(String),
    /// Confirm merging the worktree at this path into the main branch.
    MergeWorktree(String),
    /// Confirm killing the named session.
    KillSession(String),
}

/// The spec-level shape of a [`ConfirmCallback`].
pub enum ConfirmCallbackV {
    /// See [`ConfirmCallback::DeleteWorktree`].
    DeleteWorktree(Seq<char>),
    /// See [`ConfirmCallback::MergeWorktree`].
    MergeWorktree(Seq<char>),
    /// See [`ConfirmCallback::KillSession`].
    KillSession(Seq<char>),
}

impl View for ConfirmCallback {
    type V = ConfirmCallbackV;

    open spec fn view(&self) -> ConfirmCallbackV {
        match self {
            ConfirmCallback::DeleteWorktree(path) => ConfirmCallbackV::DeleteWorktree(path@),
            ConfirmCallback::MergeWorktree(path) => ConfirmCallbackV::MergeWorktree(path@),
            ConfirmCallback::KillSession(name) => ConfirmCallbackV::KillSession(name@),
        }
    }
}

/// The action a confirmation dialog with this callback emits on yes.
pub open spec fn bound_action(cb: ConfirmCallbackV) -> ActionV {
    match cb {
        ConfirmCallbackV::DeleteWorktree(path) => ActionV::DeleteWorktree(path),
        ConfirmCallbackV::MergeWorktree(path) => ActionV::MergeWorktree(path),
        ConfirmCallbackV::KillSession(name) => ActionV::KillSession(name),
    }
}

/// The workflow a text-input dialog is bound to. The buffer's content becomes
/// the payload of the resulting action.
pub enum InputCallback {
    /// Submit creates a session named after the buffer.
    CreateSession,
    /// Submit creates a worktree for a branch named after the buffer.
    CreateWorktree,
    /// Accepted but inert: submitting only closes the dialog. A placeholder
    /// for a renaming workflow that does not exist yet.
    RenameSession,
}

/// The spec-level shape of an optional action.
pub open spec fn opt_action_view(o: Option<Action>) -> Option<ActionV> {
    match o {
        Some(a) => Some(a@),
        None => None,
    }
}

/// The action a text-input dialog with this callback emits when a non-empty
/// buffer is submitted.
pub open spec fn input_action(cb: InputCallback, buffer: Seq<char>) -> ActionV {
    match cb {
        InputCallback::CreateSession => ActionV::CreateSession(buffer, None),
        InputCallback::CreateWorktree => ActionV::CreateWorktree(buffer),
        InputCallback::RenameSession => ActionV::CloseDialog,
    }
}

} // verus!
