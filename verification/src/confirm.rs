//! The confirmation dialog: a two-state (no/yes) modal machine bound to one
//! workflow at construction.

use vstd::prelude::*;

use crate::actions::{bound_action, opt_action_view, Action, ActionV, ConfirmCallback, ConfirmCallbackV};
use crate::error::PmanError;

verus! {

/// A modal yes/no question. `selected` is `false` for no (the initial state)
/// and `true` for yes. The bound action is fixed by the callback for the
/// dialog's whole lifetime.
pub struct ConfirmDialog {
    title: String,
    message: String,
    callback: ConfirmCallback,
    selected: bool,
}

/// The spec-level shape of a [`ConfirmDialog`].
pub struct ConfirmDialogV {
    /// The dialog's title line.
    pub title: Seq<char>,
    /// The question shown to the user.
    pub message: Seq<char>,
    /// The workflow the dialog is bound to.
    pub callback: ConfirmCallbackV,
    /// Whether yes is selected.
    pub selected: bool,
}

impl View for ConfirmDialog {
    type V = ConfirmDialogV;

    closed spec fn view(&self) -> ConfirmDialogV {
        ConfirmDialogV {
            title: self.title@,
            message: self.message@,
            callback: self.callback@,
            selected: self.selected,
        }
    }
}

/// The keys that flip the selection between no and yes.
pub open spec fn confirm_toggle(a: ActionV) -> bool {
    a == ActionV::MoveUp || a == ActionV::MoveDown || a == ActionV::Character('h') || a
        == ActionV::Character('l')
}

/// The dialog state after one action.
pub open spec fn confirm_next(d: ConfirmDialogV, a: ActionV) -> ConfirmDialogV {
    if a == ActionV::Character('y') || a == ActionV::Character('Y') {
        ConfirmDialogV { selected: true, ..d }
    } else if confirm_toggle(a) {
        ConfirmDialogV { selected: !d.selected, ..d }
    } else {
        d
    }
}

/// The follow-up action one action provokes; `None` for unrecognized input,
/// which the caller drops silently.
pub open spec fn confirm_emit(d: ConfirmDialogV, a: ActionV) -> Option<ActionV> {
    if a == ActionV::Character('y') || a == ActionV::Character('Y') {
        Some(bound_action(d.callback))
    } else if a == ActionV::Character('n') || a == ActionV::Character('N') {
        Some(ActionV::CloseDialog)
    } else if confirm_toggle(a) {
        Some(ActionV::Render)
    } else if a == ActionV::Enter {
        if d.selected {
            Some(bound_action(d.callback))
        } else {
            Some(ActionV::CloseDialog)
        }
    } else if a == ActionV::Escape {
        Some(ActionV::CloseDialog)
    } else {
        None
    }
}

impl ConfirmDialog {
    /// A fresh dialog with no selected.
    pub fn new(title: String, message: String, callback: ConfirmCallback) -> (r: ConfirmDialog)
        ensures
            r@ == (ConfirmDialogV {
                title: title@,
                message: message@,
                callback: callback@,
                selected: false,
            }),
    {
        ConfirmDialog { title, message, callback, selected: false }
    }

    /// The dialog's title line.
    pub fn title(&self) -> (r: &String)
        ensures
            r@ == self@.title,
    {
        &self.title
    }

    /// The question shown to the user.
    pub fn message(&self) -> (r: &String)
        ensures
            r@ == self@.message,
    {
        &self.message
    }

    /// Whether yes is selected.
    pub fn is_yes_selected(&self) -> (r: bool)
        ensures
            r == self@.selected,
    {
        self.selected
    }

    /// Routes one action: `y` confirms at once, `n` declines, the toggle keys
    /// flip the selection, enter takes the current selection, escape closes.
    pub fn handle_action(&mut self, action: &Action) -> (r: Result<Option<Action>, PmanError>)
        ensures
            final(self)@ == confirm_next(old(self)@, action@),
            r matches Ok(emitted) && opt_action_view(emitted) == confirm_emit(
                old(self)@,
                action@,
            ),
    {
        match action {
            Action::Character(c) => {
                let ch = *c;
                if ch == 'y' || ch == 'Y' {
                    self.selected = true;
                    Ok(Some(self.confirm()))
                } else if ch == 'n' || ch == 'N' {
                    Ok(Some(Action::CloseDialog))
                } else if ch == 'h' || ch == 'l' {
                    self.selected = !self.selected;
                    Ok(Some(Action::Render))
                } else {
                    Ok(None)
                }
            },
            Action::MoveUp | Action::MoveDown => {
                self.selected = !self.selected;
                Ok(Some(Action::Render))
            },
            Action::Enter => {
                if self.selected {
                    Ok(Some(self.confirm()))
                } else {
                    Ok(Some(Action::CloseDialog))
                }
            },
            Action::Escape => Ok(Some(Action::CloseDialog)),
            _ => Ok(None),
        }
    }

    /// The action the dialog is bound to.
    pub fn confirm(&self) -> (r: Action)
        ensures
            r@ == bound_action(self@.callback),
    {
        match &self.callback {
            ConfirmCallback::DeleteWorktree(path) => Action::DeleteWorktree(path.clone()),
            ConfirmCallback::MergeWorktree(path) => Action::MergeWorktree(path.clone()),
            ConfirmCallback::KillSession(name) => Action::KillSession(name.clone()),
        }
    }
}

/// Pressing `y` emits exactly the bound action of the dialog's callback,
/// whatever the callback and the selection are.
pub proof fn lemma_yes_emits_bound(d: ConfirmDialogV)
    ensures
        confirm_emit(d, ActionV::Character('y')) == Some(bound_action(d.callback)),
        confirm_emit(d, ActionV::Character('Y')) == Some(bound_action(d.callback)),
{
}

/// Enter in the initial (no-selected) state only closes the dialog.
pub proof fn lemma_enter_default_closes(d: ConfirmDialogV)
    requires
        !d.selected,
    ensures
        confirm_emit(d, ActionV::Enter) == Some(ActionV::CloseDialog),
{
}

/// Two toggles return the dialog to the state it started in.
pub proof fn lemma_double_toggle(d: ConfirmDialogV, a: ActionV)
    requires
        confirm_toggle(a),
    ensures
        confirm_next(confirm_next(d, a), a) == d,
{
}

} // verus!
