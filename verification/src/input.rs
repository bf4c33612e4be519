//! The text-input dialog: a single edit buffer bound to one workflow at
//! construction.

use vstd::prelude::*;

use crate::actions::{Action, ActionV, InputCallback, input_action, opt_action_view};
use crate::error::PmanError;
use crate::text::{pop_char, push_char};

verus! {

/// A modal one-line prompt. Submitting an empty buffer cancels; submitting a
/// non-empty buffer emits the action the callback builds from the buffer.
pub struct InputDialog {
    title: String,
    input: String,
    callback: InputCallback,
}

/// The spec-level shape of an [`InputDialog`].
pub struct InputDialogV {
    /// The dialog's title line.
    pub title: Seq<char>,
    /// The edit buffer.
    pub input: Seq<char>,
    /// The workflow the dialog is bound to.
    pub callback: InputCallback,
}

impl View for InputDialog {
    type V = InputDialogV;

    closed spec fn view(&self) -> InputDialogV {
        InputDialogV { title: self.title@, input: self.input@, callback: self.callback }
    }
}

/// The dialog state after one action: characters append to the buffer,
/// backspace removes the last character (a no-op on an empty buffer), and
/// everything else leaves the buffer alone.
pub open spec fn input_next(d: InputDialogV, a: ActionV) -> InputDialogV {
    match a {
        ActionV::Character(c) => InputDialogV { input: d.input.push(c), ..d },
        ActionV::Backspace => if d.input.len() > 0 {
            InputDialogV { input: d.input.drop_last(), ..d }
        } else {
            d
        },
        _ => d,
    }
}

/// The follow-up action one action provokes; `None` for unrecognized input,
/// which the caller drops silently. Enter on an empty buffer closes the
/// dialog and never emits a domain action.
pub open spec fn input_emit(d: InputDialogV, a: ActionV) -> Option<ActionV> {
    match a {
        ActionV::Character(_) => Some(ActionV::Render),
        ActionV::Backspace => Some(ActionV::Render),
        ActionV::Enter => if d.input.len() == 0 {
            Some(ActionV::CloseDialog)
        } else {
            Some(input_action(d.callback, d.input))
        },
        ActionV::Escape => Some(ActionV::CloseDialog),
        _ => None,
    }
}

impl InputDialog {
    /// A fresh dialog with an empty buffer.
    pub fn new(title: String, callback: InputCallback) -> (r: InputDialog)
        ensures
            r@ == (InputDialogV { title: title@, input: Seq::<char>::empty(), callback }),
    {
        let r = InputDialog { title, input: String::new(), callback };
        proof {
            assert(r@.input =~= Seq::<char>::empty());
        }
        r
    }

    /// The dialog's title line.
    pub fn title(&self) -> (r: &String)
        ensures
            r@ == self@.title,
    {
        &self.title
    }

    /// The current buffer.
    pub fn input(&self) -> (r: &String)
        ensures
            r@ == self@.input,
    {
        &self.input
    }

    /// Routes one action: characters and backspace edit the buffer and ask for
    /// a redraw, enter submits or cancels, escape closes.
    pub fn handle_action(&mut self, action: &Action) -> (r: Result<Option<Action>, PmanError>)
        ensures
            final(self)@ == input_next(old(self)@, action@),
            r matches Ok(emitted) && opt_action_view(emitted) == input_emit(old(self)@, action@),
    {
        match action {
            Action::Character(c) => {
                push_char(&mut self.input, *c);
                Ok(Some(Action::Render))
            },
            Action::Backspace => {
                pop_char(&mut self.input);
                Ok(Some(Action::Render))
            },
            Action::Enter => {
                if self.input.as_str().unicode_len() == 0 {
                    proof {
                        assert(self@.input.len() == 0);
                    }
                    return Ok(Some(Action::CloseDialog));
                }
                let result = match &self.callback {
                    InputCallback::CreateSession => Action::CreateSession(self.input.clone(), None),
                    InputCallback::CreateWorktree => Action::CreateWorktree(self.input.clone()),
                    InputCallback::RenameSession => Action::CloseDialog,
                };
                Ok(Some(result))
            },
            Action::Escape => Ok(Some(Action::CloseDialog)),
            _ => Ok(None),
        }
    }
}

/// Enter on an empty buffer closes the dialog and never emits a domain
/// action, whatever the callback is.
pub proof fn lemma_empty_submit_cancels(d: InputDialogV)
    requires
        d.input.len() == 0,
    ensures
        input_emit(d, ActionV::Enter) == Some(ActionV::CloseDialog),
{
}

} // verus!
