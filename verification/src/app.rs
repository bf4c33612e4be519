//! The application router: one active view, at most one modal dialog, one
//! list controller per view. An open dialog intercepts every action; domain
//! actions become effects the caller executes against the collaborators.

use vstd::prelude::*;

use crate::actions::{Action, ActionV, ConfirmCallback, ConfirmCallbackV, InputCallback};
use crate::buffer::NvimBuffer;
use crate::command::PaletteCommand;
use crate::confirm::{confirm_emit, confirm_next, ConfirmDialog};
use crate::input::{input_emit, input_next, InputDialog, InputDialogV};
use crate::list::{clamp_cursor, items_scorable, FuzzyList, Searchable};
use crate::session::TmuxSession;
use crate::worktree::GitWorktree;

verus! {

/// How many entries one page movement crosses.
pub const PAGE_SIZE: usize = 10;

/// The top-level screens.
#[derive(Clone, Copy, Debug, PartialEq, Eq, Structural)]
pub enum Screen {
    /// The session list.
    SessionPicker,
    /// The command palette.
    CommandPalette,
    /// The worktree list.
    WorktreePicker,
    /// The editor buffer list.
    BufferPicker,
}

/// The one modal dialog that may be open.
pub enum Dialog {
    /// A yes/no question.
    Confirm(ConfirmDialog),
    /// A one-line prompt.
    Input(InputDialog),
}

/// One call the router asks the caller to make against a collaborator.
pub enum Effect {
    /// Switch to the named session.
    SwitchSession(String),
    /// Create a session with this name, in this directory if given.
    CreateSession(String, Option<String>),
    /// Kill the named session.
    KillSession(String),
    /// Kill the session the program runs in.
    KillCurrentSession,
    /// Remove the worktree at this path.
    DeleteWorktree(String),
    /// Merge the worktree at this path into the main branch.
    MergeWorktree(String),
    /// Create a worktree for a branch of this name.
    CreateWorktree(String),
    /// Open the worktree at this path in a session.
    OpenWorktree(String),
    /// Open the buffer at this position of the last buffer listing.
    OpenBufferAt(usize),
    /// Reload the session list.
    RefreshSessions,
    /// Reload the worktree list.
    RefreshWorktrees,
    /// Reload the buffer list.
    RefreshBuffers,
    /// Run the interactive file finder.
    FindFiles,
    /// Show the working diff.
    GitDiff,
}

/// The spec-level shape of an [`Effect`].
pub enum EffectV {
    /// See [`Effect::SwitchSession`].
    SwitchSession(Seq<char>),
    /// See [`Effect::CreateSession`].
    CreateSession(Seq<char>, Option<Seq<char>>),
    /// See [`Effect::KillSession`].
    KillSession(Seq<char>),
    /// See [`Effect::KillCurrentSession`].
    KillCurrentSession,
    /// See [`Effect::DeleteWorktree`].
    DeleteWorktree(Seq<char>),
    /// See [`Effect::MergeWorktree`].
    MergeWorktree(Seq<char>),
    /// See [`Effect::CreateWorktree`].
    CreateWorktree(Seq<char>),
    /// See [`Effect::OpenWorktree`].
    OpenWorktree(Seq<char>),
    /// See [`Effect::OpenBufferAt`].
    OpenBufferAt(usize),
    /// See [`Effect::RefreshSessions`].
    RefreshSessions,
    /// See [`Effect::RefreshWorktrees`].
    RefreshWorktrees,
    /// See [`Effect::RefreshBuffers`].
    RefreshBuffers,
    /// See [`Effect::FindFiles`].
    FindFiles,
    /// See [`Effect::GitDiff`].
    GitDiff,
}

impl View for Effect {
    type V = EffectV;

    open spec fn view(&self) -> EffectV {
        match self {
            Effect::SwitchSession(n) => EffectV::SwitchSession(n@),
            Effect::CreateSession(n, d) => EffectV::CreateSession(
                n@,
                match d {
                    Some(p) => Some(p@),
                    None => None,
                },
            ),
            Effect::KillSession(n) => EffectV::KillSession(n@),
            Effect::KillCurrentSession => EffectV::KillCurrentSession,
            Effect::DeleteWorktree(p) => EffectV::DeleteWorktree(p@),
            Effect::MergeWorktree(p) => EffectV::MergeWorktree(p@),
            Effect::CreateWorktree(b) => EffectV::CreateWorktree(b@),
            Effect::OpenWorktree(p) => EffectV::OpenWorktree(p@),
            Effect::OpenBufferAt(i) => EffectV::OpenBufferAt(*i),
            Effect::RefreshSessions => EffectV::RefreshSessions,
            Effect::RefreshWorktrees => EffectV::RefreshWorktrees,
            Effect::RefreshBuffers => EffectV::RefreshBuffers,
            Effect::FindFiles => EffectV::FindFiles,
            Effect::GitDiff => EffectV::GitDiff,
        }
    }
}

/// The spec-level shape of an optional effect.
pub open spec fn opt_effect_view(o: Option<Effect>) -> Option<EffectV> {
    match o {
        Some(e) => Some(e@),
        None => None,
    }
}

/// What one routed action asks of the caller: at most one collaborator call,
/// a redraw flag, and a quit flag.
pub struct Response {
    /// The collaborator call to make, if any.
    pub effect: Option<Effect>,
    /// Whether to redraw.
    pub render: bool,
    /// Whether to leave the program.
    pub quit: bool,
}

/// The effect a domain action asks for; raw input and lifecycle actions ask
/// for none.
pub open spec fn domain_effect(a: ActionV) -> Option<EffectV> {
    match a {
        ActionV::SwitchSession(n) => Some(EffectV::SwitchSession(n)),
        ActionV::CreateSession(n, d) => Some(EffectV::CreateSession(n, d)),
        ActionV::KillSession(n) => Some(EffectV::KillSession(n)),
        ActionV::DeleteWorktree(p) => Some(EffectV::DeleteWorktree(p)),
        ActionV::MergeWorktree(p) => Some(EffectV::MergeWorktree(p)),
        ActionV::CreateWorktree(b) => Some(EffectV::CreateWorktree(b)),
        _ => None,
    }
}

/// What an open dialog emits for one action.
pub open spec fn dialog_emit_spec(d: Dialog, a: ActionV) -> Option<ActionV> {
    match d {
        Dialog::Confirm(c) => confirm_emit(c@, a),
        Dialog::Input(i) => input_emit(i@, a),
    }
}

/// The dialog `d2` is `d1` one action later, of the same kind.
pub open spec fn dialog_steps_to(d1: Dialog, a: ActionV, d2: Dialog) -> bool {
    match (d1, d2) {
        (Dialog::Confirm(c1), Dialog::Confirm(c2)) => c2@ == confirm_next(c1@, a),
        (Dialog::Input(i1), Dialog::Input(i2)) => i2@ == input_next(i1@, a),
        _ => false,
    }
}

/// The name of the session under the cursor, where one is selected.
pub open spec fn selected_session_name(l: FuzzyList<TmuxSession>) -> Option<Seq<char>> {
    match l.cursor_spec() {
        None => None,
        Some(c) => Some(l.items_spec()[l.order_spec()[c as int] as int].name@),
    }
}

/// The path of the worktree under the cursor, where one is selected.
pub open spec fn selected_worktree_path(l: FuzzyList<GitWorktree>) -> Option<Seq<char>> {
    match l.cursor_spec() {
        None => None,
        Some(c) => Some(l.items_spec()[l.order_spec()[c as int] as int].path@),
    }
}

/// The candidate-set position of the buffer under the cursor, where one is
/// selected.
pub open spec fn selected_buffer_pos(l: FuzzyList<NvimBuffer>) -> Option<usize> {
    match l.cursor_spec() {
        None => None,
        Some(c) => Some(l.order_spec()[c as int]),
    }
}

/// The palette command under the cursor, where one is selected.
pub open spec fn selected_command(l: FuzzyList<PaletteCommand>) -> Option<PaletteCommand> {
    match l.cursor_spec() {
        None => None,
        Some(c) => Some(l.items_spec()[l.order_spec()[c as int] as int]),
    }
}

/// `post` holds a fresh text-input dialog with this title and callback.
pub open spec fn opens_input(post: &App, title: Seq<char>, cb: InputCallback) -> bool {
    match post.dialog_spec() {
        Some(Dialog::Input(d)) => d@ == (InputDialogV {
            title,
            input: Seq::<char>::empty(),
            callback: cb,
        }),
        _ => false,
    }
}

/// `post` holds a fresh confirmation dialog bound to this callback, with no
/// selected.
pub open spec fn opens_confirm(post: &App, cb: ConfirmCallbackV) -> bool {
    match post.dialog_spec() {
        Some(Dialog::Confirm(d)) => d@.callback == cb && !d@.selected,
        _ => false,
    }
}

/// `post` is `pre` shown afresh: same candidates, the query and cursor
/// discarded.
pub open spec fn resets_list<T: Searchable>(pre: FuzzyList<T>, post: FuzzyList<T>) -> bool {
    &&& post.items_spec() == pre.items_spec()
    &&& post.query_spec().len() == 0
    &&& post.order_current()
    &&& post.cursor_spec() == clamp_cursor(None::<usize>, post.order_spec().len())
}

/// What enter does on the palette, by command: the listing commands switch the
/// screen and ask for a refresh, the creation commands open their input
/// dialog, and the rest ask for one collaborator call.
pub open spec fn palette_spec(pre: &App, post: &App, r: Response, cmd: PaletteCommand) -> bool {
    &&& !r.quit
    &&& match cmd {
        PaletteCommand::ListSessions => post.view_spec() == Screen::SessionPicker
            && post.dialog_spec() is None && opt_effect_view(r.effect) == Some(
            EffectV::RefreshSessions,
        ) && resets_list(pre.sessions_spec(), post.sessions_spec()) && post.worktrees_spec()
            == pre.worktrees_spec() && post.commands_spec() == pre.commands_spec()
            && post.buffers_spec() == pre.buffers_spec(),
        PaletteCommand::NewSession => post.view_spec() == pre.view_spec() && opens_input(
            post,
            "New Session"@,
            InputCallback::CreateSession,
        ) && r.effect is None,
        PaletteCommand::KillSession => post.view_spec() == pre.view_spec() && post.dialog_spec()
            is None && opt_effect_view(r.effect) == Some(EffectV::KillCurrentSession),
        PaletteCommand::ListWorktrees => post.view_spec() == Screen::WorktreePicker
            && post.dialog_spec() is None && opt_effect_view(r.effect) == Some(
            EffectV::RefreshWorktrees,
        ) && resets_list(pre.worktrees_spec(), post.worktrees_spec()) && post.sessions_spec()
            == pre.sessions_spec() && post.commands_spec() == pre.commands_spec()
            && post.buffers_spec() == pre.buffers_spec(),
        PaletteCommand::CreateWorktree => post.view_spec() == pre.view_spec() && opens_input(
            post,
            "New Worktree"@,
            InputCallback::CreateWorktree,
        ) && r.effect is None,
        PaletteCommand::FindFiles => post.view_spec() == pre.view_spec() && post.dialog_spec()
            is None && opt_effect_view(r.effect) == Some(EffectV::FindFiles),
        PaletteCommand::ListBuffers => post.view_spec() == Screen::BufferPicker
            && post.dialog_spec() is None && opt_effect_view(r.effect) == Some(
            EffectV::RefreshBuffers,
        ) && resets_list(pre.buffers_spec(), post.buffers_spec()) && post.sessions_spec()
            == pre.sessions_spec() && post.commands_spec() == pre.commands_spec()
            && post.worktrees_spec() == pre.worktrees_spec(),
        PaletteCommand::GitDiff => post.view_spec() == pre.view_spec() && post.dialog_spec()
            is None && opt_effect_view(r.effect) == Some(EffectV::GitDiff),
    }
}

/// What enter does without a dialog: on a picker it selects the entry under
/// the cursor and quits, on the palette it runs the selected command, and on
/// an empty order it does nothing.
pub open spec fn enter_spec(pre: &App, post: &App, r: Response) -> bool {
    match pre.view_spec() {
        Screen::SessionPicker => {
            &&& App::lists_unchanged(pre, post)
            &&& post.view_spec() == pre.view_spec()
            &&& post.dialog_spec() is None
            &&& match selected_session_name(pre.sessions_spec()) {
                None => r.effect is None && !r.quit,
                Some(name) => opt_effect_view(r.effect) == Some(EffectV::SwitchSession(name))
                    && r.quit,
            }
        },
        Screen::WorktreePicker => {
            &&& App::lists_unchanged(pre, post)
            &&& post.view_spec() == pre.view_spec()
            &&& post.dialog_spec() is None
            &&& match selected_worktree_path(pre.worktrees_spec()) {
                None => r.effect is None && !r.quit,
                Some(path) => opt_effect_view(r.effect) == Some(EffectV::OpenWorktree(path))
                    && r.quit,
            }
        },
        Screen::BufferPicker => {
            &&& App::lists_unchanged(pre, post)
            &&& post.view_spec() == pre.view_spec()
            &&& post.dialog_spec() is None
            &&& match selected_buffer_pos(pre.buffers_spec()) {
                None => r.effect is None && !r.quit,
                Some(pos) => opt_effect_view(r.effect) == Some(EffectV::OpenBufferAt(pos))
                    && r.quit,
            }
        },
        Screen::CommandPalette => {
            match selected_command(pre.commands_spec()) {
                None => App::lists_unchanged(pre, post) && post.view_spec() == pre.view_spec()
                    && post.dialog_spec() is None && r.effect is None && !r.quit,
                Some(cmd) => match cmd {
                    PaletteCommand::ListSessions | PaletteCommand::ListWorktrees
                        | PaletteCommand::ListBuffers => palette_spec(pre, post, r, cmd),
                    _ => App::lists_unchanged(pre, post) && palette_spec(pre, post, r, cmd),
                },
            }
        },
    }
}

/// An action a list controller consumes: query edits and cursor movements.
pub open spec fn is_list_edit(a: ActionV) -> bool {
    match a {
        ActionV::Character(_) => true,
        ActionV::Backspace => true,
        ActionV::MoveUp => true,
        ActionV::MoveDown => true,
        ActionV::PageUp => true,
        ActionV::PageDown => true,
        _ => false,
    }
}

/// `post` is `pre` after one list edit: query edits recompute the filtered
/// order and clamp the cursor, cursor movements only move the cursor.
pub open spec fn steps_list<T: Searchable>(pre: FuzzyList<T>, post: FuzzyList<T>, a: ActionV) -> bool {
    match a {
        ActionV::Character(c) => {
            &&& post.items_spec() == pre.items_spec()
            &&& post.query_spec() == pre.query_spec().push(c)
            &&& post.order_current()
            &&& post.cursor_spec() == clamp_cursor(pre.cursor_spec(), post.order_spec().len())
        },
        ActionV::Backspace => {
            &&& post.items_spec() == pre.items_spec()
            &&& post.query_spec() == if pre.query_spec().len() > 0 {
                pre.query_spec().drop_last()
            } else {
                pre.query_spec()
            }
            &&& post.order_current()
            &&& post.cursor_spec() == clamp_cursor(pre.cursor_spec(), post.order_spec().len())
        },
        ActionV::MoveUp => {
            &&& post.items_spec() == pre.items_spec()
            &&& post.query_spec() == pre.query_spec()
            &&& post.order_spec() == pre.order_spec()
            &&& post.cursor_spec() == match pre.cursor_spec() {
                None => None::<usize>,
                Some(c) => if c == 0 {
                    Some((pre.order_spec().len() - 1) as usize)
                } else {
                    Some((c - 1) as usize)
                },
            }
        },
        ActionV::MoveDown => {
            &&& post.items_spec() == pre.items_spec()
            &&& post.query_spec() == pre.query_spec()
            &&& post.order_spec() == pre.order_spec()
            &&& post.cursor_spec() == match pre.cursor_spec() {
                None => None::<usize>,
                Some(c) => if c + 1 == pre.order_spec().len() {
                    Some(0usize)
                } else {
                    Some((c + 1) as usize)
                },
            }
        },
        ActionV::PageUp => {
            &&& post.items_spec() == pre.items_spec()
            &&& post.query_spec() == pre.query_spec()
            &&& post.order_spec() == pre.order_spec()
            &&& post.cursor_spec() == match pre.cursor_spec() {
                None => None::<usize>,
                Some(c) => if c >= PAGE_SIZE {
                    Some((c - PAGE_SIZE) as usize)
                } else {
                    Some(0usize)
                },
            }
        },
        ActionV::PageDown => {
            &&& post.items_spec() == pre.items_spec()
            &&& post.query_spec() == pre.query_spec()
            &&& post.order_spec() == pre.order_spec()
            &&& post.cursor_spec() == match pre.cursor_spec() {
                None => None::<usize>,
                Some(c) => if c + PAGE_SIZE < pre.order_spec().len() {
                    Some((c + PAGE_SIZE) as usize)
                } else {
                    Some((pre.order_spec().len() - 1) as usize)
                },
            }
        },
        _ => post == pre,
    }
}

/// The application state: the active view, the optional dialog, one list
/// controller per view, and the last user-visible message.
pub struct App {
    view: Screen,
    dialog: Option<Dialog>,
    sessions: FuzzyList<TmuxSession>,
    worktrees: FuzzyList<GitWorktree>,
    commands: FuzzyList<PaletteCommand>,
    buffers: FuzzyList<NvimBuffer>,
    message: Option<String>,
}

impl App {
    /// The active view.
    pub closed spec fn view_spec(&self) -> Screen {
        self.view
    }

    /// The open dialog, if any.
    pub closed spec fn dialog_spec(&self) -> Option<Dialog> {
        self.dialog
    }

    /// The session list controller.
    pub closed spec fn sessions_spec(&self) -> FuzzyList<TmuxSession> {
        self.sessions
    }

    /// The worktree list controller.
    pub closed spec fn worktrees_spec(&self) -> FuzzyList<GitWorktree> {
        self.worktrees
    }

    /// The palette list controller.
    pub closed spec fn commands_spec(&self) -> FuzzyList<PaletteCommand> {
        self.commands
    }

    /// The buffer list controller.
    pub closed spec fn buffers_spec(&self) -> FuzzyList<NvimBuffer> {
        self.buffers
    }

    /// The last user-visible message, if any.
    pub closed spec fn message_spec(&self) -> Option<Seq<char>> {
        match self.message {
            Some(m) => Some(m@),
            None => None,
        }
    }

    /// Every list controller satisfies its cursor invariant.
    pub open spec fn wf(&self) -> bool {
        &&& self.sessions_spec().wf()
        &&& self.worktrees_spec().wf()
        &&& self.commands_spec().wf()
        &&& self.buffers_spec().wf()
    }

    /// All four list controllers are unchanged between two states.
    pub open spec fn lists_unchanged(pre: &App, post: &App) -> bool {
        &&& post.sessions_spec() == pre.sessions_spec()
        &&& post.worktrees_spec() == pre.worktrees_spec()
        &&& post.commands_spec() == pre.commands_spec()
        &&& post.buffers_spec() == pre.buffers_spec()
    }

    /// The active view's controller made one list-edit step; the other three
    /// are unchanged.
    pub open spec fn active_list_steps(pre: &App, post: &App, a: ActionV) -> bool {
        match pre.view_spec() {
            Screen::SessionPicker => {
                &&& steps_list(pre.sessions_spec(), post.sessions_spec(), a)
                &&& post.worktrees_spec() == pre.worktrees_spec()
                &&& post.commands_spec() == pre.commands_spec()
                &&& post.buffers_spec() == pre.buffers_spec()
            },
            Screen::CommandPalette => {
                &&& steps_list(pre.commands_spec(), post.commands_spec(), a)
                &&& post.sessions_spec() == pre.sessions_spec()
                &&& post.worktrees_spec() == pre.worktrees_spec()
                &&& post.buffers_spec() == pre.buffers_spec()
            },
            Screen::WorktreePicker => {
                &&& steps_list(pre.worktrees_spec(), post.worktrees_spec(), a)
                &&& post.sessions_spec() == pre.sessions_spec()
                &&& post.commands_spec() == pre.commands_spec()
                &&& post.buffers_spec() == pre.buffers_spec()
            },
            Screen::BufferPicker => {
                &&& steps_list(pre.buffers_spec(), post.buffers_spec(), a)
                &&& post.sessions_spec() == pre.sessions_spec()
                &&& post.worktrees_spec() == pre.worktrees_spec()
                &&& post.commands_spec() == pre.commands_spec()
            },
        }
    }

    /// A fresh application showing `view`, with no dialog, empty lists, and
    /// no message.
    pub fn new(view: Screen) -> (r: App)
        ensures
            r.wf(),
            r.view_spec() == view,
            r.dialog_spec() is None,
            r.message_spec() is None,
            r.sessions_spec().items_spec().len() == 0,
            r.worktrees_spec().items_spec().len() == 0,
            r.buffers_spec().items_spec().len() == 0,
            r.commands_spec().items_spec().len() == 0,
    {
        App {
            view,
            dialog: None,
            sessions: FuzzyList::new(String::from_str("Sessions")),
            worktrees: FuzzyList::new(String::from_str("Worktrees")),
            commands: FuzzyList::new(String::from_str("Commands")),
            buffers: FuzzyList::new(String::from_str("Buffers")),
            message: None,
        }
    }

    /// Replaces the session candidates.
    pub fn set_sessions(&mut self, items: Vec<TmuxSession>)
        requires
            old(self).wf(),
            items_scorable(items@),
        ensures
            final(self).wf(),
            final(self).sessions_spec().items_spec() == items@,
            final(self).sessions_spec().order_current(),
            final(self).sessions_spec().query_spec() == old(self).sessions_spec().query_spec(),
            final(self).sessions_spec().cursor_spec() == clamp_cursor(
                old(self).sessions_spec().cursor_spec(),
                final(self).sessions_spec().order_spec().len(),
            ),
            final(self).view_spec() == old(self).view_spec(),
            final(self).dialog_spec() == old(self).dialog_spec(),
            final(self).worktrees_spec() == old(self).worktrees_spec(),
            final(self).commands_spec() == old(self).commands_spec(),
            final(self).buffers_spec() == old(self).buffers_spec(),
    {
        self.sessions.set_items(items);
    }

    /// Replaces the worktree candidates.
    pub fn set_worktrees(&mut self, items: Vec<GitWorktree>)
        requires
            old(self).wf(),
            items_scorable(items@),
        ensures
            final(self).wf(),
            final(self).worktrees_spec().items_spec() == items@,
            final(self).worktrees_spec().order_current(),
            final(self).worktrees_spec().query_spec() == old(self).worktrees_spec().query_spec(),
            final(self).worktrees_spec().cursor_spec() == clamp_cursor(
                old(self).worktrees_spec().cursor_spec(),
                final(self).worktrees_spec().order_spec().len(),
            ),
            final(self).view_spec() == old(self).view_spec(),
            final(self).dialog_spec() == old(self).dialog_spec(),
            final(self).sessions_spec() == old(self).sessions_spec(),
            final(self).commands_spec() == old(self).commands_spec(),
            final(self).buffers_spec() == old(self).buffers_spec(),
    {
        self.worktrees.set_items(items);
    }

    /// Replaces the palette's commands.
    pub fn set_commands(&mut self, items: Vec<PaletteCommand>)
        requires
            old(self).wf(),
            items_scorable(items@),
        ensures
            final(self).wf(),
            final(self).commands_spec().items_spec() == items@,
            final(self).commands_spec().order_current(),
            final(self).commands_spec().query_spec() == old(self).commands_spec().query_spec(),
            final(self).view_spec() == old(self).view_spec(),
            final(self).dialog_spec() == old(self).dialog_spec(),
            final(self).sessions_spec() == old(self).sessions_spec(),
            final(self).worktrees_spec() == old(self).worktrees_spec(),
            final(self).buffers_spec() == old(self).buffers_spec(),
    {
        self.commands.set_items(items);
    }

    /// Replaces the buffer candidates.
    pub fn set_buffers(&mut self, items: Vec<NvimBuffer>)
        requires
            old(self).wf(),
            items_scorable(items@),
        ensures
            final(self).wf(),
            final(self).buffers_spec().items_spec() == items@,
            final(self).buffers_spec().order_current(),
            final(self).buffers_spec().query_spec() == old(self).buffers_spec().query_spec(),
            final(self).view_spec() == old(self).view_spec(),
            final(self).dialog_spec() == old(self).dialog_spec(),
            final(self).sessions_spec() == old(self).sessions_spec(),
            final(self).worktrees_spec() == old(self).worktrees_spec(),
            final(self).commands_spec() == old(self).commands_spec(),
    {
        self.buffers.set_items(items);
    }

    /// Records a user-visible message.
    pub fn set_message(&mut self, m: Option<String>)
        ensures
            final(self).message_spec() == match m {
                Some(s) => Some(s@),
                None => None::<Seq<char>>,
            },
            final(self).view_spec() == old(self).view_spec(),
            final(self).dialog_spec() == old(self).dialog_spec(),
            App::lists_unchanged(old(self), final(self)),
            old(self).wf() ==> final(self).wf(),
    {
        self.message = m;
    }

    /// The last user-visible message.
    pub fn message(&self) -> (r: &Option<String>)
        ensures
            match (r, self.message_spec()) {
                (Some(m), Some(v)) => m@ == v,
                (None, None) => true,
                _ => false,
            },
    {
        &self.message
    }

    /// The active view.
    pub fn view(&self) -> (r: Screen)
        ensures
            r == self.view_spec(),
    {
        self.view
    }

    /// The open dialog, for rendering.
    pub fn dialog(&self) -> (r: &Option<Dialog>)
        ensures
            r == self.dialog_spec(),
    {
        &self.dialog
    }

    /// The session list controller, for rendering.
    pub fn sessions(&self) -> (r: &FuzzyList<TmuxSession>)
        ensures
            r == self.sessions_spec(),
    {
        &self.sessions
    }

    /// The worktree list controller, for rendering.
    pub fn worktrees(&self) -> (r: &FuzzyList<GitWorktree>)
        ensures
            r == self.worktrees_spec(),
    {
        &self.worktrees
    }

    /// The palette list controller, for rendering.
    pub fn commands(&self) -> (r: &FuzzyList<PaletteCommand>)
        ensures
            r == self.commands_spec(),
    {
        &self.commands
    }

    /// The buffer list controller, for rendering.
    pub fn buffers(&self) -> (r: &FuzzyList<NvimBuffer>)
        ensures
            r == self.buffers_spec(),
    {
        &self.buffers
    }

    /// Routes one action while a dialog is open.
    fn handle_dialog_action(&mut self, action: &Action) -> (r: Response)
        requires
            old(self).wf(),
            old(self).dialog_spec() is Some,
        ensures
            final(self).wf(),
            final(self).view_spec() == old(self).view_spec(),
            final(self).message_spec() == old(self).message_spec(),
            App::lists_unchanged(old(self), final(self)),
            !r.quit,
            ({
                let dlg = old(self).dialog_spec().unwrap();
                let em = dialog_emit_spec(dlg, action@);
                match em {
                    None => final(self).dialog_spec() matches Some(d2) && dialog_steps_to(
                        dlg,
                        action@,
                        d2,
                    ) && r.effect is None && !r.render,
                    Some(follow) => if follow == ActionV::Render {
                        final(self).dialog_spec() matches Some(d2) && dialog_steps_to(
                            dlg,
                            action@,
                            d2,
                        ) && r.effect is None && r.render
                    } else if follow == ActionV::CloseDialog {
                        final(self).dialog_spec() is None && r.effect is None && r.render
                    } else {
                        final(self).dialog_spec() is None && opt_effect_view(r.effect)
                            == domain_effect(follow) && domain_effect(follow) is Some && r.render
                    },
                }
            }),
    {
        let emitted: Option<Action> = match &mut self.dialog {
            Some(Dialog::Confirm(d)) => match d.handle_action(action) {
                Ok(e) => e,
                Err(_) => None,
            },
            Some(Dialog::Input(d)) => match d.handle_action(action) {
                Ok(e) => e,
                Err(_) => None,
            },
            None => None,
        };
        match emitted {
            None => Response { effect: None, render: false, quit: false },
            Some(Action::Render) => Response { effect: None, render: true, quit: false },
            Some(Action::CloseDialog) => {
                self.dialog = None;
                Response { effect: None, render: true, quit: false }
            },
            Some(follow) => {
                self.dialog = None;
                let effect: Option<Effect> = match follow {
                    Action::SwitchSession(n) => Some(Effect::SwitchSession(n)),
                    Action::CreateSession(n, d) => Some(Effect::CreateSession(n, d)),
                    Action::KillSession(n) => Some(Effect::KillSession(n)),
                    Action::DeleteWorktree(p) => Some(Effect::DeleteWorktree(p)),
                    Action::MergeWorktree(p) => Some(Effect::MergeWorktree(p)),
                    Action::CreateWorktree(b) => Some(Effect::CreateWorktree(b)),
                    _ => None,
                };
                proof {
                    let dlg = old(self).dialog_spec().unwrap();
                    let em = dialog_emit_spec(dlg, action@);
                    assert(em == Some(follow@));
                }
                Response { effect, render: true, quit: false }
            },
        }
    }

    /// Routes one action: an open dialog sees it first; otherwise query edits
    /// and cursor movements go to the active view's list, enter selects, and
    /// the workflow keys open dialogs.
    pub fn handle_action(&mut self, action: &Action) -> (r: Response)
        requires
            old(self).wf(),
        ensures
            final(self).wf(),
            // A modal dialog intercepts everything.
            old(self).dialog_spec() matches Some(dlg) ==> ({
                let em = dialog_emit_spec(dlg, action@);
                &&& final(self).view_spec() == old(self).view_spec()
                &&& App::lists_unchanged(old(self), final(self))
                &&& !r.quit
                &&& (em is None ==> (final(self).dialog_spec() matches Some(d2) && dialog_steps_to(
                    dlg,
                    action@,
                    d2,
                ) && r.effect is None && !r.render))
                &&& (em == Some(ActionV::Render) ==> (final(self).dialog_spec() matches Some(d2)
                    && dialog_steps_to(dlg, action@, d2) && r.effect is None && r.render))
                &&& (em == Some(ActionV::CloseDialog) ==> (final(self).dialog_spec() is None
                    && r.effect is None && r.render))
                &&& (match em {
                    Some(follow) => domain_effect(follow) is Some ==> (final(self).dialog_spec()
                        is None && opt_effect_view(r.effect) == domain_effect(follow) && r.render),
                    None => true,
                })
            }),
            // Without a dialog, list edits go to the active view's controller.
            old(self).dialog_spec() is None && is_list_edit(action@) ==> ({
                &&& App::active_list_steps(old(self), final(self), action@)
                &&& final(self).view_spec() == old(self).view_spec()
                &&& final(self).dialog_spec() is None
                &&& r.effect is None
                &&& r.render
                &&& !r.quit
            }),
            // Escape and the quit action leave the program.
            old(self).dialog_spec() is None && (action@ == ActionV::Escape || action@
                == ActionV::Quit) ==> ({
                &&& App::lists_unchanged(old(self), final(self))
                &&& r.quit
                &&& r.effect is None
            }),
            // Domain actions become the matching collaborator call.
            old(self).dialog_spec() is None && domain_effect(action@) is Some ==> ({
                &&& App::lists_unchanged(old(self), final(self))
                &&& final(self).view_spec() == old(self).view_spec()
                &&& final(self).dialog_spec() is None
                &&& opt_effect_view(r.effect) == domain_effect(action@)
                &&& !r.quit
            }),
            // Enter selects.
            old(self).dialog_spec() is None && action@ == ActionV::Enter ==> enter_spec(
                old(self),
                final(self),
                r,
            ),
            // The creation key opens the view's input dialog.
            old(self).dialog_spec() is None && action@ == ActionV::NewItem ==> ({
                &&& App::lists_unchanged(old(self), final(self))
                &&& final(self).view_spec() == old(self).view_spec()
                &&& r.effect is None
                &&& r.render
                &&& !r.quit
                &&& (old(self).view_spec() == Screen::SessionPicker ==> opens_input(
                    final(self),
                    "New Session"@,
                    InputCallback::CreateSession,
                ))
                &&& (old(self).view_spec() == Screen::WorktreePicker ==> opens_input(
                    final(self),
                    "New Worktree"@,
                    InputCallback::CreateWorktree,
                ))
                &&& (old(self).view_spec() == Screen::CommandPalette || old(self).view_spec()
                    == Screen::BufferPicker ==> final(self).dialog_spec() is None)
            }),
            // The deletion key opens a confirmation bound to the selected entry.
            old(self).dialog_spec() is None && action@ == ActionV::DeleteItem ==> ({
                &&& App::lists_unchanged(old(self), final(self))
                &&& final(self).view_spec() == old(self).view_spec()
                &&& r.effect is None
                &&& r.render
                &&& !r.quit
                &&& (old(self).view_spec() == Screen::SessionPicker ==> match selected_session_name(
                    old(self).sessions_spec(),
                ) {
                    Some(name) => opens_confirm(final(self), ConfirmCallbackV::KillSession(name)),
                    None => final(self).dialog_spec() is None,
                })
                &&& (old(self).view_spec() == Screen::WorktreePicker ==> match selected_worktree_path(
                    old(self).worktrees_spec(),
                ) {
                    Some(path) => opens_confirm(
                        final(self),
                        ConfirmCallbackV::DeleteWorktree(path),
                    ),
                    None => final(self).dialog_spec() is None,
                })
                &&& (old(self).view_spec() == Screen::CommandPalette || old(self).view_spec()
                    == Screen::BufferPicker ==> final(self).dialog_spec() is None)
            }),
            // The merge key opens a confirmation bound to the selected worktree.
            old(self).dialog_spec() is None && action@ == ActionV::MergeItem ==> ({
                &&& App::lists_unchanged(old(self), final(self))
                &&& final(self).view_spec() == old(self).view_spec()
                &&& r.effect is None
                &&& r.render
                &&& !r.quit
                &&& (old(self).view_spec() == Screen::WorktreePicker ==> match selected_worktree_path(
                    old(self).worktrees_spec(),
                ) {
                    Some(path) => opens_confirm(final(self), ConfirmCallbackV::MergeWorktree(path)),
                    None => final(self).dialog_spec() is None,
                })
                &&& (old(self).view_spec() != Screen::WorktreePicker ==> final(self).dialog_spec()
                    is None)
            }),
            // Lifecycle signals change nothing.
            old(self).dialog_spec() is None && (action@ == ActionV::Render || action@
                == ActionV::CloseDialog) ==> ({
                &&& App::lists_unchanged(old(self), final(self))
                &&& final(self).view_spec() == old(self).view_spec()
                &&& final(self).dialog_spec() is None
                &&& r.effect is None
                &&& !r.quit
                &&& r.render == (action@ == ActionV::Render)
            }),
            final(self).message_spec() == old(self).message_spec(),
    {
        if self.dialog.is_some() {
            return self.handle_dialog_action(action);
        }
        match action {
            Action::Character(c) => {
                match self.view {
                    Screen::SessionPicker => self.sessions.push_char(*c),
                    Screen::CommandPalette => self.commands.push_char(*c),
                    Screen::WorktreePicker => self.worktrees.push_char(*c),
                    Screen::BufferPicker => self.buffers.push_char(*c),
                }
                Response { effect: None, render: true, quit: false }
            },
            Action::Backspace => {
                match self.view {
                    Screen::SessionPicker => self.sessions.pop_char(),
                    Screen::CommandPalette => self.commands.pop_char(),
                    Screen::WorktreePicker => self.worktrees.pop_char(),
                    Screen::BufferPicker => self.buffers.pop_char(),
                }
                Response { effect: None, render: true, quit: false }
            },
            Action::MoveUp => {
                match self.view {
                    Screen::SessionPicker => self.sessions.move_up(),
                    Screen::CommandPalette => self.commands.move_up(),
                    Screen::WorktreePicker => self.worktrees.move_up(),
                    Screen::BufferPicker => self.buffers.move_up(),
                }
                Response { effect: None, render: true, quit: false }
            },
            Action::MoveDown => {
                match self.view {
                    Screen::SessionPicker => self.sessions.move_down(),
                    Screen::CommandPalette => self.commands.move_down(),
                    Screen::WorktreePicker => self.worktrees.move_down(),
                    Screen::BufferPicker => self.buffers.move_down(),
                }
                Response { effect: None, render: true, quit: false }
            },
            Action::PageUp => {
                match self.view {
                    Screen::SessionPicker => self.sessions.page_up(PAGE_SIZE),
                    Screen::CommandPalette => self.commands.page_up(PAGE_SIZE),
                    Screen::WorktreePicker => self.worktrees.page_up(PAGE_SIZE),
                    Screen::BufferPicker => self.buffers.page_up(PAGE_SIZE),
                }
                Response { effect: None, render: true, quit: false }
            },
            Action::PageDown => {
                match self.view {
                    Screen::SessionPicker => self.sessions.page_down(PAGE_SIZE),
                    Screen::CommandPalette => self.commands.page_down(PAGE_SIZE),
                    Screen::WorktreePicker => self.worktrees.page_down(PAGE_SIZE),
                    Screen::BufferPicker => self.buffers.page_down(PAGE_SIZE),
                }
                Response { effect: None, render: true, quit: false }
            },
            Action::Escape | Action::Quit => Response { effect: None, render: false, quit: true },
            Action::Render => Response { effect: None, render: true, quit: false },
            Action::CloseDialog => Response { effect: None, render: false, quit: false },
            Action::Enter => self.handle_enter(),
            Action::NewItem => {
                match self.view {
                    Screen::SessionPicker => {
                        self.dialog = Some(
                            Dialog::Input(
                                InputDialog::new(
                                    String::from_str("New Session"),
                                    InputCallback::CreateSession,
                                ),
                            ),
                        );
                    },
                    Screen::WorktreePicker => {
                        self.dialog = Some(
                            Dialog::Input(
                                InputDialog::new(
                                    String::from_str("New Worktree"),
                                    InputCallback::CreateWorktree,
                                ),
                            ),
                        );
                    },
                    _ => {},
                }
                Response { effect: None, render: true, quit: false }
            },
            Action::DeleteItem => {
                match self.view {
                    Screen::SessionPicker => {
                        let name: Option<String> = match self.sessions.selected() {
                            Some(s) => Some(s.name.clone()),
                            None => None,
                        };
                        match name {
                            Some(n) => {
                                let mut msg = String::from_str("Kill session '");
                                msg.append(n.as_str());
                                msg.append("'?");
                                self.dialog = Some(
                                    Dialog::Confirm(
                                        ConfirmDialog::new(
                                            String::from_str("Kill Session"),
                                            msg,
                                            ConfirmCallback::KillSession(n),
                                        ),
                                    ),
                                );
                            },
                            None => {},
                        }
                    },
                    Screen::WorktreePicker => {
                        let path: Option<String> = match self.worktrees.selected() {
                            Some(w) => Some(w.path.clone()),
                            None => None,
                        };
                        match path {
                            Some(p) => {
                                let mut msg = String::from_str("Delete worktree at '");
                                msg.append(p.as_str());
                                msg.append("'?");
                                self.dialog = Some(
                                    Dialog::Confirm(
                                        ConfirmDialog::new(
                                            String::from_str("Delete Worktree"),
                                            msg,
                                            ConfirmCallback::DeleteWorktree(p),
                                        ),
                                    ),
                                );
                            },
                            None => {},
                        }
                    },
                    _ => {},
                }
                Response { effect: None, render: true, quit: false }
            },
            Action::MergeItem => {
                match self.view {
                    Screen::WorktreePicker => {
                        let path: Option<String> = match self.worktrees.selected() {
                            Some(w) => Some(w.path.clone()),
                            None => None,
                        };
                        match path {
                            Some(p) => {
                                let mut msg = String::from_str("Merge worktree at '");
                                msg.append(p.as_str());
                                msg.append("' into main?");
                                self.dialog = Some(
                                    Dialog::Confirm(
                                        ConfirmDialog::new(
                                            String::from_str("Merge Worktree"),
                                            msg,
                                            ConfirmCallback::MergeWorktree(p),
                                        ),
                                    ),
                                );
                            },
                            None => {},
                        }
                    },
                    _ => {},
                }
                Response { effect: None, render: true, quit: false }
            },
            Action::SwitchSession(n) => Response {
                effect: Some(Effect::SwitchSession(n.clone())),
                render: true,
                quit: false,
            },
            Action::CreateSession(n, d) => Response {
                effect: Some(Effect::CreateSession(n.clone(), d.clone())),
                render: true,
                quit: false,
            },
            Action::KillSession(n) => Response {
                effect: Some(Effect::KillSession(n.clone())),
                render: true,
                quit: false,
            },
            Action::DeleteWorktree(p) => Response {
                effect: Some(Effect::DeleteWorktree(p.clone())),
                render: true,
                quit: false,
            },
            Action::MergeWorktree(p) => Response {
                effect: Some(Effect::MergeWorktree(p.clone())),
                render: true,
                quit: false,
            },
            Action::CreateWorktree(b) => Response {
                effect: Some(Effect::CreateWorktree(b.clone())),
                render: true,
                quit: false,
            },
        }
    }

    /// Enter selects: a session switches to it, a worktree opens it, a buffer
    /// opens it, and a palette command runs.
    fn handle_enter(&mut self) -> (r: Response)
        requires
            old(self).wf(),
            old(self).dialog_spec() is None,
        ensures
            final(self).wf(),
            final(self).message_spec() == old(self).message_spec(),
            enter_spec(old(self), final(self), r),
    {
        match self.view {
            Screen::SessionPicker => {
                let name: Option<String> = match self.sessions.selected() {
                    Some(s) => Some(s.name.clone()),
                    None => None,
                };
                match name {
                    Some(n) => Response {
                        effect: Some(Effect::SwitchSession(n)),
                        render: false,
                        quit: true,
                    },
                    None => Response { effect: None, render: false, quit: false },
                }
            },
            Screen::WorktreePicker => {
                let path: Option<String> = match self.worktrees.selected() {
                    Some(w) => Some(w.path.clone()),
                    None => None,
                };
                match path {
                    Some(p) => Response {
                        effect: Some(Effect::OpenWorktree(p)),
                        render: false,
                        quit: true,
                    },
                    None => Response { effect: None, render: false, quit: false },
                }
            },
            Screen::BufferPicker => {
                match self.buffers.selected_index() {
                    Some(idx) => Response {
                        effect: Some(Effect::OpenBufferAt(idx)),
                        render: false,
                        quit: true,
                    },
                    None => Response { effect: None, render: false, quit: false },
                }
            },
            Screen::CommandPalette => {
                let cmd: Option<PaletteCommand> = match self.commands.selected() {
                    Some(c) => Some(*c),
                    None => None,
                };
                match cmd {
                    Some(PaletteCommand::ListSessions) => {
                        self.view = Screen::SessionPicker;
                        self.sessions.reset();
                        Response {
                            effect: Some(Effect::RefreshSessions),
                            render: true,
                            quit: false,
                        }
                    },
                    Some(PaletteCommand::NewSession) => {
                        self.dialog = Some(
                            Dialog::Input(
                                InputDialog::new(
                                    String::from_str("New Session"),
                                    InputCallback::CreateSession,
                                ),
                            ),
                        );
                        Response { effect: None, render: true, quit: false }
                    },
                    Some(PaletteCommand::KillSession) => Response {
                        effect: Some(Effect::KillCurrentSession),
                        render: true,
                        quit: false,
                    },
                    Some(PaletteCommand::ListWorktrees) => {
                        self.view = Screen::WorktreePicker;
                        self.worktrees.reset();
                        Response {
                            effect: Some(Effect::RefreshWorktrees),
                            render: true,
                            quit: false,
                        }
                    },
                    Some(PaletteCommand::CreateWorktree) => {
                        self.dialog = Some(
                            Dialog::Input(
                                InputDialog::new(
                                    String::from_str("New Worktree"),
                                    InputCallback::CreateWorktree,
                                ),
                            ),
                        );
                        Response { effect: None, render: true, quit: false }
                    },
                    Some(PaletteCommand::FindFiles) => Response {
                        effect: Some(Effect::FindFiles),
                        render: true,
                        quit: false,
                    },
                    Some(PaletteCommand::ListBuffers) => {
                        self.view = Screen::BufferPicker;
                        self.buffers.reset();
                        Response {
                            effect: Some(Effect::RefreshBuffers),
                            render: true,
                            quit: false,
                        }
                    },
                    Some(PaletteCommand::GitDiff) => Response {
                        effect: Some(Effect::GitDiff),
                        render: true,
                        quit: false,
                    },
                    None => Response { effect: None, render: false, quit: false },
                }
            },
        }
    }
}

} // verus!
