//! The command palette's candidate type: the fixed set of commands.

use vstd::prelude::*;

use crate::list::Searchable;

verus! {

/// One command the palette can run.
#[derive(Clone, Copy, Debug, PartialEq, Eq, Structural)]
pub enum PaletteCommand {
    /// Switch between sessions.
    ListSessions,
    /// Create a session.
    NewSession,
    /// Kill the current session.
    KillSession,
    /// List and manage worktrees.
    ListWorktrees,
    /// Create a worktree.
    CreateWorktree,
    /// Find and open files.
    FindFiles,
    /// List open editor buffers.
    ListBuffers,
    /// Show the working diff.
    GitDiff,
}

impl PaletteCommand {
    /// Every command, in palette order.
    pub fn all() -> (r: Vec<PaletteCommand>)
        ensures
            r@ == seq![
                PaletteCommand::ListSessions,
                PaletteCommand::NewSession,
                PaletteCommand::KillSession,
                PaletteCommand::ListWorktrees,
                PaletteCommand::CreateWorktree,
                PaletteCommand::FindFiles,
                PaletteCommand::ListBuffers,
                PaletteCommand::GitDiff,
            ],
    {
        let mut r: Vec<PaletteCommand> = Vec::new();
        r.push(PaletteCommand::ListSessions);
        r.push(PaletteCommand::NewSession);
        r.push(PaletteCommand::KillSession);
        r.push(PaletteCommand::ListWorktrees);
        r.push(PaletteCommand::CreateWorktree);
        r.push(PaletteCommand::FindFiles);
        r.push(PaletteCommand::ListBuffers);
        r.push(PaletteCommand::GitDiff);
        proof {
            assert(r@ =~= seq![
                PaletteCommand::ListSessions,
                PaletteCommand::NewSession,
                PaletteCommand::KillSession,
                PaletteCommand::ListWorktrees,
                PaletteCommand::CreateWorktree,
                PaletteCommand::FindFiles,
                PaletteCommand::ListBuffers,
                PaletteCommand::GitDiff,
            ]);
        }
        r
    }

    /// The commands shown outside a repository.
    pub fn non_git_commands() -> (r: Vec<PaletteCommand>)
        ensures
            r@ == seq![
                PaletteCommand::ListSessions,
                PaletteCommand::NewSession,
                PaletteCommand::KillSession,
                PaletteCommand::FindFiles,
                PaletteCommand::ListBuffers,
            ],
    {
        let mut r: Vec<PaletteCommand> = Vec::new();
        r.push(PaletteCommand::ListSessions);
        r.push(PaletteCommand::NewSession);
        r.push(PaletteCommand::KillSession);
        r.push(PaletteCommand::FindFiles);
        r.push(PaletteCommand::ListBuffers);
        proof {
            assert(r@ =~= seq![
                PaletteCommand::ListSessions,
                PaletteCommand::NewSession,
                PaletteCommand::KillSession,
                PaletteCommand::FindFiles,
                PaletteCommand::ListBuffers,
            ]);
        }
        r
    }

    /// What `display_name` returns.
    pub open spec fn display_name_spec(&self) -> Seq<char> {
        match self {
            PaletteCommand::ListSessions => "List Sessions"@,
            PaletteCommand::NewSession => "New Session"@,
            PaletteCommand::KillSession => "Kill Session"@,
            PaletteCommand::ListWorktrees => "List Worktrees"@,
            PaletteCommand::CreateWorktree => "Create Worktree"@,
            PaletteCommand::FindFiles => "Find Files"@,
            PaletteCommand::ListBuffers => "List Buffers"@,
            PaletteCommand::GitDiff => "Git Diff"@,
        }
    }

    /// What `description` returns.
    pub open spec fn description_spec(&self) -> Seq<char> {
        match self {
            PaletteCommand::ListSessions => "Switch between tmux sessions"@,
            PaletteCommand::NewSession => "Create a new tmux session"@,
            PaletteCommand::KillSession => "Kill the current tmux session"@,
            PaletteCommand::ListWorktrees => "List and manage git worktrees"@,
            PaletteCommand::CreateWorktree => "Create a new git worktree"@,
            PaletteCommand::FindFiles => "Find and open files with fzf"@,
            PaletteCommand::ListBuffers => "List open buffers in nvim"@,
            PaletteCommand::GitDiff => "Show git diff in popup"@,
        }
    }

    /// The short name shown in the palette.
    pub fn display_name(&self) -> (r: String)
        ensures
            r@ == self.display_name_spec(),
    {
        let name: &'static str = match self {
            PaletteCommand::ListSessions => "List Sessions",
            PaletteCommand::NewSession => "New Session",
            PaletteCommand::KillSession => "Kill Session",
            PaletteCommand::ListWorktrees => "List Worktrees",
            PaletteCommand::CreateWorktree => "Create Worktree",
            PaletteCommand::FindFiles => "Find Files",
            PaletteCommand::ListBuffers => "List Buffers",
            PaletteCommand::GitDiff => "Git Diff",
        };
        String::from_str(name)
    }

    /// The palette matches on the name and the description together.
    pub fn search_text(&self) -> (r: String)
        ensures
            r@ == self.display_name_spec() + " "@ + self.description_spec(),
    {
        let name = self.display_name();
        let r = name.concat(" ").concat(self.description());
        proof {
            assert(r@ =~= self.display_name_spec() + " "@ + self.description_spec());
        }
        r
    }

    /// One line of explanation for the palette.
    pub fn description(&self) -> (r: &'static str)
        ensures
            r@ == self.description_spec(),
    {
        match self {
            PaletteCommand::ListSessions => "Switch between tmux sessions",
            PaletteCommand::NewSession => "Create a new tmux session",
            PaletteCommand::KillSession => "Kill the current tmux session",
            PaletteCommand::ListWorktrees => "List and manage git worktrees",
            PaletteCommand::CreateWorktree => "Create a new git worktree",
            PaletteCommand::FindFiles => "Find and open files with fzf",
            PaletteCommand::ListBuffers => "List open buffers in nvim",
            PaletteCommand::GitDiff => "Show git diff in popup",
        }
    }
}

impl Searchable for PaletteCommand {
    open spec fn search_spec(&self) -> Seq<char> {
        self.display_name_spec() + " "@ + self.description_spec()
    }

    open spec fn display_spec(&self) -> Seq<char> {
        self.display_name_spec()
    }

    fn search_text(&self) -> (r: String)
        ensures
            r@ == self.search_spec(),
    {
        PaletteCommand::search_text(self)
    }

    fn display_name(&self) -> (r: String)
        ensures
            r@ == self.display_spec(),
    {
        PaletteCommand::display_name(self)
    }
}

} // verus!
