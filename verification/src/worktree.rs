//! Version-control worktrees: the candidate type and the parser for the
//! porcelain worktree listing.

use vstd::prelude::*;

use crate::list::Searchable;
use crate::text::{split_on, split_on_spec, starts_with_spec, str_eq, strip_prefix};

verus! {

/// One worktree as the porcelain listing reports it.
#[derive(Clone, Debug)]
pub struct GitWorktree {
    /// The worktree's path.
    pub path: String,
    /// The branch checked out there, or `(detached)`.
    pub branch: String,
    /// Whether the branch is the repository's main branch.
    pub is_main: bool,
    /// The commit the worktree is at.
    pub commit_hash: String,
    /// Whether the worktree holds uncommitted changes. The listing does not
    /// say; a separate status probe fills it in.
    pub has_changes: bool,
}

/// The spec-level shape of a [`GitWorktree`].
pub struct GitWorktreeV {
    /// See [`GitWorktree::path`].
    pub path: Seq<char>,
    /// See [`GitWorktree::branch`].
    pub branch: Seq<char>,
    /// See [`GitWorktree::is_main`].
    pub is_main: bool,
    /// See [`GitWorktree::commit_hash`].
    pub commit_hash: Seq<char>,
    /// See [`GitWorktree::has_changes`].
    pub has_changes: bool,
}

impl View for GitWorktree {
    type V = GitWorktreeV;

    open spec fn view(&self) -> GitWorktreeV {
        GitWorktreeV {
            path: self.path@,
            branch: self.branch@,
            is_main: self.is_main,
            commit_hash: self.commit_hash@,
            has_changes: self.has_changes,
        }
    }
}

impl GitWorktree {
    /// The filter matches on the branch and the path.
    pub fn search_text(&self) -> (r: String)
        ensures
            r@ == Searchable::search_spec(self),
    {
        let mut r = self.branch.clone();
        r.append(" ");
        r.append(self.path.as_str());
        proof {
            assert(r@ =~= Searchable::search_spec(self));
        }
        r
    }

    /// The list line: the branch, a dirtiness star, a short commit hash, and
    /// a main-branch marker.
    pub fn display_name(&self) -> (r: String)
        ensures
            r@ == Searchable::display_spec(self),
    {
        let mut r = self.branch.clone();
        if self.has_changes {
            r.append("*");
        }
        r.append(" (");
        let hash_len = self.commit_hash.as_str().unicode_len();
        if hash_len <= 7 {
            r.append(self.commit_hash.as_str());
        } else {
            r.append(self.commit_hash.as_str().substring_char(0, 7));
            proof {
                assert(self.commit_hash@.subrange(0, 7) =~= self.commit_hash@.take(7));
            }
        }
        r.append(")");
        if self.is_main {
            r.append(" [main]");
        }
        proof {
            assert(r@ =~= Searchable::display_spec(self));
        }
        r
    }
}

impl Searchable for GitWorktree {
    open spec fn search_spec(&self) -> Seq<char> {
        self.branch@ + " "@ + self.path@
    }

    open spec fn display_spec(&self) -> Seq<char> {
        let status = if self.has_changes {
            "*"@
        } else {
            Seq::<char>::empty()
        };
        let marker = if self.is_main {
            " [main]"@
        } else {
            Seq::<char>::empty()
        };
        let hash = if self.commit_hash@.len() <= 7 {
            self.commit_hash@
        } else {
            self.commit_hash@.take(7)
        };
        self.branch@ + status + " ("@ + hash + ")"@ + marker
    }

    fn search_text(&self) -> (r: String)
        ensures
            r@ == self.search_spec(),
    {
        GitWorktree::search_text(self)
    }

    fn display_name(&self) -> (r: String)
        ensures
            r@ == self.display_spec(),
    {
        GitWorktree::display_name(self)
    }
}

/// A fresh entry for the worktree at `path`: every other field is filled by
/// the lines that follow.
pub open spec fn fresh_worktree(path: Seq<char>) -> GitWorktreeV {
    GitWorktreeV {
        path: path,
        branch: Seq::<char>::empty(),
        is_main: false,
        commit_hash: Seq::<char>::empty(),
        has_changes: false,
    }
}

/// How one porcelain line changes the parsing state (the finished entries and
/// the entry under construction): a `worktree` line finishes the entry under
/// construction and starts a new one, `HEAD`, `branch`, and `detached` lines
/// fill the entry under construction, and anything else is ignored.
pub open spec fn worktree_line_step(
    acc: Seq<GitWorktreeV>,
    cur: Option<GitWorktreeV>,
    line: Seq<char>,
    main: Seq<char>,
) -> (Seq<GitWorktreeV>, Option<GitWorktreeV>) {
    if starts_with_spec(line, "worktree "@) {
        let finished = match cur {
            Some(w) => acc.push(w),
            None => acc,
        };
        (finished, Some(fresh_worktree(line.skip("worktree "@.len() as int))))
    } else if starts_with_spec(line, "HEAD "@) {
        match cur {
            Some(w) => (
                acc,
                Some(GitWorktreeV { commit_hash: line.skip("HEAD "@.len() as int), ..w }),
            ),
            None => (acc, cur),
        }
    } else if starts_with_spec(line, "branch refs/heads/"@) {
        let b = line.skip("branch refs/heads/"@.len() as int);
        match cur {
            Some(w) => (acc, Some(GitWorktreeV { branch: b, is_main: b == main, ..w })),
            None => (acc, cur),
        }
    } else if starts_with_spec(line, "branch "@) {
        let b = line.skip("branch "@.len() as int);
        match cur {
            Some(w) => (acc, Some(GitWorktreeV { branch: b, is_main: b == main, ..w })),
            None => (acc, cur),
        }
    } else if line == "detached"@ {
        match cur {
            Some(w) => (acc, Some(GitWorktreeV { branch: "(detached)"@, ..w })),
            None => (acc, cur),
        }
    } else {
        (acc, cur)
    }
}

/// The parsing state after a sequence of porcelain lines.
pub open spec fn worktree_fold(lines: Seq<Seq<char>>, main: Seq<char>) -> (
    Seq<GitWorktreeV>,
    Option<GitWorktreeV>,
)
    decreases lines.len(),
{
    if lines.len() == 0 {
        (Seq::<GitWorktreeV>::empty(), None::<GitWorktreeV>)
    } else {
        let st = worktree_fold(lines.drop_last(), main);
        worktree_line_step(st.0, st.1, lines.last(), main)
    }
}

/// The worktrees a whole porcelain listing yields: the finished entries plus
/// the one still under construction at the end.
pub open spec fn parse_worktrees_spec(s: Seq<char>, main: Seq<char>) -> Seq<GitWorktreeV> {
    let st = worktree_fold(split_on_spec(s, '\n'), main);
    match st.1 {
        Some(w) => st.0.push(w),
        None => st.0,
    }
}

/// The spec-level shapes of a worktree vector.
pub open spec fn worktree_views(v: Seq<GitWorktree>) -> Seq<GitWorktreeV> {
    v.map_values(|w: GitWorktree| w@)
}

/// The spec-level shape of the optional entry under construction.
pub open spec fn opt_worktree_view(o: Option<GitWorktree>) -> Option<GitWorktreeV> {
    match o {
        Some(w) => Some(w@),
        None => None,
    }
}

/// Parses the porcelain worktree listing against the given main-branch name.
/// Each entry's dirtiness flag starts out false; a separate status probe per
/// worktree fills it in.
pub fn parse_worktrees(stdout: &str, main_branch: &str) -> (r: Vec<GitWorktree>)
    ensures
        worktree_views(r@) == parse_worktrees_spec(stdout@, main_branch@),
{
    let lines = split_on(stdout, '\n');
    let mut acc: Vec<GitWorktree> = Vec::new();
    let mut cur: Option<GitWorktree> = None;
    let mut i: usize = 0;
    proof {
        assert(lines.deep_view().take(0) =~= Seq::<Seq<char>>::empty());
        assert(worktree_views(acc@) =~= worktree_fold(lines.deep_view().take(0), main_branch@).0);
    }
    while i < lines.len()
        invariant
            i <= lines.len(),
            lines.deep_view().len() == lines.len(),
            lines.deep_view() == split_on_spec(stdout@, '\n'),
            worktree_views(acc@) == worktree_fold(lines.deep_view().take(i as int), main_branch@).0,
            opt_worktree_view(cur) == worktree_fold(
                lines.deep_view().take(i as int),
                main_branch@,
            ).1,
        decreases lines.len() - i,
    {
        proof {
            assert(lines.deep_view()[i as int] == lines@[i as int]@);
            assert(lines.deep_view().take(i + 1).drop_last() =~= lines.deep_view().take(i as int));
            assert(lines.deep_view().take(i + 1).last() == lines.deep_view()[i as int]);
        }
        let line = lines[i].as_str();
        let ghost old_acc = acc@;
        if let Some(rest) = strip_prefix(line, "worktree ") {
            match cur.take() {
                Some(w) => {
                    acc.push(w);
                    proof {
                        assert(worktree_views(acc@) =~= worktree_views(old_acc).push(
                            acc@.last()@,
                        ));
                    }
                },
                None => {},
            }
            cur = Some(
                GitWorktree {
                    path: rest.to_owned(),
                    branch: String::new(),
                    is_main: false,
                    commit_hash: String::new(),
                    has_changes: false,
                },
            );
        } else if let Some(rest) = strip_prefix(line, "HEAD ") {
            match &mut cur {
                Some(w) => {
                    w.commit_hash = rest.to_owned();
                },
                None => {},
            }
        } else if let Some(rest) = strip_prefix(line, "branch refs/heads/") {
            match &mut cur {
                Some(w) => {
                    w.branch = rest.to_owned();
                    w.is_main = str_eq(w.branch.as_str(), main_branch);
                },
                None => {},
            }
        } else if let Some(rest) = strip_prefix(line, "branch ") {
            match &mut cur {
                Some(w) => {
                    w.branch = rest.to_owned();
                    w.is_main = str_eq(w.branch.as_str(), main_branch);
                },
                None => {},
            }
        } else if str_eq(line, "detached") {
            match &mut cur {
                Some(w) => {
                    w.branch = String::from_str("(detached)");
                },
                None => {},
            }
        }
        i += 1;
    }
    proof {
        assert(lines.deep_view().take(lines@.len() as int) =~= lines.deep_view());
    }
    match cur {
        Some(w) => {
            let ghost old_acc = acc@;
            acc.push(w);
            proof {
                assert(worktree_views(acc@) =~= worktree_views(old_acc).push(acc@.last()@));
            }
        },
        None => {},
    }
    acc
}

} // verus!
