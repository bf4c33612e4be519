//! Multiplexer sessions: the candidate type and the parser for the session
//! manager's listing output.

use vstd::prelude::*;

use crate::error::PmanError;
use crate::list::Searchable;
use crate::text::{
    all_digits, basename, basename_spec, contains_spec, contains_str, digits_val, parse_u64,
    split_on, split_on_spec, str_eq,
};

verus! {

/// One multiplexer session as the listing reports it.
#[derive(Clone, Debug)]
pub struct TmuxSession {
    /// The session's name.
    pub name: String,
    /// Whether a client is attached.
    pub attached: bool,
    /// The session's working directory, where the listing gave one.
    pub path: Option<String>,
    /// How many windows the session holds.
    pub windows: u64,
    /// The session's creation time, where the listing gave one.
    pub created: Option<u64>,
}

/// The spec-level shape of a [`TmuxSession`].
pub struct TmuxSessionV {
    /// See [`TmuxSession::name`].
    pub name: Seq<char>,
    /// See [`TmuxSession::attached`].
    pub attached: bool,
    /// See [`TmuxSession::path`].
    pub path: Option<Seq<char>>,
    /// See [`TmuxSession::windows`].
    pub windows: u64,
    /// See [`TmuxSession::created`].
    pub created: Option<u64>,
}

impl View for TmuxSession {
    type V = TmuxSessionV;

    open spec fn view(&self) -> TmuxSessionV {
        TmuxSessionV {
            name: self.name@,
            attached: self.attached,
            path: match &self.path {
                Some(p) => Some(p@),
                None => None,
            },
            windows: self.windows,
            created: self.created,
        }
    }
}

/// The status dot: filled when attached.
pub open spec fn status_dot(attached: bool) -> Seq<char> {
    if attached {
        "\u{25cf}"@
    } else {
        "\u{25cb}"@
    }
}

/// The full path as search text, or nothing.
pub open spec fn session_path_text(path: Option<Seq<char>>) -> Seq<char> {
    match path {
        Some(p) => p,
        None => Seq::<char>::empty(),
    }
}

impl TmuxSession {
    /// The filter matches on the name and the full working directory.
    pub fn search_text(&self) -> (r: String)
        ensures
            r@ == Searchable::search_spec(self),
    {
        let mut r = self.name.clone();
        r.append(" ");
        match &self.path {
            Some(p) => {
                r.append(p.as_str());
            },
            None => {},
        }
        proof {
            assert(r@ =~= Searchable::search_spec(self));
        }
        r
    }

    /// The list line: a status dot, the name, and the directory's last
    /// component in parentheses where one is known.
    pub fn display_name(&self) -> (r: String)
        ensures
            r@ == Searchable::display_spec(self),
    {
        let mut r = if self.attached {
            String::from_str("\u{25cf}")
        } else {
            String::from_str("\u{25cb}")
        };
        r.append(" ");
        r.append(self.name.as_str());
        match &self.path {
            Some(p) => {
                let base = basename(p.as_str());
                if base.unicode_len() > 0 {
                    r.append(" (");
                    r.append(base);
                    r.append(")");
                    proof {
                        assert(r@ =~= Searchable::display_spec(self));
                    }
                    return r;
                }
            },
            None => {},
        }
        proof {
            assert(r@ =~= Searchable::display_spec(self));
        }
        r
    }
}

impl Searchable for TmuxSession {
    open spec fn search_spec(&self) -> Seq<char> {
        self.name@ + " "@ + session_path_text(self@.path)
    }

    open spec fn display_spec(&self) -> Seq<char> {
        let base = match self@.path {
            Some(p) => basename_spec(p),
            None => Seq::<char>::empty(),
        };
        if base.len() == 0 {
            status_dot(self.attached) + " "@ + self.name@
        } else {
            status_dot(self.attached) + " "@ + self.name@ + " ("@ + base + ")"@
        }
    }

    fn search_text(&self) -> (r: String)
        ensures
            r@ == self.search_spec(),
    {
        TmuxSession::search_text(self)
    }

    fn display_name(&self) -> (r: String)
        ensures
            r@ == self.display_spec(),
    {
        TmuxSession::display_name(self)
    }
}

/// The window count a listing field yields: the numeral's value where it is
/// one, else one.
pub open spec fn windows_of(s: Seq<char>) -> u64 {
    if s.len() > 0 && all_digits(s) && digits_val(s) <= u64::MAX {
        digits_val(s) as u64
    } else {
        1u64
    }
}

/// The creation time a listing field yields, where it is a numeral.
pub open spec fn created_of(s: Seq<char>) -> Option<u64> {
    if s.len() > 0 && all_digits(s) && digits_val(s) <= u64::MAX {
        Some(digits_val(s) as u64)
    } else {
        None
    }
}

/// The session one listing line yields: tab-separated name, attached flag,
/// path, window count, and optionally creation time. Empty and short lines
/// yield nothing.
pub open spec fn parse_session_line_spec(line: Seq<char>) -> Option<TmuxSessionV> {
    let parts = split_on_spec(line, '\t');
    if line.len() == 0 {
        None
    } else if parts.len() >= 4 {
        Some(
            TmuxSessionV {
                name: parts[0],
                attached: parts[1] == seq!['1'],
                path: if parts[2].len() == 0 {
                    None
                } else {
                    Some(parts[2])
                },
                windows: windows_of(parts[3]),
                created: if parts.len() >= 5 {
                    created_of(parts[4])
                } else {
                    None
                },
            },
        )
    } else {
        None
    }
}

/// The sessions a sequence of listing lines yields, in order.
pub open spec fn sessions_of_lines(lines: Seq<Seq<char>>) -> Seq<TmuxSessionV>
    decreases lines.len(),
{
    if lines.len() == 0 {
        Seq::<TmuxSessionV>::empty()
    } else {
        let prefix = sessions_of_lines(lines.drop_last());
        match parse_session_line_spec(lines.last()) {
            Some(s) => prefix.push(s),
            None => prefix,
        }
    }
}

/// The sessions a whole listing yields.
pub open spec fn parse_sessions_spec(s: Seq<char>) -> Seq<TmuxSessionV> {
    sessions_of_lines(split_on_spec(s, '\n'))
}

/// The spec-level shapes of a session vector.
pub open spec fn session_views(v: Seq<TmuxSession>) -> Seq<TmuxSessionV> {
    v.map_values(|s: TmuxSession| s@)
}

/// Parses one listing line into a session, if it has enough fields.
fn parse_session_line(line: &str) -> (r: Option<TmuxSession>)
    ensures
        match (r, parse_session_line_spec(line@)) {
            (Some(s), Some(v)) => s@ == v,
            (None, None) => true,
            _ => false,
        },
{
    let len = line.unicode_len();
    if len == 0 {
        return None;
    }
    let parts = split_on(line, '\t');
    if parts.len() < 4 {
        return None;
    }
    proof {
        assert(parts.deep_view()[0] == parts@[0]@);
        assert(parts.deep_view()[1] == parts@[1]@);
        assert(parts.deep_view()[2] == parts@[2]@);
        assert(parts.deep_view()[3] == parts@[3]@);
        reveal_strlit("1");
        assert("1"@ =~= seq!['1']);
    }
    let name = parts[0].clone();
    let attached = str_eq(parts[1].as_str(), "1");
    let path = if parts[2].as_str().unicode_len() == 0 {
        None
    } else {
        Some(parts[2].clone())
    };
    let windows = match parse_u64(parts[3].as_str()) {
        Some(w) => w,
        None => 1,
    };
    let created = if parts.len() >= 5 {
        proof {
            assert(parts.deep_view()[4] == parts@[4]@);
        }
        parse_u64(parts[4].as_str())
    } else {
        None
    };
    Some(TmuxSession { name, attached, path, windows, created })
}

/// Parses the session manager's whole listing: one session per well-formed
/// line, in the listing's order.
pub fn parse_sessions(stdout: &str) -> (r: Vec<TmuxSession>)
    ensures
        session_views(r@) == parse_sessions_spec(stdout@),
{
    let lines = split_on(stdout, '\n');
    let mut out: Vec<TmuxSession> = Vec::new();
    let mut i: usize = 0;
    proof {
        assert(lines.deep_view().take(0) =~= Seq::<Seq<char>>::empty());
        assert(session_views(out@) =~= sessions_of_lines(lines.deep_view().take(0)));
    }
    while i < lines.len()
        invariant
            i <= lines.len(),
            lines.deep_view().len() == lines.len(),
            lines.deep_view() == split_on_spec(stdout@, '\n'),
            session_views(out@) == sessions_of_lines(lines.deep_view().take(i as int)),
        decreases lines.len() - i,
    {
        proof {
            assert(lines.deep_view()[i as int] == lines@[i as int]@);
            assert(lines.deep_view().take(i + 1).drop_last() =~= lines.deep_view().take(i as int));
            assert(lines.deep_view().take(i + 1).last() == lines.deep_view()[i as int]);
        }
        let ghost old_out = out@;
        match parse_session_line(lines[i].as_str()) {
            Some(s) => {
                out.push(s);
                proof {
                    assert(session_views(out@) =~= session_views(old_out).push(out@.last()@));
                }
            },
            None => {},
        }
        i += 1;
    }
    proof {
        assert(lines.deep_view().take(lines@.len() as int) =~= lines.deep_view());
    }
    out
}

/// How the listing call's outcome is read: a failed call whose error names a
/// missing server or missing sessions is an empty listing, any other failure
/// is the session manager's error, and a successful call is parsed.
pub fn interpret_sessions_output(ok: bool, stdout: &str, stderr: String) -> (r: Result<
    Vec<TmuxSession>,
    PmanError,
>)
    ensures
        ok ==> (r matches Ok(v) && session_views(v@) == parse_sessions_spec(stdout@)),
        !ok && (contains_spec(stderr@, "no server running"@) || contains_spec(
            stderr@,
            "no sessions"@,
        )) ==> (r matches Ok(v) && v@.len() == 0),
        !ok && !(contains_spec(stderr@, "no server running"@) || contains_spec(
            stderr@,
            "no sessions"@,
        )) ==> (r matches Err(e) && e == PmanError::SessionManagerError(stderr)),
{
    if !ok {
        if contains_str(stderr.as_str(), "no server running") || contains_str(
            stderr.as_str(),
            "no sessions",
        ) {
            return Ok(Vec::new());
        }
        return Err(PmanError::SessionManagerError(stderr));
    }
    Ok(parse_sessions(stdout))
}

} // verus!
