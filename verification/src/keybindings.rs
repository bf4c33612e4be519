//! Editing the managed keybinding block in the multiplexer's configuration
//! text: the block is bounded by literal marker comments, appended whole, and
//! removed whole.

use vstd::prelude::*;

use crate::text::{
    contains_spec, contains_str, join_on, join_on_spec, split_on, split_on_spec, trim_end_spec,
};

verus! {

/// The comment that opens the managed block.
pub open spec fn block_start_marker() -> Seq<char> {
    "# pman keybindings (managed by pman)"@
}

/// The comment that closes the managed block.
pub open spec fn block_end_marker() -> Seq<char> {
    "# end pman keybindings"@
}

/// One popup binding line: a key, a popup size, the program's path, and the
/// subcommand to run.
pub open spec fn bind_line_spec(
    key: Seq<char>,
    size: Seq<char>,
    exe: Seq<char>,
    sub: Seq<char>,
) -> Seq<char> {
    "bind "@ + key + " display-popup -E -w "@ + size + "% -h "@ + size + "% \""@ + exe + " "@ + sub
        + "\"\n"@
}

/// The whole managed block for a program at this path.
pub open spec fn keybinding_block_spec(exe: Seq<char>) -> Seq<char> {
    "\n# pman keybindings (managed by pman)\n"@ + bind_line_spec(
        "s"@,
        "80"@,
        exe,
        "session-picker"@,
    ) + bind_line_spec("p"@, "80"@, exe, "command-palette"@) + bind_line_spec(
        "w"@,
        "80"@,
        exe,
        "worktrees"@,
    ) + bind_line_spec("f"@, "90"@, exe, "find-files"@) + bind_line_spec(
        "d"@,
        "90"@,
        exe,
        "git-diff"@,
    ) + "# end pman keybindings\n"@
}

fn bind_line(key: &str, size: &str, exe: &str, sub: &str) -> (r: String)
    ensures
        r@ == bind_line_spec(key@, size@, exe@, sub@),
{
    let mut r = String::from_str("bind ");
    r.append(key);
    r.append(" display-popup -E -w ");
    r.append(size);
    r.append("% -h ");
    r.append(size);
    r.append("% \"");
    r.append(exe);
    r.append(" ");
    r.append(sub);
    r.append("\"\n");
    proof {
        assert(r@ =~= bind_line_spec(key@, size@, exe@, sub@));
    }
    r
}

/// The managed block for a program at this path: five popup bindings between
/// the two marker comments.
pub fn keybinding_block(exe: &str) -> (r: String)
    ensures
        r@ == keybinding_block_spec(exe@),
{
    let mut r = String::from_str("\n# pman keybindings (managed by pman)\n");
    r.append(bind_line("s", "80", exe, "session-picker").as_str());
    r.append(bind_line("p", "80", exe, "command-palette").as_str());
    r.append(bind_line("w", "80", exe, "worktrees").as_str());
    r.append(bind_line("f", "90", exe, "find-files").as_str());
    r.append(bind_line("d", "90", exe, "git-diff").as_str());
    r.append("# end pman keybindings\n");
    proof {
        assert(r@ =~= keybinding_block_spec(exe@));
    }
    r
}

/// Whether a configuration already holds a managed block.
pub fn is_installed(config: &str) -> (r: bool)
    ensures
        r == contains_spec(config@, "# pman keybindings"@),
{
    contains_str(config, "# pman keybindings")
}

/// The configuration with the managed block for this program appended, or
/// nothing where one is already present: installing twice changes nothing.
pub fn install_into(config: &str, exe: &str) -> (r: Option<String>)
    ensures
        contains_spec(config@, "# pman keybindings"@) ==> r is None,
        !contains_spec(config@, "# pman keybindings"@) ==> (r matches Some(c) && c@ == trim_end_spec(
            config@,
        ) + "\n"@ + keybinding_block_spec(exe@)),
{
    if is_installed(config) {
        return None;
    }
    let mut r = crate::text::trim_end(config).to_owned();
    r.append("\n");
    r.append(keybinding_block(exe).as_str());
    proof {
        assert(r@ =~= trim_end_spec(config@) + "\n"@ + keybinding_block_spec(exe@));
    }
    Some(r)
}

/// How one line moves the removal state (the kept lines and whether the scan
/// is inside the managed block): marker lines toggle the flag and are
/// dropped, lines inside the block are dropped, everything else is kept.
pub open spec fn strip_step(st: (Seq<Seq<char>>, bool), line: Seq<char>) -> (Seq<Seq<char>>, bool) {
    if contains_spec(line, block_start_marker()) {
        (st.0, true)
    } else if contains_spec(line, block_end_marker()) {
        (st.0, false)
    } else if !st.1 {
        (st.0.push(line), st.1)
    } else {
        st
    }
}

/// The removal state after a sequence of lines.
pub open spec fn strip_fold(lines: Seq<Seq<char>>) -> (Seq<Seq<char>>, bool)
    decreases lines.len(),
{
    if lines.len() == 0 {
        (Seq::<Seq<char>>::empty(), false)
    } else {
        let st = strip_fold(lines.drop_last());
        strip_step(st, lines.last())
    }
}

/// The configuration with the managed block removed.
pub open spec fn uninstall_spec(config: Seq<char>) -> Seq<char> {
    join_on_spec(strip_fold(split_on_spec(config, '\n')).0, '\n')
}

/// Removes the managed block: the lines from the start marker through the end
/// marker drop out, everything else stays in order.
pub fn uninstall_from(config: &str) -> (r: String)
    ensures
        r@ == uninstall_spec(config@),
{
    let lines = split_on(config, '\n');
    let mut kept: Vec<String> = Vec::new();
    let mut inside: bool = false;
    let mut i: usize = 0;
    proof {
        assert(lines.deep_view().take(0) =~= Seq::<Seq<char>>::empty());
        assert(kept.deep_view() =~= strip_fold(lines.deep_view().take(0)).0);
    }
    while i < lines.len()
        invariant
            i <= lines.len(),
            lines.deep_view().len() == lines.len(),
            lines.deep_view() == split_on_spec(config@, '\n'),
            kept.deep_view() == strip_fold(lines.deep_view().take(i as int)).0,
            inside == strip_fold(lines.deep_view().take(i as int)).1,
        decreases lines.len() - i,
    {
        proof {
            assert(lines.deep_view()[i as int] == lines@[i as int]@);
            assert(lines.deep_view().take(i + 1).drop_last() =~= lines.deep_view().take(i as int));
            assert(lines.deep_view().take(i + 1).last() == lines.deep_view()[i as int]);
        }
        let line = lines[i].as_str();
        if contains_str(line, "# pman keybindings (managed by pman)") {
            inside = true;
        } else if contains_str(line, "# end pman keybindings") {
            inside = false;
        } else if !inside {
            let ghost old_kept = kept.deep_view();
            kept.push(line.to_owned());
            proof {
                assert(kept.deep_view() =~= old_kept.push(kept@.last()@));
            }
        }
        i += 1;
    }
    proof {
        assert(lines.deep_view().take(lines@.len() as int) =~= lines.deep_view());
    }
    join_on(&kept, '\n')
}

} // verus!
