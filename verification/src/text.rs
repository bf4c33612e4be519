//! Verified character-level utilities over `&str` and `String`.
//!
//! Collaborator output is parsed character by character, so everything here is
//! specified against the `Seq<char>` view. Candidate counts are small; the
//! O(n) character access of `get_char` is acceptable throughout.

use vstd::prelude::*;

verus! {

/// The whitespace characters `trim` removes at either end.
pub open spec fn is_space(c: char) -> bool {
    c == ' ' || c == '\t' || c == '\n' || c == '\r'
}

/// `s` begins with `p`.
pub open spec fn starts_with_spec(s: Seq<char>, p: Seq<char>) -> bool {
    p.len() <= s.len() && s.subrange(0, p.len() as int) == p
}

/// `p` occurs in `s` at position `i`.
pub open spec fn occurs_at(s: Seq<char>, p: Seq<char>, i: int) -> bool {
    0 <= i && i + p.len() <= s.len() && s.subrange(i, i + p.len()) == p
}

/// `p` occurs somewhere in `s`.
pub open spec fn contains_spec(s: Seq<char>, p: Seq<char>) -> bool {
    exists|i: int| occurs_at(s, p, i)
}

/// Whether the characters of two string slices are equal.
pub fn str_eq(a: &str, b: &str) -> (r: bool)
    ensures
        r == (a@ == b@),
{
    let alen = a.unicode_len();
    let blen = b.unicode_len();
    if alen != blen {
        proof {
            assert(a@ != b@) by {
                if a@ == b@ {
                    assert(a@.len() == b@.len());
                }
            }
        }
        return false;
    }
    let mut i: usize = 0;
    while i < alen
        invariant
            i <= alen,
            alen == a@.len(),
            alen == b@.len(),
            forall|j: int| 0 <= j < i ==> a@[j] == b@[j],
        decreases alen - i,
    {
        if a.get_char(i) != b.get_char(i) {
            return false;
        }
        i += 1;
    }
    proof {
        assert(a@ =~= b@);
    }
    true
}

/// Whether `s` begins with `p`.
pub fn starts_with(s: &str, p: &str) -> (r: bool)
    ensures
        r == starts_with_spec(s@, p@),
{
    let slen = s.unicode_len();
    let plen = p.unicode_len();
    if plen > slen {
        return false;
    }
    let mut i: usize = 0;
    while i < plen
        invariant
            i <= plen,
            plen <= slen,
            slen == s@.len(),
            plen == p@.len(),
            forall|j: int| 0 <= j < i ==> s@[j] == p@[j],
        decreases plen - i,
    {
        if s.get_char(i) != p.get_char(i) {
            proof {
                assert(s@.subrange(0, p@.len() as int)[i as int] == s@[i as int]);
            }
            return false;
        }
        i += 1;
    }
    proof {
        assert(s@.subrange(0, p@.len() as int) =~= p@);
    }
    true
}

/// The characters of `s` after a leading `p`, or `None` where `p` does not
/// lead.
pub fn strip_prefix<'a>(s: &'a str, p: &str) -> (r: Option<&'a str>)
    ensures
        starts_with_spec(s@, p@) <==> r is Some,
        r matches Some(rest) ==> rest@ == s@.skip(p@.len() as int),
{
    if starts_with(s, p) {
        let slen = s.unicode_len();
        let plen = p.unicode_len();
        Some(s.substring_char(plen, slen))
    } else {
        None
    }
}

/// Whether `p` occurs somewhere in `s`.
pub fn contains_str(s: &str, p: &str) -> (r: bool)
    ensures
        r == contains_spec(s@, p@),
{
    let slen = s.unicode_len();
    let plen = p.unicode_len();
    if plen > slen {
        proof {
            assert(!contains_spec(s@, p@)) by {
                if contains_spec(s@, p@) {
                    let i = choose|i: int| occurs_at(s@, p@, i);
                }
            }
        }
        return false;
    }
    if plen == 0 {
        proof {
            assert(s@.subrange(0, 0) =~= p@);
            assert(occurs_at(s@, p@, 0));
        }
        return true;
    }
    let mut i: usize = 0;
    while i <= slen - plen
        invariant
            0 < plen <= slen,
            slen == s@.len(),
            plen == p@.len(),
            i <= slen - plen + 1,
            forall|j: int| 0 <= j < i ==> !occurs_at(s@, p@, j),
        decreases slen - plen - i + 1,
    {
        let piece = s.substring_char(i, i + plen);
        if str_eq(piece, p) {
            proof {
                assert(occurs_at(s@, p@, i as int));
            }
            return true;
        }
        i += 1;
    }
    proof {
        assert(!contains_spec(s@, p@)) by {
            if contains_spec(s@, p@) {
                let j = choose|j: int| occurs_at(s@, p@, j);
                assert(0 <= j < i);
            }
        }
    }
    false
}

/// `s` with leading whitespace removed.
pub open spec fn trim_start_spec(s: Seq<char>) -> Seq<char>
    decreases s.len(),
{
    if s.len() > 0 && is_space(s[0]) {
        trim_start_spec(s.drop_first())
    } else {
        s
    }
}

/// `s` with trailing whitespace removed.
pub open spec fn trim_end_spec(s: Seq<char>) -> Seq<char>
    decreases s.len(),
{
    if s.len() > 0 && is_space(s.last()) {
        trim_end_spec(s.drop_last())
    } else {
        s
    }
}

/// `s` with whitespace removed at both ends.
pub open spec fn trim_spec(s: Seq<char>) -> Seq<char> {
    trim_end_spec(trim_start_spec(s))
}

/// Whether `c` is one of the whitespace characters `trim` removes.
pub fn is_space_char(c: char) -> (r: bool)
    ensures
        r == is_space(c),
{
    c == ' ' || c == '\t' || c == '\n' || c == '\r'
}

proof fn lemma_trim_start_bounds(s: Seq<char>, k: int)
    requires
        0 <= k <= s.len(),
        forall|j: int| 0 <= j < k ==> is_space(s[j]),
    ensures
        trim_start_spec(s) == trim_start_spec(s.skip(k)),
    decreases k,
{
    if k > 0 {
        assert(is_space(s[0]));
        assert(s.drop_first() =~= s.skip(1));
        lemma_trim_start_bounds(s.skip(1), k - 1);
        assert(s.skip(1).skip(k - 1) =~= s.skip(k));
    } else {
        assert(s.skip(0) =~= s);
    }
}

proof fn lemma_trim_end_bounds(s: Seq<char>, k: int)
    requires
        0 <= k <= s.len(),
        forall|j: int| k <= j < s.len() ==> is_space(s[j]),
    ensures
        trim_end_spec(s) == trim_end_spec(s.take(k)),
    decreases s.len() - k,
{
    if k < s.len() {
        assert(is_space(s.last()));
        assert(s.drop_last() =~= s.take(s.len() - 1));
        lemma_trim_end_bounds(s.take(s.len() - 1), k);
        assert(s.take(s.len() - 1).take(k) =~= s.take(k));
    } else {
        assert(s.take(s.len() as int) =~= s);
    }
}

/// `s` with whitespace removed at both ends.
pub fn trim(s: &str) -> (r: &str)
    ensures
        r@ == trim_spec(s@),
{
    let len = s.unicode_len();
    let mut a: usize = 0;
    while a < len && is_space_char(s.get_char(a))
        invariant
            a <= len,
            len == s@.len(),
            forall|j: int| 0 <= j < a ==> is_space(s@[j]),
        decreases len - a,
    {
        a += 1;
    }
    let mut b: usize = len;
    while b > a && is_space_char(s.get_char(b - 1))
        invariant
            a <= b <= len,
            len == s@.len(),
            forall|j: int| 0 <= j < a ==> is_space(s@[j]),
            forall|j: int| b <= j < len ==> is_space(s@[j]),
        decreases b,
    {
        b -= 1;
    }
    let r = s.substring_char(a, b);
    proof {
        lemma_trim_start_bounds(s@, a as int);
        let mid = s@.skip(a as int);
        if b == a {
            assert(mid.len() > 0 ==> is_space(mid[0]));
            if a < len {
                assert(is_space(s@[b as int]));
                assert(mid[0] == s@[a as int]);
            }
            assert(trim_start_spec(mid) =~= Seq::<char>::empty()) by {
                lemma_trim_start_all_space(mid);
            }
            assert(trim_end_spec(Seq::<char>::empty()) =~= Seq::<char>::empty());
            assert(r@ =~= Seq::<char>::empty());
        } else {
            assert(!is_space(s@[a as int]));
            assert(mid[0] == s@[a as int]);
            assert(trim_start_spec(mid) == mid);
            lemma_trim_end_bounds(mid, b - a);
            assert(mid.take(b - a) =~= s@.subrange(a as int, b as int));
            assert(!is_space(s@[b - 1]));
            assert(mid.take(b - a).last() == s@[b - 1]);
            assert(trim_end_spec(mid.take(b - a)) == mid.take(b - a));
        }
    }
    r
}

/// `s` with trailing whitespace removed.
pub fn trim_end(s: &str) -> (r: &str)
    ensures
        r@ == trim_end_spec(s@),
{
    let len = s.unicode_len();
    let mut b: usize = len;
    while b > 0 && is_space_char(s.get_char(b - 1))
        invariant
            b <= len,
            len == s@.len(),
            forall|j: int| b <= j < len ==> is_space(s@[j]),
        decreases b,
    {
        b -= 1;
    }
    let r = s.substring_char(0, b);
    proof {
        lemma_trim_end_bounds(s@, b as int);
        assert(r@ =~= s@.take(b as int));
        if b > 0 {
            assert(!is_space(s@[b - 1]));
            assert(s@.take(b as int).last() == s@[b - 1]);
        }
    }
    r
}

proof fn lemma_trim_start_all_space(s: Seq<char>)
    requires
        forall|j: int| 0 <= j < s.len() ==> is_space(s[j]),
    ensures
        trim_start_spec(s) == Seq::<char>::empty(),
    decreases s.len(),
{
    if s.len() > 0 {
        lemma_trim_start_all_space(s.drop_first());
    } else {
        assert(s =~= Seq::<char>::empty());
    }
}

/// Relies on `String::push`: appends the character at the end of the string.
#[verifier::external_body]
pub fn push_char(s: &mut String, c: char)
    ensures
        final(s)@ == old(s)@.push(c),
{
    s.push(c);
}

/// Relies on `String::pop`: removes and returns the last character, or returns
/// `None` and leaves the string unchanged when it is empty.
#[verifier::external_body]
pub fn pop_char(s: &mut String) -> (r: Option<char>)
    ensures
        old(s)@.len() == 0 ==> final(s)@ == old(s)@ && r is None,
        old(s)@.len() > 0 ==> final(s)@ == old(s)@.drop_last() && r == Some(old(s)@.last()),
{
    s.pop()
}

/// The pieces of `s` between occurrences of `sep`; always at least one piece,
/// and `n` separators give `n + 1` pieces.
pub open spec fn split_on_spec(s: Seq<char>, sep: char) -> Seq<Seq<char>>
    decreases s.len(),
{
    if s.len() == 0 {
        seq![Seq::<char>::empty()]
    } else if s[0] == sep {
        seq![Seq::<char>::empty()] + split_on_spec(s.drop_first(), sep)
    } else {
        let rest = split_on_spec(s.drop_first(), sep);
        seq![seq![s[0]] + rest[0]] + rest.skip(1)
    }
}

pub proof fn lemma_split_on_len(s: Seq<char>, sep: char)
    ensures
        split_on_spec(s, sep).len() >= 1,
    decreases s.len(),
{
    if s.len() > 0 {
        lemma_split_on_len(s.drop_first(), sep);
    }
}

proof fn lemma_split_on_push(s: Seq<char>, sep: char, c: char)
    ensures
        c == sep ==> split_on_spec(s.push(c), sep) == split_on_spec(s, sep).push(
            Seq::<char>::empty(),
        ),
        c != sep ==> split_on_spec(s.push(c), sep) == split_on_spec(s, sep).update(
            split_on_spec(s, sep).len() - 1,
            split_on_spec(s, sep).last().push(c),
        ),
    decreases s.len(),
{
    lemma_split_on_len(s, sep);
    let t = s.push(c);
    if s.len() == 0 {
        assert(t.len() == 1 && t[0] == c);
        if c == sep {
            assert(t.drop_first() =~= Seq::<char>::empty());
            assert(split_on_spec(t.drop_first(), sep) == seq![Seq::<char>::empty()]);
            assert(split_on_spec(t, sep) == seq![Seq::<char>::empty()] + seq![
                Seq::<char>::empty(),
            ]);
            assert(split_on_spec(s, sep) == seq![Seq::<char>::empty()]);
            assert(split_on_spec(t, sep) =~= split_on_spec(s, sep).push(Seq::<char>::empty()));
        } else {
            assert(t.drop_first() =~= Seq::<char>::empty());
            let rest = split_on_spec(t.drop_first(), sep);
            assert(seq![t[0]] + rest[0] =~= seq![c]);
            assert(rest.skip(1) =~= Seq::<Seq<char>>::empty());
            assert(split_on_spec(t, sep) =~= seq![seq![c]]);
            assert(split_on_spec(s, sep).last() =~= Seq::<char>::empty());
            assert(split_on_spec(s, sep).update(0, split_on_spec(s, sep).last().push(c)) =~= seq![
                seq![c],
            ]);
        }
    } else {
        assert(t.drop_first() =~= s.drop_first().push(c));
        lemma_split_on_push(s.drop_first(), sep, c);
        lemma_split_on_len(s.drop_first(), sep);
        let rest_old = split_on_spec(s.drop_first(), sep);
        let rest_new = split_on_spec(t.drop_first(), sep);
        if s[0] == sep {
            assert(t[0] == sep);
            assert(split_on_spec(t, sep) == seq![Seq::<char>::empty()] + rest_new);
            assert(split_on_spec(s, sep) == seq![Seq::<char>::empty()] + rest_old);
            if c == sep {
                assert(rest_new == rest_old.push(Seq::<char>::empty()));
                assert(split_on_spec(t, sep) =~= split_on_spec(s, sep).push(Seq::<char>::empty()));
            } else {
                assert(split_on_spec(s, sep).last() == rest_old.last());
                assert(split_on_spec(t, sep) =~= split_on_spec(s, sep).update(
                    split_on_spec(s, sep).len() - 1,
                    split_on_spec(s, sep).last().push(c),
                ));
            }
        } else {
            assert(t[0] == s[0] && t[0] != sep);
            if c == sep {
                assert(rest_new == rest_old.push(Seq::<char>::empty()));
                assert(rest_new[0] == rest_old[0]);
                assert(rest_new.skip(1) =~= rest_old.skip(1).push(Seq::<char>::empty()));
                assert(split_on_spec(t, sep) =~= split_on_spec(s, sep).push(Seq::<char>::empty()));
            } else {
                assert(rest_new == rest_old.update(rest_old.len() - 1, rest_old.last().push(c)));
                if rest_old.len() == 1 {
                    assert(rest_new[0] == rest_old.last().push(c));
                    assert(rest_new.skip(1) =~= rest_old.skip(1));
                    assert(split_on_spec(s, sep).last() == seq![s[0]] + rest_old[0]);
                    assert((seq![t[0]] + rest_new[0]) =~= (seq![s[0]] + rest_old[0]).push(c));
                    assert(split_on_spec(t, sep) =~= split_on_spec(s, sep).update(
                        split_on_spec(s, sep).len() - 1,
                        split_on_spec(s, sep).last().push(c),
                    ));
                } else {
                    assert(rest_new[0] == rest_old[0]);
                    assert(rest_new.skip(1) =~= rest_old.skip(1).update(
                        rest_old.skip(1).len() - 1,
                        rest_old.skip(1).last().push(c),
                    ));
                    assert(split_on_spec(s, sep).last() == rest_old.last());
                    assert(split_on_spec(t, sep) =~= split_on_spec(s, sep).update(
                        split_on_spec(s, sep).len() - 1,
                        split_on_spec(s, sep).last().push(c),
                    ));
                }
            }
        }
    }
}

/// Splits `s` at every occurrence of `sep`.
pub fn split_on(s: &str, sep: char) -> (r: Vec<String>)
    ensures
        r.deep_view() == split_on_spec(s@, sep),
        r.len() >= 1,
{
    let len = s.unicode_len();
    let mut pieces: Vec<String> = Vec::new();
    let mut cur: String = String::new();
    let mut i: usize = 0;
    proof {
        assert(s@.take(0) =~= Seq::<char>::empty());
        assert(pieces.deep_view().push(cur@) =~= split_on_spec(s@.take(0), sep));
    }
    while i < len
        invariant
            i <= len,
            len == s@.len(),
            pieces.deep_view().push(cur@) == split_on_spec(s@.take(i as int), sep),
        decreases len - i,
    {
        let c = s.get_char(i);
        proof {
            assert(s@.take(i + 1) =~= s@.take(i as int).push(s@[i as int]));
            lemma_split_on_push(s@.take(i as int), sep, c);
            lemma_split_on_len(s@.take(i as int), sep);
        }
        if c == sep {
            let ghost old_pieces = pieces.deep_view();
            let ghost old_cur = cur@;
            pieces.push(cur);
            cur = String::new();
            proof {
                assert(pieces.deep_view() =~= old_pieces.push(old_cur));
                assert(pieces.deep_view().push(cur@) =~= split_on_spec(s@.take(i as int),
                sep).push(Seq::<char>::empty()));
            }
        } else {
            let ghost old_split = split_on_spec(s@.take(i as int), sep);
            let ghost old_cur = cur@;
            push_char(&mut cur, c);
            proof {
                assert(old_split.last() == old_cur);
                assert(pieces.deep_view().push(cur@) =~= old_split.update(
                    old_split.len() - 1,
                    old_cur.push(c),
                ));
            }
        }
        i += 1;
    }
    proof {
        assert(s@.take(len as int) =~= s@);
    }
    let ghost old_pieces = pieces.deep_view();
    let ghost old_cur = cur@;
    pieces.push(cur);
    proof {
        assert(pieces.deep_view() =~= old_pieces.push(old_cur));
        lemma_split_on_len(s@, sep);
    }
    pieces
}

/// The pieces joined back with `sep` between each two.
pub open spec fn join_on_spec(pieces: Seq<Seq<char>>, sep: char) -> Seq<char>
    decreases pieces.len(),
{
    if pieces.len() == 0 {
        Seq::<char>::empty()
    } else if pieces.len() == 1 {
        pieces[0]
    } else {
        pieces[0] + seq![sep] + join_on_spec(pieces.drop_first(), sep)
    }
}

proof fn lemma_join_on_push(pieces: Seq<Seq<char>>, sep: char, x: Seq<char>)
    requires
        pieces.len() >= 1,
    ensures
        join_on_spec(pieces.push(x), sep) == join_on_spec(pieces, sep) + seq![sep] + x,
    decreases pieces.len(),
{
    if pieces.len() == 1 {
        let t = pieces.push(x);
        assert(t.drop_first() =~= seq![x]);
        assert(join_on_spec(seq![x], sep) == x);
        assert(join_on_spec(t, sep) == t[0] + seq![sep] + x);
        assert(t[0] == pieces[0]);
    } else {
        let t = pieces.push(x);
        assert(t.drop_first() =~= pieces.drop_first().push(x));
        lemma_join_on_push(pieces.drop_first(), sep, x);
        assert(join_on_spec(t, sep) == t[0] + seq![sep] + (join_on_spec(pieces.drop_first(), sep)
            + seq![sep] + x));
        assert(t[0] == pieces[0]);
        assert(pieces[0] + seq![sep] + (join_on_spec(pieces.drop_first(), sep) + seq![sep] + x)
            =~= (pieces[0] + seq![sep] + join_on_spec(pieces.drop_first(), sep)) + seq![sep] + x);
    }
}

/// Joins the pieces with `sep` between each two.
pub fn join_on(pieces: &Vec<String>, sep: char) -> (r: String)
    ensures
        r@ == join_on_spec(pieces.deep_view(), sep),
{
    let mut out = String::new();
    if pieces.len() == 0 {
        return out;
    }
    out.append(pieces[0].as_str());
    let mut i: usize = 1;
    proof {
        assert(pieces.deep_view().take(1) =~= seq![pieces.deep_view()[0]]);
        assert(out@ == join_on_spec(pieces.deep_view().take(1), sep));
    }
    while i < pieces.len()
        invariant
            1 <= i <= pieces.len(),
            pieces.deep_view().len() == pieces.len(),
            out@ == join_on_spec(pieces.deep_view().take(i as int), sep),
        decreases pieces.len() - i,
    {
        push_char(&mut out, sep);
        out.append(pieces[i].as_str());
        proof {
            assert(pieces.deep_view().take(i + 1) =~= pieces.deep_view().take(
                i as int,
            ).push(pieces.deep_view()[i as int]));
            lemma_join_on_push(pieces.deep_view().take(i as int), sep, pieces.deep_view()[i as int]);
        }
        i += 1;
    }
    proof {
        assert(pieces.deep_view().take(pieces.len() as int) =~= pieces.deep_view());
    }
    out
}

/// A decimal digit.
pub open spec fn is_digit(c: char) -> bool {
    '0' <= c && c <= '9'
}

/// Every character of `s` is a decimal digit.
pub open spec fn all_digits(s: Seq<char>) -> bool {
    forall|j: int| 0 <= j < s.len() ==> is_digit(#[trigger] s[j])
}

/// The value of one decimal digit.
pub open spec fn digit_val(c: char) -> int {
    c as int - '0' as int
}

/// The value of `s` read as a decimal numeral.
pub open spec fn digits_val(s: Seq<char>) -> int
    decreases s.len(),
{
    if s.len() == 0 {
        0
    } else {
        digits_val(s.drop_last()) * 10 + digit_val(s.last())
    }
}

proof fn lemma_digits_val_nonneg(s: Seq<char>)
    requires
        all_digits(s),
    ensures
        digits_val(s) >= 0,
    decreases s.len(),
{
    if s.len() > 0 {
        assert(all_digits(s.drop_last())) by {
            assert(forall|j: int|
                0 <= j < s.len() - 1 ==> #[trigger] s.drop_last()[j] == s[j]);
        }
        lemma_digits_val_nonneg(s.drop_last());
    }
}

proof fn lemma_digits_val_prefix(s: Seq<char>, i: int)
    requires
        all_digits(s),
        0 <= i <= s.len(),
    ensures
        digits_val(s) >= digits_val(s.take(i)),
    decreases s.len() - i,
{
    if i < s.len() {
        lemma_digits_val_prefix(s, i + 1);
        assert(s.take(i + 1).drop_last() =~= s.take(i));
        assert(s.take(i + 1).last() == s[i]);
        assert(forall|j: int| 0 <= j < i ==> #[trigger] s.take(i)[j] == s[j]);
        lemma_digits_val_nonneg(s.take(i));
    } else {
        assert(s.take(i) =~= s);
    }
}

/// Reads `s` as a decimal `u64`. Returns `None` on an empty string, a
/// non-digit character, or a value over `u64::MAX`.
pub fn parse_u64(s: &str) -> (r: Option<u64>)
    ensures
        r is Some <==> (s@.len() > 0 && all_digits(s@) && digits_val(s@) <= u64::MAX),
        r matches Some(v) ==> v == digits_val(s@),
{
    let len = s.unicode_len();
    if len == 0 {
        return None;
    }
    let mut val: u64 = 0;
    let mut i: usize = 0;
    while i < len
        invariant
            i <= len,
            len == s@.len(),
            all_digits(s@.take(i as int)),
            val == digits_val(s@.take(i as int)),
        decreases len - i,
    {
        let c = s.get_char(i);
        let code = c as u32;
        proof {
            assert(s@.take(i + 1).drop_last() =~= s@.take(i as int));
            assert(s@.take(i + 1).last() == s@[i as int]);
        }
        if code < 48 || code > 57 {
            proof {
                assert(!is_digit(s@[i as int]));
                assert(!all_digits(s@));
            }
            return None;
        }
        let d: u64 = (code - 48) as u64;
        proof {
            assert(is_digit(s@[i as int]));
            assert(d == digit_val(s@[i as int]));
            assert(all_digits(s@.take(i + 1))) by {
                assert(forall|j: int|
                    0 <= j < i + 1 ==> #[trigger] s@.take(i + 1)[j] == s@[j]);
                assert(forall|j: int| 0 <= j < i ==> #[trigger] s@.take(i as int)[j] == s@[j]);
            }
        }
        if val > (u64::MAX - d) / 10 {
            proof {
                assert(val * 10 + d > u64::MAX) by (nonlinear_arith)
                    requires
                        val > (u64::MAX - d) / 10,
                        d <= 9,
                        val <= u64::MAX,
                ;
                assert(digits_val(s@.take(i + 1)) == val * 10 + d);
                if all_digits(s@) {
                    lemma_digits_val_prefix(s@, i + 1);
                    assert(digits_val(s@) > u64::MAX);
                }
            }
            return None;
        }
        val = val * 10 + d;
        i += 1;
    }
    proof {
        assert(s@.take(len as int) =~= s@);
    }
    Some(val)
}

/// `s` with every leading `c` removed.
pub open spec fn trim_char_start_spec(s: Seq<char>, c: char) -> Seq<char>
    decreases s.len(),
{
    if s.len() > 0 && s[0] == c {
        trim_char_start_spec(s.drop_first(), c)
    } else {
        s
    }
}

/// `s` with every trailing `c` removed.
pub open spec fn trim_char_end_spec(s: Seq<char>, c: char) -> Seq<char>
    decreases s.len(),
{
    if s.len() > 0 && s.last() == c {
        trim_char_end_spec(s.drop_last(), c)
    } else {
        s
    }
}

proof fn lemma_trim_char_start_bounds(s: Seq<char>, c: char, k: int)
    requires
        0 <= k <= s.len(),
        forall|j: int| 0 <= j < k ==> s[j] == c,
        k < s.len() ==> s[k] != c,
    ensures
        trim_char_start_spec(s, c) == s.skip(k),
    decreases k,
{
    if k > 0 {
        assert(s.drop_first() =~= s.skip(1));
        lemma_trim_char_start_bounds(s.skip(1), c, k - 1);
        assert(s.skip(1).skip(k - 1) =~= s.skip(k));
    } else {
        assert(s.skip(0) =~= s);
        if s.len() > 0 {
            assert(s[0] != c);
        }
    }
}

proof fn lemma_trim_char_end_bounds(s: Seq<char>, c: char, k: int)
    requires
        0 <= k <= s.len(),
        forall|j: int| k <= j < s.len() ==> s[j] == c,
        k > 0 ==> s[k - 1] != c,
    ensures
        trim_char_end_spec(s, c) == s.take(k),
    decreases s.len() - k,
{
    if k < s.len() {
        assert(s.last() == c);
        assert(s.drop_last() =~= s.take(s.len() - 1));
        lemma_trim_char_end_bounds(s.take(s.len() - 1), c, k);
        assert(s.take(s.len() - 1).take(k) =~= s.take(k));
    } else {
        assert(s.take(s.len() as int) =~= s);
        if s.len() > 0 {
            assert(s.last() != c);
        }
    }
}

/// `s` with every leading `c` removed.
pub fn trim_char_start<'a>(s: &'a str, c: char) -> (r: &'a str)
    ensures
        r@ == trim_char_start_spec(s@, c),
{
    let len = s.unicode_len();
    let mut a: usize = 0;
    while a < len && s.get_char(a) == c
        invariant
            a <= len,
            len == s@.len(),
            forall|j: int| 0 <= j < a ==> s@[j] == c,
        decreases len - a,
    {
        a += 1;
    }
    let r = s.substring_char(a, len);
    proof {
        lemma_trim_char_start_bounds(s@, c, a as int);
        assert(r@ =~= s@.skip(a as int));
    }
    r
}

/// `s` with every trailing `c` removed.
pub fn trim_char_end<'a>(s: &'a str, c: char) -> (r: &'a str)
    ensures
        r@ == trim_char_end_spec(s@, c),
{
    let len = s.unicode_len();
    let mut b: usize = len;
    while b > 0 && s.get_char(b - 1) == c
        invariant
            b <= len,
            len == s@.len(),
            forall|j: int| b <= j < len ==> s@[j] == c,
        decreases b,
    {
        b -= 1;
    }
    let r = s.substring_char(0, b);
    proof {
        lemma_trim_char_end_bounds(s@, c, b as int);
        assert(r@ =~= s@.take(b as int));
    }
    r
}

/// `s` with every leading and trailing `c` removed.
pub open spec fn trim_char_spec(s: Seq<char>, c: char) -> Seq<char> {
    trim_char_end_spec(trim_char_start_spec(s, c), c)
}

/// `s` with every leading and trailing `c` removed.
pub fn trim_char<'a>(s: &'a str, c: char) -> (r: &'a str)
    ensures
        r@ == trim_char_spec(s@, c),
{
    trim_char_end(trim_char_start(s, c), c)
}

/// The position of the first `c` in `s`, or the length where none occurs.
pub open spec fn find_char_spec(s: Seq<char>, c: char) -> int
    decreases s.len(),
{
    if s.len() == 0 {
        0
    } else if s[0] == c {
        0
    } else {
        1 + find_char_spec(s.drop_first(), c)
    }
}

proof fn lemma_find_char_at(s: Seq<char>, c: char, k: int)
    requires
        0 <= k <= s.len(),
        forall|j: int| 0 <= j < k ==> s[j] != c,
        k < s.len() ==> s[k] == c,
    ensures
        find_char_spec(s, c) == k,
    decreases k,
{
    if s.len() == 0 {
    } else if k == 0 {
    } else {
        assert(s.drop_first() =~= s.skip(1));
        assert(forall|j: int| 0 <= j < k - 1 ==> #[trigger] s.skip(1)[j] == s[j + 1]);
        assert(k - 1 < s.skip(1).len() ==> s.skip(1)[k - 1] == s[k as int]);
        lemma_find_char_at(s.skip(1), c, k - 1);
    }
}

/// The parts of `s` before and after the first `c`, or nothing where `c`
/// does not occur.
pub fn split_once_char<'a>(s: &'a str, c: char) -> (r: Option<(&'a str, &'a str)>)
    ensures
        find_char_spec(s@, c) < s@.len() ==> (r matches Some(kv) && kv.0@ == s@.take(
            find_char_spec(s@, c),
        ) && kv.1@ == s@.skip(find_char_spec(s@, c) + 1)),
        find_char_spec(s@, c) >= s@.len() ==> r is None,
{
    let len = s.unicode_len();
    let mut k: usize = 0;
    while k < len && s.get_char(k) != c
        invariant
            k <= len,
            len == s@.len(),
            forall|j: int| 0 <= j < k ==> s@[j] != c,
        decreases len - k,
    {
        k += 1;
    }
    proof {
        lemma_find_char_at(s@, c, k as int);
    }
    if k < len {
        let before = s.substring_char(0, k);
        let after = s.substring_char(k + 1, len);
        proof {
            assert(before@ =~= s@.take(k as int));
            assert(after@ =~= s@.skip(k + 1));
        }
        Some((before, after))
    } else {
        None
    }
}

/// The pieces of `s` between non-overlapping occurrences of `sep`, scanning
/// left to right; `sep` must not be empty.
pub open spec fn split_str_spec(s: Seq<char>, sep: Seq<char>) -> Seq<Seq<char>>
    decreases s.len(),
{
    if sep.len() == 0 || s.len() == 0 {
        seq![s]
    } else if starts_with_spec(s, sep) {
        seq![Seq::<char>::empty()] + split_str_spec(s.skip(sep.len() as int), sep)
    } else {
        let rest = split_str_spec(s.drop_first(), sep);
        seq![seq![s[0]] + rest[0]] + rest.skip(1)
    }
}

pub proof fn lemma_split_str_len(s: Seq<char>, sep: Seq<char>)
    ensures
        split_str_spec(s, sep).len() >= 1,
    decreases s.len(),
{
    if sep.len() != 0 && s.len() != 0 {
        if starts_with_spec(s, sep) {
            lemma_split_str_len(s.skip(sep.len() as int), sep);
        } else {
            lemma_split_str_len(s.drop_first(), sep);
        }
    }
}

/// Splits `s` at every non-overlapping occurrence of `sep`, scanning left to
/// right.
pub fn split_str(s: &str, sep: &str) -> (r: Vec<String>)
    requires
        sep@.len() > 0,
    ensures
        r.deep_view() == split_str_spec(s@, sep@),
        r.len() >= 1,
{
    let len = s.unicode_len();
    let sep_len = sep.unicode_len();
    let mut pieces: Vec<String> = Vec::new();
    let mut cur: String = String::new();
    let mut i: usize = 0;
    proof {
        lemma_split_str_len(s@, sep@);
        assert(s@.skip(0) =~= s@);
        let r0 = split_str_spec(s@, sep@);
        assert(Seq::<char>::empty() + r0[0] =~= r0[0]);
        assert(pieces.deep_view() + seq![cur@ + r0[0]] + r0.skip(1) =~= r0);
    }
    while i < len
        invariant
            i <= len,
            len == s@.len(),
            sep_len == sep@.len(),
            sep_len > 0,
            split_str_spec(s@, sep@) == pieces.deep_view() + seq![
                cur@ + split_str_spec(s@.skip(i as int), sep@)[0],
            ] + split_str_spec(s@.skip(i as int), sep@).skip(1),
        decreases len - i,
    {
        let ghost rest = split_str_spec(s@.skip(i as int), sep@);
        proof {
            lemma_split_str_len(s@.skip(i as int), sep@);
        }
        if sep_len <= len - i && str_eq(s.substring_char(i, i + sep_len), sep) {
            let ghost old_pieces = pieces.deep_view();
            let ghost old_cur = cur@;
            pieces.push(cur);
            cur = String::new();
            i += sep_len;
            proof {
                assert(s@.skip(i as int - sep@.len()).subrange(0, sep@.len() as int) =~= s@.subrange(
                    i as int - sep@.len(),
                    i as int,
                ));
                assert(starts_with_spec(s@.skip(i as int - sep@.len()), sep@));
                assert(s@.skip(i as int - sep@.len()).skip(sep@.len() as int) =~= s@.skip(
                    i as int,
                ));
                assert(rest == seq![Seq::<char>::empty()] + split_str_spec(s@.skip(i as int), sep@));
                let new_rest = split_str_spec(s@.skip(i as int), sep@);
                lemma_split_str_len(s@.skip(i as int), sep@);
                assert(rest[0] == Seq::<char>::empty());
                assert(old_cur + rest[0] =~= old_cur);
                assert(rest.skip(1) =~= new_rest);
                assert(pieces.deep_view() =~= old_pieces.push(old_cur));
                assert(pieces.deep_view() + seq![cur@ + new_rest[0]] + new_rest.skip(1)
                    =~= old_pieces + seq![old_cur + rest[0]] + rest.skip(1));
            }
        } else {
            let c = s.get_char(i);
            let ghost old_cur = cur@;
            push_char(&mut cur, c);
            i += 1;
            proof {
                let tail = s@.skip(i as int - 1);
                assert(tail[0] == s@[i as int - 1]);
                assert(tail.len() > 0);
                assert(!starts_with_spec(tail, sep@)) by {
                    if starts_with_spec(tail, sep@) {
                        assert(tail.subrange(0, sep@.len() as int) =~= s@.subrange(
                            i as int - 1,
                            i as int - 1 + sep@.len(),
                        ));
                        assert(i - 1 + sep_len <= len);
                    }
                }
                assert(tail.drop_first() =~= s@.skip(i as int));
                let new_rest = split_str_spec(s@.skip(i as int), sep@);
                lemma_split_str_len(s@.skip(i as int), sep@);
                assert(rest == seq![seq![tail[0]] + new_rest[0]] + new_rest.skip(1));
                assert(rest[0] == seq![tail[0]] + new_rest[0]);
                assert(old_cur + rest[0] =~= cur@ + new_rest[0]);
                assert(rest.skip(1) =~= new_rest.skip(1));
                assert(pieces.deep_view() + seq![cur@ + new_rest[0]] + new_rest.skip(1)
                    =~= pieces.deep_view() + seq![old_cur + rest[0]] + rest.skip(1));
            }
        }
    }
    proof {
        assert(s@.skip(len as int) =~= Seq::<char>::empty());
        let rest = split_str_spec(s@.skip(len as int), sep@);
        assert(rest == seq![Seq::<char>::empty()]);
        assert(rest.skip(1) =~= Seq::<Seq<char>>::empty());
        assert(cur@ + rest[0] =~= cur@);
    }
    let ghost old_pieces = pieces.deep_view();
    let ghost old_cur = cur@;
    pieces.push(cur);
    proof {
        assert(pieces.deep_view() =~= old_pieces.push(old_cur));
        assert(split_str_spec(s@, sep@) =~= old_pieces + seq![old_cur] + Seq::<Seq<char>>::empty());
        assert(pieces.deep_view() =~= split_str_spec(s@, sep@));
    }
    pieces
}

/// Reads `s` as a decimal `i64` with an optional leading minus sign, if it is
/// one and fits.
pub open spec fn parse_i64_spec(s: Seq<char>) -> Option<int> {
    if s.len() > 0 && s[0] == '-' {
        let d = s.drop_first();
        if d.len() > 0 && all_digits(d) && digits_val(d) <= i64::MAX + 1 {
            Some(-digits_val(d))
        } else {
            None
        }
    } else {
        if s.len() > 0 && all_digits(s) && digits_val(s) <= i64::MAX {
            Some(digits_val(s))
        } else {
            None
        }
    }
}

/// Reads `s` as a decimal `i64`. Returns `None` on an empty string, a
/// non-digit character, or a value out of range.
pub fn parse_i64(s: &str) -> (r: Option<i64>)
    ensures
        match (r, parse_i64_spec(s@)) {
            (Some(v), Some(n)) => v == n,
            (None, None) => true,
            _ => false,
        },
{
    let len = s.unicode_len();
    if len > 0 && s.get_char(0) == '-' {
        let digits = s.substring_char(1, len);
        proof {
            assert(digits@ =~= s@.drop_first());
        }
        match parse_u64(digits) {
            Some(v) => {
                if v <= 9223372036854775807u64 {
                    Some(-(v as i64))
                } else if v == 9223372036854775808u64 {
                    Some(i64::MIN)
                } else {
                    None
                }
            },
            None => None,
        }
    } else {
        match parse_u64(s) {
            Some(v) => {
                if v <= 9223372036854775807u64 {
                    Some(v as i64)
                } else {
                    None
                }
            },
            None => None,
        }
    }
}

/// The characters after the last `/`; empty when `s` ends with `/`.
pub open spec fn basename_spec(s: Seq<char>) -> Seq<char>
    decreases s.len(),
{
    if s.len() == 0 {
        s
    } else if s.last() == '/' {
        Seq::<char>::empty()
    } else {
        basename_spec(s.drop_last()).push(s.last())
    }
}

proof fn lemma_basename_after_slash(s: Seq<char>, k: int)
    requires
        0 <= k <= s.len(),
        forall|j: int| k <= j < s.len() ==> s[j] != '/',
        k > 0 ==> s[k - 1] == '/',
    ensures
        basename_spec(s) == s.skip(k),
    decreases s.len() - k,
{
    if s.len() == k {
        if k == 0 {
            assert(s.skip(0) =~= s);
        } else {
            assert(s.last() == '/');
            assert(s.skip(k) =~= Seq::<char>::empty());
        }
    } else {
        assert(s.last() != '/');
        lemma_basename_after_slash(s.drop_last(), k);
        assert(s.drop_last().skip(k).push(s.last()) =~= s.skip(k));
    }
}

/// A path's last component is never longer than the path.
pub proof fn lemma_basename_len(s: Seq<char>)
    ensures
        basename_spec(s).len() <= s.len(),
    decreases s.len(),
{
    if s.len() > 0 && s.last() != '/' {
        lemma_basename_len(s.drop_last());
    }
}

/// The part of `s` after its last `/`, or all of `s` where none occurs.
pub fn basename(s: &str) -> (r: &str)
    ensures
        r@ == basename_spec(s@),
{
    let len = s.unicode_len();
    let mut k: usize = len;
    while k > 0 && s.get_char(k - 1) != '/'
        invariant
            k <= len,
            len == s@.len(),
            forall|j: int| k <= j < len ==> s@[j] != '/',
        decreases k,
    {
        k -= 1;
    }
    let r = s.substring_char(k, len);
    proof {
        lemma_basename_after_slash(s@, k as int);
        assert(r@ =~= s@.skip(k as int));
    }
    r
}

} // verus!
