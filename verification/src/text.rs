//! Text helpers shared by the launcher and the extractors.

use vstd::prelude::*;
use vstd::string::*;

verus! {

/// Unicode's `White_Space` property, the set of characters that
/// `char::is_whitespace` accepts.
pub open spec fn is_white_space(c: char) -> bool {
    let v = c as u32;
    ||| 0x9 <= v <= 0xd
    ||| v == 0x20
    ||| v == 0x85
    ||| v == 0xa0
    ||| v == 0x1680
    ||| 0x2000 <= v <= 0x200a
    ||| v == 0x2028
    ||| v == 0x2029
    ||| v == 0x202f
    ||| v == 0x205f
    ||| v == 0x3000
}

/// `s` without its leading white space.
pub open spec fn trim_start(s: Seq<char>) -> Seq<char>
    decreases s.len(),
{
    if s.len() > 0 && is_white_space(s[0]) {
        trim_start(s.drop_first())
    } else {
        s
    }
}

/// `s` without its trailing white space.
pub open spec fn trim_end(s: Seq<char>) -> Seq<char>
    decreases s.len(),
{
    if s.len() > 0 && is_white_space(s.last()) {
        trim_end(s.drop_last())
    } else {
        s
    }
}

/// `s` without leading and trailing white space, as `str::trim` gives it.
pub open spec fn trim(s: Seq<char>) -> Seq<char> {
    trim_end(trim_start(s))
}

/// Whether `c` is white space.
pub fn is_white_space_char(c: char) -> (b: bool)
    ensures
        b == is_white_space(c),
{
    let v = c as u32;
    (0x9 <= v && v <= 0xd) || v == 0x20 || v == 0x85 || v == 0xa0 || v == 0x1680 || (0x2000 <= v
        && v <= 0x200a) || v == 0x2028 || v == 0x2029 || v == 0x202f || v == 0x205f || v == 0x3000
}

proof fn lemma_trim_start_skip(s: Seq<char>, i: int)
    requires
        0 <= i < s.len(),
        is_white_space(s[i]),
    ensures
        trim_start(s.subrange(i, s.len() as int)) == trim_start(s.subrange(i + 1, s.len() as int)),
{
    let t = s.subrange(i, s.len() as int);
    assert(t.drop_first() =~= s.subrange(i + 1, s.len() as int));
}

proof fn lemma_trim_end_skip(s: Seq<char>, j: int)
    requires
        0 < j <= s.len(),
        is_white_space(s[j - 1]),
    ensures
        trim_end(s.subrange(0, j)) == trim_end(s.subrange(0, j - 1)),
{
    let t = s.subrange(0, j);
    assert(t.drop_last() =~= s.subrange(0, j - 1));
}

proof fn lemma_trim_start_shape(s: Seq<char>)
    ensures
        exists|i: int|
            0 <= i <= s.len() && trim_start(s) == s.subrange(i, s.len() as int) && (forall|k: int|
                0 <= k < i ==> is_white_space(#[trigger] s[k])),
        trim_start(s).len() > 0 ==> !is_white_space(trim_start(s)[0]),
    decreases s.len(),
{
    if s.len() > 0 && is_white_space(s[0]) {
        lemma_trim_start_shape(s.drop_first());
        let i = choose|i: int|
            0 <= i <= s.drop_first().len() && trim_start(s.drop_first()) == s.drop_first().subrange(
                i,
                s.drop_first().len() as int,
            ) && (forall|k: int| 0 <= k < i ==> is_white_space(#[trigger] s.drop_first()[k]));
        assert(s.drop_first().subrange(i, s.drop_first().len() as int) =~= s.subrange(
            i + 1,
            s.len() as int,
        ));
        assert forall|k: int| 0 <= k < i + 1 implies is_white_space(#[trigger] s[k]) by {
            if k > 0 {
                assert(s[k] == s.drop_first()[k - 1]);
            }
        }
    } else {
        assert(s.subrange(0, s.len() as int) =~= s);
    }
}

proof fn lemma_trim_end_shape(s: Seq<char>)
    ensures
        exists|j: int|
            0 <= j <= s.len() && trim_end(s) == s.subrange(0, j) && (forall|k: int|
                j <= k < s.len() ==> is_white_space(#[trigger] s[k])),
        trim_end(s).len() > 0 ==> !is_white_space(trim_end(s).last()),
    decreases s.len(),
{
    if s.len() > 0 && is_white_space(s.last()) {
        lemma_trim_end_shape(s.drop_last());
        let j = choose|j: int|
            0 <= j <= s.drop_last().len() && trim_end(s.drop_last()) == s.drop_last().subrange(
                0,
                j,
            ) && (forall|k: int|
                j <= k < s.drop_last().len() ==> is_white_space(#[trigger] s.drop_last()[k]));
        assert(s.drop_last().subrange(0, j) =~= s.subrange(0, j));
        assert forall|k: int| j <= k < s.len() implies is_white_space(#[trigger] s[k]) by {
            if k < s.len() - 1 {
                assert(s[k] == s.drop_last()[k]);
            }
        }
    } else {
        assert(s.subrange(0, s.len() as int) =~= s);
    }
}

/// A trimmed text is a piece of the original that neither starts nor ends
/// with white space, and all that was cut off either side is white space.
pub proof fn lemma_trim_bare(s: Seq<char>)
    ensures
        exists|i: int, j: int|
            0 <= i <= j <= s.len() && trim(s) == s.subrange(i, j) && (forall|k: int|
                0 <= k < i ==> is_white_space(#[trigger] s[k])) && (forall|k: int|
                j <= k < s.len() ==> is_white_space(#[trigger] s[k])),
        trim(s).len() > 0 ==> !is_white_space(trim(s)[0]) && !is_white_space(trim(s).last()),
{
    let t = trim_start(s);
    lemma_trim_start_shape(s);
    lemma_trim_end_shape(t);
    let i = choose|i: int|
        0 <= i <= s.len() && t == s.subrange(i, s.len() as int) && (forall|k: int|
            0 <= k < i ==> is_white_space(#[trigger] s[k]));
    let j = choose|j: int|
        0 <= j <= t.len() && trim_end(t) == t.subrange(0, j) && (forall|k: int|
            j <= k < t.len() ==> is_white_space(#[trigger] t[k]));
    assert(trim(s) =~= s.subrange(i, i + j));
    assert forall|k: int| i + j <= k < s.len() implies is_white_space(#[trigger] s[k]) by {
        assert(s[k] == t[k - i]);
    }
    if trim(s).len() > 0 {
        assert(trim(s)[0] == t[0]);
    }
}

/// Trimming is idempotent: a trimmed text stays as it is when trimmed again.
pub proof fn lemma_trim_idempotent(s: Seq<char>)
    ensures
        trim(trim(s)) == trim(s),
{
    let u = trim(s);
    lemma_trim_bare(s);
    if u.len() > 0 {
        assert(trim_start(u) == u);
        assert(trim_end(u) == u);
    }
}

/// `s` with leading and trailing white space removed.
pub fn trim_text(s: &str) -> (t: String)
    ensures
        t@ == trim(s@),
{
    let n = s.unicode_len();
    let mut i: usize = 0;
    assert(s@.subrange(0, n as int) =~= s@);
    while i < n && is_white_space_char(s.get_char(i))
        invariant
            n == s@.len(),
            i <= n,
            trim_start(s@) == trim_start(s@.subrange(i as int, n as int)),
        decreases n - i,
    {
        proof {
            lemma_trim_start_skip(s@, i as int);
        }
        i = i + 1;
    }
    let ghost rest = s@.subrange(i as int, n as int);
    assert(trim_start(s@) == rest) by {
        assert(s@.subrange(0, n as int) =~= s@);
        if i < n {
            assert(rest[0] == s@[i as int]);
        }
    }
    let mut j: usize = n;
    assert(rest.subrange(0, (n - i) as int) =~= rest);
    while j > i && is_white_space_char(s.get_char(j - 1))
        invariant
            n == s@.len(),
            i <= j <= n,
            rest == s@.subrange(i as int, n as int),
            trim_end(rest) == trim_end(rest.subrange(0, j - i)),
        decreases j,
    {
        proof {
            assert(rest[j - i - 1] == s@[j - 1]);
            lemma_trim_end_skip(rest, j - i);
        }
        j = j - 1;
    }
    let piece = s.substring_char(i, j);
    proof {
        assert(rest.subrange(0, rest.len() as int) =~= rest);
        let r = rest.subrange(0, j - i);
        assert(piece@ =~= r);
        if j > i {
            assert(r.last() == s@[j - 1]);
        }
    }
    piece.to_owned()
}


/// The prefix `\\?\` that Windows puts in front of a canonicalized (verbatim)
/// path.
pub open spec fn verbatim_prefix() -> Seq<char> {
    seq!['\\', '\\', '?', '\\']
}

/// `s` without the verbatim-path prefix, where it starts with one.
pub open spec fn strip_verbatim_prefix(s: Seq<char>) -> Seq<char> {
    if s.len() >= 4 && s.subrange(0, 4) == verbatim_prefix() {
        s.subrange(4, s.len() as int)
    } else {
        s
    }
}

/// The prefix is removed exactly when the path starts with the characters
/// `\`, `\`, `?`, `\`, and then only those four; any other path stays as it
/// is.
pub proof fn lemma_strip_verbatim_prefix(s: Seq<char>)
    ensures
        s.len() >= 4 && s[0] == '\\' && s[1] == '\\' && s[2] == '?' && s[3] == '\\'
            ==> strip_verbatim_prefix(s) == s.subrange(4, s.len() as int),
        !(s.len() >= 4 && s[0] == '\\' && s[1] == '\\' && s[2] == '?' && s[3] == '\\')
            ==> strip_verbatim_prefix(s) == s,
{
    if s.len() >= 4 {
        let p = s.subrange(0, 4);
        if s[0] == '\\' && s[1] == '\\' && s[2] == '?' && s[3] == '\\' {
            assert(p =~= verbatim_prefix());
        } else {
            assert(p[0] == s[0] && p[1] == s[1] && p[2] == s[2] && p[3] == s[3]);
            assert(p != verbatim_prefix()) by {
                if p == verbatim_prefix() {
                    assert(verbatim_prefix()[0] == '\\');
                    assert(verbatim_prefix()[1] == '\\');
                    assert(verbatim_prefix()[2] == '?');
                    assert(verbatim_prefix()[3] == '\\');
                }
            }
        }
    }
}

/// Strips the `\\?\` verbatim-path prefix Windows' `canonicalize()` adds,
/// purely so paths look normal when shown in the interface.
pub fn clean_path(path: &str) -> (text: String)
    ensures
        text@ == strip_verbatim_prefix(path@),
        verbatim_prefix() + text@ == path@ || text@ == path@,
{
    let n = path.unicode_len();
    if n >= 4 && path.get_char(0) == '\\' && path.get_char(1) == '\\' && path.get_char(2) == '?'
        && path.get_char(3) == '\\' {
        proof {
            assert(path@.subrange(0, 4) =~= verbatim_prefix());
            assert(verbatim_prefix() + path@.subrange(4, n as int) =~= path@);
        }
        path.substring_char(4, n).to_owned()
    } else {
        proof {
            if n >= 4 && path@.subrange(0, 4) == verbatim_prefix() {
                assert(path@.subrange(0, 4)[0] == path@[0]);
                assert(path@.subrange(0, 4)[1] == path@[1]);
                assert(path@.subrange(0, 4)[2] == path@[2]);
                assert(path@.subrange(0, 4)[3] == path@[3]);
            }
        }
        path.to_owned()
    }
}

/// The views of a sequence of strings.
pub open spec fn views(v: Seq<String>) -> Seq<Seq<char>> {
    v.map_values(|s: String| s@)
}

/// The parts, in order, with `sep` between each two of them.
pub open spec fn join(parts: Seq<Seq<char>>, sep: Seq<char>) -> Seq<char>
    decreases parts.len(),
{
    if parts.len() == 0 {
        Seq::empty()
    } else if parts.len() == 1 {
        parts[0]
    } else {
        join(parts.drop_last(), sep) + sep + parts.last()
    }
}

/// Joining nothing gives nothing, one part gives that part, and each further
/// part comes after the separator; the length is that of the parts plus one
/// separator between each two of them.
pub proof fn lemma_join(parts: Seq<Seq<char>>, sep: Seq<char>, last: Seq<char>)
    ensures
        join(Seq::empty(), sep) == Seq::<char>::empty(),
        join(seq![last], sep) == last,
        parts.len() > 0 ==> join(parts.push(last), sep) == join(parts, sep) + sep + last,
        parts.len() > 0 ==> join(parts.push(last), sep).len() == join(parts, sep).len() + sep.len()
            + last.len(),
{
    if parts.len() > 0 {
        assert(parts.push(last).drop_last() =~= parts);
    }
}

/// The parts joined by `sep`, as `[String]::join` gives them.
pub fn join_texts(parts: &Vec<String>, sep: &str) -> (joined: String)
    ensures
        joined@ == join(views(parts@), sep@),
{
    let mut joined = String::new();
    let ghost all = views(parts@);
    let mut i: usize = 0;
    while i < parts.len()
        invariant
            i <= parts.len(),
            all == views(parts@),
            joined@ == join(all.take(i as int), sep@),
        decreases parts.len() - i,
    {
        if i != 0 {
            joined.append(sep);
        }
        joined.append(parts[i].as_str());
        proof {
            assert(all.take(i + 1).drop_last() =~= all.take(i as int));
            assert(all.take(i + 1).last() == parts@[i as int]@);
            if i == 0 {
                assert(joined@ =~= all.take(1)[0]);
            }
        }
        i = i + 1;
    }
    assert(all.take(parts.len() as int) =~= all);
    joined
}

/// `String::push`: appends the character `c` to the end of `s`.
#[verifier::external_body]
pub(crate) fn push_char(s: &mut String, c: char)
    ensures
        final(s)@ == old(s)@.push(c),
{
    s.push(c)
}

} // verus!
