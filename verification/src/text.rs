//! Character-sequence utilities with the meaning of the corresponding
//! `str` operations (`trim`, `lines`, `split_whitespace`, `replace`, ...),
//! stated as spec functions over `Seq<char>` and implemented on `[char]`.
use vstd::prelude::*;

verus! {

// ---------------------------------------------------------------------
// Character classes
// ---------------------------------------------------------------------

/// The Unicode `White_Space` property, which `char::is_whitespace` tests.
pub open spec fn is_ws(c: char) -> bool {
    let u: u32 = c as u32;
    ||| 0x09 <= u <= 0x0D
    ||| u == 0x20
    ||| u == 0x85
    ||| u == 0xA0
    ||| u == 0x1680
    ||| 0x2000 <= u <= 0x200A
    ||| u == 0x2028
    ||| u == 0x2029
    ||| u == 0x202F
    ||| u == 0x205F
    ||| u == 0x3000
}

/// ASCII whitespace as `u8::is_ascii_whitespace` defines it
/// (space, tab, line feed, form feed, carriage return).
pub open spec fn is_ascii_ws(c: char) -> bool {
    let u: u32 = c as u32;
    u == 0x20 || u == 0x09 || u == 0x0A || u == 0x0C || u == 0x0D
}

/// The separator class used by `split_ascii_whitespace` (`ascii`) or
/// by `split_whitespace` (`!ascii`).
pub open spec fn is_sep(c: char, ascii: bool) -> bool {
    if ascii {
        is_ascii_ws(c)
    } else {
        is_ws(c)
    }
}

pub fn is_whitespace(c: char) -> (b: bool)
    ensures
        b == is_ws(c),
{
    let u: u32 = c as u32;
    (0x09 <= u && u <= 0x0D) || u == 0x20 || u == 0x85 || u == 0xA0 || u == 0x1680 || (0x2000
        <= u && u <= 0x200A) || u == 0x2028 || u == 0x2029 || u == 0x202F || u == 0x205F || u
        == 0x3000
}

pub fn is_separator(c: char, ascii: bool) -> (b: bool)
    ensures
        b == is_sep(c, ascii),
{
    if ascii {
        let u: u32 = c as u32;
        u == 0x20 || u == 0x09 || u == 0x0A || u == 0x0C || u == 0x0D
    } else {
        is_whitespace(c)
    }
}

// ---------------------------------------------------------------------
// Spec functions
// ---------------------------------------------------------------------

/// `str::trim_start`: drop leading whitespace.
pub open spec fn trim_start(s: Seq<char>) -> Seq<char>
    decreases s.len(),
{
    if s.len() > 0 && is_ws(s[0]) {
        trim_start(s.drop_first())
    } else {
        s
    }
}

/// Drop trailing characters of the separator class.
pub open spec fn strip_end(s: Seq<char>, ascii: bool) -> Seq<char>
    decreases s.len(),
{
    if s.len() > 0 && is_sep(s.last(), ascii) {
        strip_end(s.drop_last(), ascii)
    } else {
        s
    }
}

/// `str::trim`: drop leading and trailing whitespace.
pub open spec fn trim(s: Seq<char>) -> Seq<char> {
    strip_end(trim_start(s), false)
}

/// The longest suffix of `s` without a separator.
pub open spec fn word_suffix(s: Seq<char>, ascii: bool) -> Seq<char>
    decreases s.len(),
{
    if s.len() > 0 && !is_sep(s.last(), ascii) {
        word_suffix(s.drop_last(), ascii).push(s.last())
    } else {
        Seq::empty()
    }
}

/// Whether `split_whitespace` (or `split_ascii_whitespace`) yields any word.
pub open spec fn has_word(s: Seq<char>, ascii: bool) -> bool {
    strip_end(s, ascii).len() > 0
}

/// The last word that `split_whitespace().last()` (or the ASCII variant)
/// yields; empty when there is none.
pub open spec fn last_word(s: Seq<char>, ascii: bool) -> Seq<char> {
    word_suffix(strip_end(s, ascii), ascii)
}

/// Index of the first `'\n'` of `s`, or its length.
pub open spec fn line_end(s: Seq<char>) -> nat
    decreases s.len(),
{
    if s.len() == 0 {
        0
    } else if s[0] == '\n' {
        0
    } else {
        1 + line_end(s.drop_first())
    }
}

/// Removes one trailing carriage return.
pub open spec fn strip_cr(l: Seq<char>) -> Seq<char> {
    if l.len() > 0 && l.last() == '\r' {
        l.drop_last()
    } else {
        l
    }
}

/// `str::lines`: split at `"\n"` or `"\r\n"`; a final line ending is optional.
pub open spec fn lines(s: Seq<char>) -> Seq<Seq<char>>
    decreases s.len(),
{
    if s.len() == 0 {
        Seq::empty()
    } else {
        let i = line_end(s) as int;
        if i < s.len() {
            seq![strip_cr(s.take(i))] + lines(s.skip(i + 1))
        } else {
            seq![s]
        }
    }
}

/// `p` occurs in `s` at position `i`.
pub open spec fn occurs_at(s: Seq<char>, p: Seq<char>, i: int) -> bool {
    0 <= i && i + p.len() <= s.len() && s.subrange(i, i + p.len()) == p
}

/// `str::contains` for a string pattern.
pub open spec fn contains(s: Seq<char>, p: Seq<char>) -> bool {
    exists|i: int| occurs_at(s, p, i)
}

/// `str::starts_with` for a string pattern.
pub open spec fn starts_with(s: Seq<char>, p: Seq<char>) -> bool {
    occurs_at(s, p, 0)
}

/// `str::replace` for a non-empty pattern: every leftmost non-overlapping
/// occurrence of `p` is replaced by `r`.
pub open spec fn replace(s: Seq<char>, p: Seq<char>, r: Seq<char>) -> Seq<char>
    recommends
        p.len() > 0,
    decreases s.len(),
{
    if p.len() == 0 || s.len() < p.len() {
        s
    } else if s.take(p.len() as int) == p {
        r + replace(s.skip(p.len() as int), p, r)
    } else {
        seq![s[0]] + replace(s.drop_first(), p, r)
    }
}

/// `s.split(p).next()` for a non-empty pattern: the part before the first
/// occurrence of `p`, or all of `s`.
pub open spec fn before_first(s: Seq<char>, p: Seq<char>) -> Seq<char>
    recommends
        p.len() > 0,
    decreases s.len(),
{
    if p.len() == 0 || s.len() < p.len() {
        s
    } else if s.take(p.len() as int) == p {
        Seq::empty()
    } else {
        seq![s[0]] + before_first(s.drop_first(), p)
    }
}

/// `s.split(c).last()`: the part after the last `c`, or all of `s`.
pub open spec fn after_last(s: Seq<char>, c: char) -> Seq<char>
    decreases s.len(),
{
    if s.len() > 0 && s.last() != c {
        after_last(s.drop_last(), c).push(s.last())
    } else {
        Seq::empty()
    }
}

/// `[..].join(sep)`.
pub open spec fn join(list: Seq<Seq<char>>, sep: Seq<char>) -> Seq<char>
    decreases list.len(),
{
    if list.len() == 0 {
        Seq::empty()
    } else if list.len() == 1 {
        list[0]
    } else {
        join(list.drop_last(), sep) + sep + list.last()
    }
}

/// No character of `s` is `c`.
pub open spec fn lacks(s: Seq<char>, c: char) -> bool {
    forall|i: int| 0 <= i < s.len() ==> s[i] != c
}

// ---------------------------------------------------------------------
// Lemmas
// ---------------------------------------------------------------------

pub proof fn lemma_trim_start_at(s: Seq<char>, a: int)
    requires
        0 <= a <= s.len(),
        forall|j: int| 0 <= j < a ==> is_ws(#[trigger] s[j]),
        a == s.len() || !is_ws(s[a]),
    ensures
        trim_start(s) == s.skip(a),
    decreases a,
{
    if a == 0 {
        assert(s.skip(0) =~= s);
    } else {
        assert(is_ws(s[0]));
        let t = s.drop_first();
        assert forall|j: int| 0 <= j < a - 1 implies is_ws(#[trigger] t[j]) by {
            assert(t[j] == s[j + 1]);
        }
        lemma_trim_start_at(t, a - 1);
        assert(t.skip(a - 1) =~= s.skip(a));
    }
}

pub proof fn lemma_strip_end_at(s: Seq<char>, ascii: bool, e: int)
    requires
        0 <= e <= s.len(),
        forall|j: int| e <= j < s.len() ==> is_sep(#[trigger] s[j], ascii),
        e == 0 || !is_sep(s[e - 1], ascii),
    ensures
        strip_end(s, ascii) == s.take(e),
    decreases s.len(),
{
    if s.len() > e {
        let t = s.drop_last();
        assert(is_sep(s[s.len() - 1], ascii));
        assert forall|j: int| e <= j < t.len() implies is_sep(#[trigger] t[j], ascii) by {
            assert(t[j] == s[j]);
        }
        lemma_strip_end_at(t, ascii, e);
        assert(t.take(e) =~= s.take(e));
    } else {
        assert(s.take(e) =~= s);
    }
}

pub proof fn lemma_word_suffix_at(s: Seq<char>, ascii: bool, b: int)
    requires
        0 <= b <= s.len(),
        forall|j: int| b <= j < s.len() ==> !is_sep(#[trigger] s[j], ascii),
        b == 0 || is_sep(s[b - 1], ascii),
    ensures
        word_suffix(s, ascii) == s.skip(b),
    decreases s.len(),
{
    if s.len() > b {
        let t = s.drop_last();
        assert(!is_sep(s[s.len() - 1], ascii));
        assert forall|j: int| b <= j < t.len() implies !is_sep(#[trigger] t[j], ascii) by {
            assert(t[j] == s[j]);
        }
        lemma_word_suffix_at(t, ascii, b);
        assert(t.skip(b).push(s.last()) =~= s.skip(b));
    } else {
        assert(s.skip(b) =~= Seq::<char>::empty());
    }
}

pub proof fn lemma_line_end_no_newline(cur: Seq<char>, x: Seq<char>)
    requires
        lacks(cur, '\n'),
    ensures
        line_end(cur + x) == cur.len() + line_end(x),
    decreases cur.len(),
{
    if cur.len() > 0 {
        assert((cur + x)[0] == cur[0]);
        assert((cur + x).drop_first() =~= cur.drop_first() + x);
        lemma_line_end_no_newline(cur.drop_first(), x);
    } else {
        assert(cur + x =~= x);
    }
}

pub proof fn lemma_line_end_bounds(s: Seq<char>)
    ensures
        0 <= line_end(s) <= s.len(),
        line_end(s) < s.len() ==> s[line_end(s) as int] == '\n',
        forall|j: int| 0 <= j < line_end(s) ==> s[j] != '\n',
    decreases s.len(),
{
    if s.len() > 0 && s[0] != '\n' {
        lemma_line_end_bounds(s.drop_first());
        assert forall|j: int| 0 <= j < line_end(s) implies s[j] != '\n' by {
            if j > 0 {
                assert(s[j] == s.drop_first()[j - 1]);
            }
        }
    }
}

/// The lines of a single segment without a line feed.
pub proof fn lemma_lines_single(cur: Seq<char>)
    requires
        lacks(cur, '\n'),
    ensures
        lines(cur) == (if cur.len() == 0 {
            Seq::<Seq<char>>::empty()
        } else {
            seq![cur]
        }),
{
    if cur.len() > 0 {
        lemma_line_end_no_newline(cur, Seq::empty());
        assert(cur + Seq::<char>::empty() =~= cur);
    }
}

/// The lines of a segment without a line feed, followed by a line feed and more.
pub proof fn lemma_lines_cons(cur: Seq<char>, rest: Seq<char>)
    requires
        lacks(cur, '\n'),
    ensures
        lines(cur + seq!['\n'] + rest) == seq![strip_cr(cur)] + lines(rest),
{
    let s = cur + seq!['\n'] + rest;
    assert(s =~= cur + (seq!['\n'] + rest));
    lemma_line_end_no_newline(cur, seq!['\n'] + rest);
    assert((seq!['\n'] + rest)[0] == '\n');
    assert(line_end(seq!['\n'] + rest) == 0);
    assert(s.take(cur.len() as int) =~= cur);
    assert(s.skip(cur.len() as int + 1) =~= rest);
}

/// All elements of `s` are distinct from `c`, for a sequence built by pushes.
pub proof fn lemma_lacks_push(s: Seq<char>, x: char, c: char)
    requires
        lacks(s, c),
        x != c,
    ensures
        lacks(s.push(x), c),
{
    assert forall|i: int| 0 <= i < s.push(x).len() implies s.push(x)[i] != c by {
        if i < s.len() {
            assert(s.push(x)[i] == s[i]);
        }
    }
}

pub proof fn lemma_replace_short(s: Seq<char>, p: Seq<char>, r: Seq<char>)
    requires
        s.len() < p.len(),
    ensures
        replace(s, p, r) == s,
{
}

/// A pattern with a character that `s` lacks does not occur in `s`.
pub proof fn lemma_not_contains_lacking(s: Seq<char>, p: Seq<char>, k: int)
    requires
        0 <= k < p.len(),
        lacks(s, p[k]),
    ensures
        !contains(s, p),
{
    assert forall|i: int| !occurs_at(s, p, i) by {
        if occurs_at(s, p, i) {
            assert(s.subrange(i, i + p.len())[k] == s[i + k]);
        }
    }
}

/// A pattern that occurs neither in `pre`, `mid` nor `post`, and lacks the
/// last character of `pre` and the first of `post`, does not occur in
/// `pre + mid + post`.
pub proof fn lemma_framed_not_contains(pre: Seq<char>, mid: Seq<char>, post: Seq<char>, p: Seq<char>)
    requires
        pre.len() > 0,
        post.len() > 0,
        p.len() > 0,
        lacks(p, pre.last()),
        lacks(p, post[0]),
        !contains(pre, p),
        !contains(mid, p),
        !contains(post, p),
    ensures
        !contains(pre + mid + post, p),
{
    let s = pre + mid + post;
    let a = pre.len() as int;
    let b = a + mid.len();
    assert forall|i: int| !occurs_at(s, p, i) by {
        if occurs_at(s, p, i) {
            let e = i + p.len();
            if e <= a {
                assert(pre.subrange(i, e) =~= s.subrange(i, e));
                assert(occurs_at(pre, p, i));
            } else if i < a {
                assert(s.subrange(i, e)[a - 1 - i] == s[a - 1]);
                assert(p[a - 1 - i] == pre.last());
            } else if e <= b {
                assert(mid.subrange(i - a, e - a) =~= s.subrange(i, e));
                assert(occurs_at(mid, p, i - a));
            } else if i < b {
                assert(s.subrange(i, e)[b - i] == s[b]);
                assert(p[b - i] == post[0]);
            } else {
                assert(post.subrange(i - b, e - b) =~= s.subrange(i, e));
                assert(occurs_at(post, p, i - b));
            }
        }
    }
}

/// A pattern that lacks `c` and occurs neither in `a` nor in `b` does not
/// occur in `a`, `c`, `b` put together.
pub proof fn lemma_not_contains_around(a: Seq<char>, c: char, b: Seq<char>, p: Seq<char>)
    requires
        p.len() > 0,
        lacks(p, c),
        !contains(a, p),
        !contains(b, p),
    ensures
        !contains(a + seq![c] + b, p),
{
    let s = a + seq![c] + b;
    let n = a.len() as int;
    assert forall|i: int| !occurs_at(s, p, i) by {
        if occurs_at(s, p, i) {
            let e = i + p.len();
            if e <= n {
                assert(a.subrange(i, e) =~= s.subrange(i, e));
                assert(occurs_at(a, p, i));
            } else if i <= n {
                assert(s.subrange(i, e)[n - i] == s[n]);
                assert(p[n - i] == c);
            } else {
                assert(b.subrange(i - n - 1, e - n - 1) =~= s.subrange(i, e));
                assert(occurs_at(b, p, i - n - 1));
            }
        }
    }
}

/// `join` of a list with a first element and a non-empty rest.
pub proof fn lemma_join_cons(a: Seq<char>, rest: Seq<Seq<char>>, sep: Seq<char>)
    requires
        rest.len() > 0,
    ensures
        join(seq![a] + rest, sep) == a + sep + join(rest, sep),
    decreases rest.len(),
{
    let l = seq![a] + rest;
    if rest.len() == 1 {
        assert(l.drop_last() =~= seq![a]);
        assert(l.last() == rest[0]);
        assert(join(rest, sep) == rest[0]);
        assert(join(seq![a], sep) == a);
        assert(join(l, sep) == join(l.drop_last(), sep) + sep + l.last());
    } else {
        assert(l.drop_last() =~= seq![a] + rest.drop_last());
        lemma_join_cons(a, rest.drop_last(), sep);
        assert(l.last() == rest.last());
        assert(join(l, sep) == join(l.drop_last(), sep) + sep + l.last());
        assert(join(rest, sep) == join(rest.drop_last(), sep) + sep + rest.last());
        assert(a + sep + join(rest.drop_last(), sep) + sep + rest.last() =~= a + sep + (join(
            rest.drop_last(),
            sep,
        ) + sep + rest.last()));
    }
}

/// No line feed, and no carriage return at the end.
pub open spec fn plain_line(l: Seq<char>) -> bool {
    lacks(l, '\n') && (l.len() == 0 || l.last() != '\r')
}

/// The lines of lines joined by line feeds, none holding a line feed or
/// ending with a carriage return: the lines again, but a last empty one.
pub proof fn lemma_lines_join_plain(ls: Seq<Seq<char>>)
    requires
        ls.len() > 0,
        forall|i: int| 0 <= i < ls.len() ==> plain_line(#[trigger] ls[i]),
    ensures
        lines(join(ls, "\n"@)) == (if ls.last().len() == 0 {
            ls.drop_last()
        } else {
            ls
        }),
    decreases ls.len(),
{
    reveal_strlit("\n");
    let nl = "\n"@;
    assert(nl =~= seq!['\n']);
    if ls.len() == 1 {
        assert(join(ls, nl) == ls[0]);
        assert(plain_line(ls[0]));
        lemma_lines_single(ls[0]);
        assert(ls.drop_last() =~= Seq::<Seq<char>>::empty());
        assert(seq![ls[0]] =~= ls);
    } else {
        let a = ls[0];
        let rest = ls.drop_first();
        assert(ls =~= seq![a] + rest);
        lemma_join_cons(a, rest, nl);
        assert forall|i: int| 0 <= i < rest.len() implies plain_line(#[trigger] rest[i]) by {
            assert(rest[i] == ls[i + 1]);
        }
        lemma_lines_join_plain(rest);
        assert(plain_line(ls[0]));
        lemma_lines_cons(a, join(rest, nl));
        assert(a + nl + join(rest, nl) =~= a + seq!['\n'] + join(rest, nl));
        assert(strip_cr(a) == a);
        assert(rest.last() == ls.last());
        if ls.last().len() == 0 {
            assert(seq![a] + rest.drop_last() =~= ls.drop_last());
        } else {
            assert(seq![a] + rest =~= ls);
        }
    }
}

/// The lines of lines joined by line feeds, none holding a line feed or a
/// carriage return: the lines again, but a last empty one.
pub proof fn lemma_lines_join(ls: Seq<Seq<char>>)
    requires
        ls.len() > 0,
        forall|i: int| 0 <= i < ls.len() ==> lacks(#[trigger] ls[i], '\n') && lacks(ls[i], '\r'),
    ensures
        lines(join(ls, "\n"@)) == (if ls.last().len() == 0 {
            ls.drop_last()
        } else {
            ls
        }),
{
    assert forall|i: int| 0 <= i < ls.len() implies plain_line(#[trigger] ls[i]) by {
        assert(lacks(ls[i], '\n') && lacks(ls[i], '\r'));
        if ls[i].len() > 0 {
            assert(ls[i].last() == ls[i][ls[i].len() - 1]);
        }
    }
    lemma_lines_join_plain(ls);
}

/// Replacing a pattern that does not occur changes nothing.
pub proof fn lemma_replace_absent(s: Seq<char>, p: Seq<char>, r: Seq<char>)
    requires
        p.len() > 0,
        !contains(s, p),
    ensures
        replace(s, p, r) == s,
    decreases s.len(),
{
    if s.len() >= p.len() {
        assert(!occurs_at(s, p, 0));
        assert(s.subrange(0, p.len() as int) =~= s.take(p.len() as int));
        let t = s.drop_first();
        assert forall|i: int| !occurs_at(t, p, i) by {
            if occurs_at(t, p, i) {
                assert(s.subrange(i + 1, i + 1 + p.len()) =~= t.subrange(i, i + p.len()));
                assert(occurs_at(s, p, i + 1));
            }
        }
        lemma_replace_absent(t, p, r);
        assert(seq![s[0]] + t =~= s);
    }
}

/// Removing a pattern that occurs in `a + p` only at its end leaves `a`.
pub proof fn lemma_replace_suffix(a: Seq<char>, p: Seq<char>)
    requires
        p.len() > 0,
        forall|i: int| occurs_at(a + p, p, i) ==> i == a.len(),
    ensures
        replace(a + p, p, Seq::empty()) == a,
    decreases a.len(),
{
    let s = a + p;
    if a.len() == 0 {
        assert(s =~= p);
        assert(s.take(p.len() as int) =~= p);
        assert(s.skip(p.len() as int) =~= Seq::<char>::empty());
        assert(replace(Seq::<char>::empty(), p, Seq::empty()) == Seq::<char>::empty());
        assert(replace(s, p, Seq::empty()) == Seq::<char>::empty() + replace(s.skip(p.len() as int), p, Seq::empty()));
        assert(Seq::<char>::empty() + Seq::<char>::empty() =~= a);
    } else {
        assert(!occurs_at(s, p, 0));
        assert(s.subrange(0, p.len() as int) =~= s.take(p.len() as int));
        let a1 = a.drop_first();
        assert(s.drop_first() =~= a1 + p);
        assert forall|i: int| occurs_at(a1 + p, p, i) implies i == a1.len() by {
            assert(s.subrange(i + 1, i + 1 + p.len()) =~= (a1 + p).subrange(i, i + p.len()));
            assert(occurs_at(s, p, i + 1));
        }
        lemma_replace_suffix(a1, p);
        assert(s.len() >= p.len());
        assert(s.take(p.len() as int) != p);
        assert(replace(s, p, Seq::empty()) == seq![s[0]] + replace(s.drop_first(), p, Seq::empty()));
        assert(s[0] == a[0]);
        assert(seq![s[0]] + a1 =~= a);
    }
}

/// Removing a pattern from `p + b`, where it does not occur in `b`, leaves `b`.
pub proof fn lemma_replace_prefix(p: Seq<char>, b: Seq<char>)
    requires
        p.len() > 0,
        !contains(b, p),
    ensures
        replace(p + b, p, Seq::empty()) == b,
{
    let s = p + b;
    assert(s.take(p.len() as int) =~= p);
    assert(s.skip(p.len() as int) =~= b);
    lemma_replace_absent(b, p, Seq::empty());
    assert(Seq::<char>::empty() + b =~= b);
}

// ---------------------------------------------------------------------
// Conversions between strings and character vectors
// ---------------------------------------------------------------------

/// The characters of a string slice, in order.
pub fn chars_of(s: &str) -> (out: Vec<char>)
    ensures
        out@ == s@,
{
    let mut out: Vec<char> = Vec::new();
    for c in it: s.chars()
        invariant
            out@ == it.seq().take(it.index() as int),
            it.seq() == s@,
    {
        out.push(c);
    }
    out
}

/// `std::path::Path::is_absolute` on Unix: a path is absolute when it
/// starts with the root, that is, begins with `/`.
pub fn path_is_absolute(p: &str) -> (b: bool)
    ensures
        b == (p@.len() > 0 && p@[0] == '/'),
{
    let cs = chars_of(p);
    cs.len() > 0 && cs[0] == '/'
}

/// Builds an owned string from a sequence of characters
/// (`String: FromIterator<char>`, which collects the characters in order).
#[verifier::external_body]
pub(crate) fn string_from_chars(v: &[char]) -> (s: String)
    ensures
        s@ == v@,
{
    v.iter().collect()
}

// ---------------------------------------------------------------------
// Executable operations
// ---------------------------------------------------------------------

/// Copies `s[from..to]`.
pub fn copy_range(s: &[char], from: usize, to: usize) -> (out: Vec<char>)
    requires
        from <= to <= s@.len(),
    ensures
        out@ == s@.subrange(from as int, to as int),
{
    let mut out: Vec<char> = Vec::new();
    let mut i = from;
    while i < to
        invariant
            from <= i <= to <= s@.len(),
            out@ == s@.subrange(from as int, i as int),
        decreases to - i,
    {
        out.push(s[i]);
        i = i + 1;
    }
    out
}

/// Appends all of `src` to `dst`.
pub fn push_all(dst: &mut Vec<char>, src: &[char])
    ensures
        final(dst)@ == old(dst)@ + src@,
{
    let mut i: usize = 0;
    while i < src.len()
        invariant
            0 <= i <= src@.len(),
            dst@ == old(dst)@ + src@.take(i as int),
        decreases src.len() - i,
    {
        dst.push(src[i]);
        i = i + 1;
        assert(src@.take(i as int) =~= src@.take((i - 1) as int).push(src@[i - 1]));
    }
    assert(src@.take(src@.len() as int) =~= src@);
}

/// `str::trim`.
pub fn trim_chars(s: &[char]) -> (out: Vec<char>)
    ensures
        out@ == trim(s@),
{
    let n: usize = s.len();
    let mut a: usize = 0;
    while a < n && is_whitespace(s[a])
        invariant
            0 <= a <= n == s@.len(),
            forall|j: int| 0 <= j < a ==> is_ws(#[trigger] s@[j]),
        decreases n - a,
    {
        a = a + 1;
    }
    proof {
        lemma_trim_start_at(s@, a as int);
    }
    let ghost t = s@.skip(a as int);
    let mut e: usize = n;
    while e > a && is_whitespace(s[e - 1])
        invariant
            a <= e <= n == s@.len(),
            t == s@.skip(a as int),
            forall|j: int| e <= j < n ==> is_ws(#[trigger] s@[j]),
        decreases e,
    {
        e = e - 1;
    }
    proof {
        assert forall|j: int| (e - a) <= j < t.len() implies is_sep(#[trigger] t[j], false) by {
            assert(t[j] == s@[j + a]);
        }
        if e > a {
            assert(t[e - a - 1] == s@[e - 1]);
        }
        lemma_strip_end_at(t, false, e - a);
        assert(t.take(e - a) =~= s@.subrange(a as int, e as int));
    }
    copy_range(s, a, e)
}

/// `split_whitespace().last()` (or `split_ascii_whitespace().last()` when
/// `ascii`), the empty sequence when there is no word.
pub fn last_word_chars(s: &[char], ascii: bool) -> (out: Vec<char>)
    ensures
        out@ == last_word(s@, ascii),
{
    let n: usize = s.len();
    let mut e: usize = n;
    while e > 0 && is_separator(s[e - 1], ascii)
        invariant
            e <= n == s@.len(),
            forall|j: int| e <= j < n ==> is_sep(#[trigger] s@[j], ascii),
        decreases e,
    {
        e = e - 1;
    }
    proof {
        lemma_strip_end_at(s@, ascii, e as int);
    }
    let ghost t = s@.take(e as int);
    let mut b: usize = e;
    while b > 0 && !is_separator(s[b - 1], ascii)
        invariant
            b <= e <= n == s@.len(),
            t == s@.take(e as int),
            forall|j: int| b <= j < e ==> !is_sep(#[trigger] s@[j], ascii),
        decreases b,
    {
        b = b - 1;
    }
    proof {
        assert forall|j: int| b <= j < t.len() implies !is_sep(#[trigger] t[j], ascii) by {
            assert(t[j] == s@[j]);
        }
        if b > 0 {
            assert(t[b - 1] == s@[b - 1]);
        }
        lemma_word_suffix_at(t, ascii, b as int);
        assert(t.skip(b as int) =~= s@.subrange(b as int, e as int));
    }
    copy_range(s, b, e)
}

/// Whether `p` occurs in `s` at position `i`.
pub fn occurs_at_exec(s: &[char], p: &[char], i: usize) -> (b: bool)
    ensures
        b == occurs_at(s@, p@, i as int),
{
    if i > s.len() || p.len() > s.len() - i {
        return false;
    }
    let mut k: usize = 0;
    while k < p.len()
        invariant
            i + p@.len() <= s@.len(),
            0 <= k <= p@.len(),
            forall|j: int| 0 <= j < k ==> s@[i + j] == p@[j],
        decreases p.len() - k,
    {
        assert(i + k < s@.len());
        assert(s@.len() == s.len());
        if s[i + k] != p[k] {
            assert(s@.subrange(i as int, i + p@.len())[k as int] != p@[k as int]);
            return false;
        }
        k = k + 1;
    }
    assert(s@.subrange(i as int, i + p@.len()) =~= p@);
    true
}

/// `str::starts_with`.
pub fn starts_with_chars(s: &[char], p: &[char]) -> (b: bool)
    ensures
        b == starts_with(s@, p@),
{
    occurs_at_exec(s, p, 0)
}

/// `str::contains`.
pub fn contains_chars(s: &[char], p: &[char]) -> (b: bool)
    ensures
        b == contains(s@, p@),
{
    let mut i: usize = 0;
    while i < s.len()
        invariant
            0 <= i <= s@.len(),
            forall|j: int| 0 <= j < i ==> !occurs_at(s@, p@, j),
        decreases s@.len() - i,
    {
        if occurs_at_exec(s, p, i) {
            return true;
        }
        i = i + 1;
    }
    if occurs_at_exec(s, p, i) {
        return true;
    }
    assert forall|j: int| !occurs_at(s@, p@, j) by {
        if 0 <= j <= i {
        }
    }
    false
}

/// `str::replace` with a non-empty pattern.
pub fn replace_chars(s: &[char], p: &[char], r: &[char]) -> (out: Vec<char>)
    requires
        p@.len() > 0,
    ensures
        out@ == replace(s@, p@, r@),
{
    let mut out: Vec<char> = Vec::new();
    let mut i: usize = 0;
    assert(s@.skip(0) =~= s@);
    while i < s.len()
        invariant
            0 <= i <= s@.len(),
            p@.len() > 0,
            replace(s@, p@, r@) == out@ + replace(s@.skip(i as int), p@, r@),
        decreases s@.len() - i,
    {
        let ghost rest = s@.skip(i as int);
        if occurs_at_exec(s, p, i) {
            assert(rest.take(p@.len() as int) =~= s@.subrange(i as int, i + p@.len()));
            assert(rest.skip(p@.len() as int) =~= s@.skip(i + p@.len()));
            push_all(&mut out, r);
            i = i + p.len();
        } else {
            proof {
                if rest.len() >= p@.len() {
                    assert(rest.take(p@.len() as int) =~= s@.subrange(i as int, i + p@.len()));
                }
                assert(rest.drop_first() =~= s@.skip(i + 1));
                if rest.len() < p@.len() {
                    lemma_replace_short(rest, p@, r@);
                    lemma_replace_short(rest.drop_first(), p@, r@);
                    assert(rest =~= seq![rest[0]] + rest.drop_first());
                }
            }
            out.push(s[i]);
            i = i + 1;
        }
    }
    assert(s@.skip(i as int) =~= Seq::<char>::empty());
    assert(out@ + Seq::<char>::empty() =~= out@);
    out
}

/// `s.split(p).next()` with a non-empty pattern.
pub fn before_first_chars(s: &[char], p: &[char]) -> (out: Vec<char>)
    requires
        p@.len() > 0,
    ensures
        out@ == before_first(s@, p@),
{
    let mut i: usize = 0;
    assert(s@.skip(0) =~= s@);
    assert(s@.take(0) =~= Seq::<char>::empty());
    while i < s.len()
        invariant
            0 <= i <= s@.len(),
            p@.len() > 0,
            before_first(s@, p@) == s@.take(i as int) + before_first(s@.skip(i as int), p@),
        decreases s@.len() - i,
    {
        let ghost rest = s@.skip(i as int);
        if occurs_at_exec(s, p, i) {
            assert(rest.take(p@.len() as int) =~= s@.subrange(i as int, i + p@.len()));
            assert(s@.take(i as int) + Seq::<char>::empty() =~= s@.take(i as int));
            return copy_range(s, 0, i);
        }
        if p.len() <= s.len() - i {
            assert(rest.take(p@.len() as int) =~= s@.subrange(i as int, i + p@.len()));
            assert(rest.drop_first() =~= s@.skip(i + 1));
            assert(s@.take(i as int) + (seq![rest[0]] + before_first(rest.drop_first(), p@))
                =~= s@.take(i + 1) + before_first(s@.skip(i + 1), p@));
        } else {
            assert(before_first(rest, p@) == rest);
            assert(s@.take(i as int) + rest =~= s@);
            return copy_range(s, 0, s.len());
        }
        i = i + 1;
    }
    assert(s@.skip(i as int) =~= Seq::<char>::empty());
    assert(s@.take(i as int) =~= s@);
    copy_range(s, 0, s.len())
}

/// `s.split(c).last()`.
pub fn after_last_chars(s: &[char], c: char) -> (out: Vec<char>)
    ensures
        out@ == after_last(s@, c),
{
    let n: usize = s.len();
    let mut b: usize = n;
    while b > 0 && s[b - 1] != c
        invariant
            b <= n == s@.len(),
            forall|j: int| b <= j < n ==> s@[j] != c,
        decreases b,
    {
        b = b - 1;
    }
    proof {
        lemma_after_last_at(s@, c, b as int);
    }
    copy_range(s, b, n)
}

pub proof fn lemma_after_last_at(s: Seq<char>, c: char, b: int)
    requires
        0 <= b <= s.len(),
        forall|j: int| b <= j < s.len() ==> s[j] != c,
        b == 0 || s[b - 1] == c,
    ensures
        after_last(s, c) == s.subrange(b, s.len() as int),
    decreases s.len(),
{
    if s.len() > b {
        let t = s.drop_last();
        lemma_after_last_at(t, c, b);
        assert(t.subrange(b, t.len() as int).push(s.last()) =~= s.subrange(b, s.len() as int));
    } else {
        assert(s.subrange(b, s.len() as int) =~= Seq::<char>::empty());
    }
}

/// `str::lines`, each line as a vector of characters.
pub fn lines_chars(s: &[char]) -> (out: Vec<Vec<char>>)
    ensures
        out@.len() == lines(s@).len(),
        forall|i: int| 0 <= i < out@.len() ==> #[trigger] out@[i]@ == lines(s@)[i],
{
    let mut out: Vec<Vec<char>> = Vec::new();
    let mut cur: Vec<char> = Vec::new();
    let mut i: usize = 0;
    let ghost done: Seq<Seq<char>> = Seq::empty();
    assert(s@.skip(0) =~= s@);
    assert(cur@ + s@ =~= s@);
    while i < s.len()
        invariant
            0 <= i <= s@.len(),
            lacks(cur@, '\n'),
            out@.len() == done.len(),
            forall|k: int| 0 <= k < out@.len() ==> #[trigger] out@[k]@ == done[k],
            lines(s@) == done + lines(cur@ + s@.skip(i as int)),
        decreases s@.len() - i,
    {
        let ghost rest = s@.skip(i as int);
        let ch = s[i];
        if ch == '\n' {
            proof {
                assert(cur@ + rest =~= cur@ + seq!['\n'] + s@.skip(i + 1));
                lemma_lines_cons(cur@, s@.skip(i + 1));
                assert(s@.skip(i + 1) =~= Seq::<char>::empty() + s@.skip(i + 1));
            }
            let line = strip_cr_exec(&cur);
            out.push(line);
            proof {
                done = done.push(strip_cr(cur@));
                assert(Seq::<char>::empty() + s@.skip(i + 1) =~= s@.skip(i + 1));
                assert(lines(s@) =~= done + lines(Seq::<char>::empty() + s@.skip(i + 1)));
            }
            cur = Vec::new();
        } else {
            proof {
                lemma_lacks_push(cur@, ch, '\n');
                assert(cur@ + rest =~= cur@.push(ch) + s@.skip(i + 1));
            }
            cur.push(ch);
        }
        i = i + 1;
    }
    proof {
        assert(s@.skip(i as int) =~= Seq::<char>::empty());
        assert(cur@ + Seq::<char>::empty() =~= cur@);
        lemma_lines_single(cur@);
    }
    if cur.len() > 0 {
        out.push(cur);
        proof {
            done = done.push(cur@);
            assert(lines(s@) =~= done);
        }
    } else {
        assert(lines(s@) =~= done);
    }
    out
}

fn strip_cr_exec(l: &Vec<char>) -> (out: Vec<char>)
    ensures
        out@ == strip_cr(l@),
{
    let n: usize = l.len();
    if n > 0 && l[n - 1] == '\r' {
        copy_range(l.as_slice(), 0, n - 1)
    } else {
        copy_range(l.as_slice(), 0, n)
    }
}

/// The views of a list of character vectors.
pub open spec fn views(list: Seq<Vec<char>>) -> Seq<Seq<char>> {
    list.map_values(|v: Vec<char>| v@)
}

/// `[..].join(sep)`.
pub fn join_chars(list: &Vec<Vec<char>>, sep: &[char]) -> (out: Vec<char>)
    ensures
        out@ == join(views(list@), sep@),
{
    let mut out: Vec<char> = Vec::new();
    let ghost dv = views(list@);
    let mut i: usize = 0;
    while i < list.len()
        invariant
            0 <= i <= list@.len(),
            dv == views(list@),
            dv.len() == list@.len(),
            out@ == join(dv.take(i as int), sep@),
        decreases list.len() - i,
    {
        assert(dv[i as int] == list@[i as int]@);
        if i > 0 {
            push_all(&mut out, sep);
        }
        push_all(&mut out, list[i].as_slice());
        proof {
            let t = dv.take(i + 1);
            assert(t.drop_last() =~= dv.take(i as int));
            assert(t.last() == dv[i as int]);
            if i == 0 {
                assert(out@ =~= t[0]);
            }
        }
        i = i + 1;
    }
    assert(dv.take(i as int) =~= dv);
    out
}

/// Character-wise equality.
pub fn eq_chars(a: &[char], b: &[char]) -> (r: bool)
    ensures
        r == (a@ == b@),
{
    if a.len() != b.len() {
        return false;
    }
    let mut i: usize = 0;
    while i < a.len()
        invariant
            0 <= i <= a@.len(),
            a@.len() == b@.len(),
            forall|j: int| 0 <= j < i ==> a@[j] == b@[j],
        decreases a.len() - i,
    {
        if a[i] != b[i] {
            return false;
        }
        i = i + 1;
    }
    assert(a@ =~= b@);
    true
}

/// String equality.
pub fn str_eq(a: &str, b: &str) -> (r: bool)
    ensures
        r == (a@ == b@),
{
    let x = chars_of(a);
    let y = chars_of(b);
    eq_chars(x.as_slice(), y.as_slice())
}

// ---------------------------------------------------------------------
// Decimal numbers
// ---------------------------------------------------------------------

/// The ASCII digit of `d` (below ten).
pub open spec fn digit(d: nat) -> char {
    if d == 0 {
        '0'
    } else if d == 1 {
        '1'
    } else if d == 2 {
        '2'
    } else if d == 3 {
        '3'
    } else if d == 4 {
        '4'
    } else if d == 5 {
        '5'
    } else if d == 6 {
        '6'
    } else if d == 7 {
        '7'
    } else if d == 8 {
        '8'
    } else {
        '9'
    }
}

/// The decimal text of `n`, as `to_string` writes an unsigned integer.
pub open spec fn decimal(n: nat) -> Seq<char>
    decreases n,
{
    if n < 10 {
        seq![digit(n)]
    } else {
        decimal(n / 10).push(digit(n % 10))
    }
}

/// `c` is an ASCII digit.
pub open spec fn is_digit(c: char) -> bool {
    48 <= (c as u32) <= 57
}

/// The value of a string of ASCII digits.
pub open spec fn digits_value(s: Seq<char>) -> nat
    decreases s.len(),
{
    if s.len() == 0 {
        0
    } else {
        digits_value(s.drop_last()) * 10 + ((s.last() as u32) - 48) as nat
    }
}

/// Every character of `s` is an ASCII digit.
pub open spec fn all_digits(s: Seq<char>) -> bool {
    forall|i: int| 0 <= i < s.len() ==> is_digit(#[trigger] s[i])
}

/// `u16::from_str`: an optional `+` followed by one or more decimal digits,
/// whose value fits in 16 bits.
pub open spec fn parse_u16(s: Seq<char>) -> Option<u16> {
    let d = if s.len() > 0 && s[0] == '+' {
        s.drop_first()
    } else {
        s
    };
    if d.len() > 0 && all_digits(d) && digits_value(d) <= 65535 {
        Some(digits_value(d) as u16)
    } else {
        None
    }
}

/// The decimal text of an unsigned integer.
pub fn decimal_string(n: u64) -> (r: String)
    ensures
        r@ == decimal(n as nat),
    decreases n,
{
    let mut v: Vec<char> = Vec::new();
    decimal_into(n, &mut v);
    assert(v@ =~= decimal(n as nat));
    string_from_chars(v.as_slice())
}

fn decimal_into(n: u64, out: &mut Vec<char>)
    ensures
        final(out)@ == old(out)@ + decimal(n as nat),
    decreases n,
{
    if n < 10 {
        let c = digit_char(n);
        out.push(c);
        assert(decimal(n as nat) =~= seq![digit(n as nat)]);
    } else {
        decimal_into(n / 10, out);
        let c = digit_char(n % 10);
        out.push(c);
        assert(decimal(n as nat) =~= decimal((n / 10) as nat).push(digit((n % 10) as nat)));
    }
}

fn digit_char(d: u64) -> (c: char)
    requires
        d < 10,
    ensures
        c == digit(d as nat),
{
    if d == 0 {
        '0'
    } else if d == 1 {
        '1'
    } else if d == 2 {
        '2'
    } else if d == 3 {
        '3'
    } else if d == 4 {
        '4'
    } else if d == 5 {
        '5'
    } else if d == 6 {
        '6'
    } else if d == 7 {
        '7'
    } else if d == 8 {
        '8'
    } else {
        '9'
    }
}

/// `u16::from_str` (see `parse_u16`).
pub fn parse_u16_chars(s: &[char]) -> (r: Option<u16>)
    ensures
        r == parse_u16(s@),
{
    let start: usize = if s.len() > 0 && s[0] == '+' {
        1
    } else {
        0
    };
    let ghost d = if s@.len() > 0 && s@[0] == '+' {
        s@.drop_first()
    } else {
        s@
    };
    assert(d =~= s@.skip(start as int));
    if start >= s.len() {
        return None;
    }
    let mut acc: u32 = 0;
    let mut i: usize = start;
    let mut over: bool = false;
    assert(s@.subrange(start as int, start as int) =~= Seq::<char>::empty());
    while i < s.len()
        invariant
            start <= i <= s@.len(),
            d == s@.skip(start as int),
            d == (if s@.len() > 0 && s@[0] == '+' {
                s@.drop_first()
            } else {
                s@
            }),
            all_digits(s@.subrange(start as int, i as int)),
            !over ==> acc as nat == digits_value(s@.subrange(start as int, i as int)) && acc <= 65535,
            over ==> digits_value(s@.subrange(start as int, i as int)) > 65535,
        decreases s.len() - i,
    {
        let c = s[i];
        let u: u32 = c as u32;
        if u < 48 || u > 57 {
            assert(d[i - start] == c);
            assert(!is_digit(d[i - start]));
            return None;
        }
        let ghost pre = s@.subrange(start as int, i as int);
        let ghost nxt = s@.subrange(start as int, i + 1);
        assert(nxt.drop_last() =~= pre);
        assert(nxt.last() == c);
        assert forall|j: int| 0 <= j < nxt.len() implies is_digit(#[trigger] nxt[j]) by {
            if j < pre.len() {
                assert(nxt[j] == pre[j]);
            }
        }
        if !over {
            let next: u32 = acc * 10 + (u - 48);
            if next > 65535 {
                over = true;
            } else {
                acc = next;
            }
        } else {
            assert(digits_value(nxt) >= digits_value(pre) * 10);
        }
        i = i + 1;
    }
    assert(s@.subrange(start as int, i as int) =~= d);
    if over {
        None
    } else {
        Some(acc as u16)
    }
}

pub proof fn lemma_digit(d: nat)
    requires
        d < 10,
    ensures
        digit(d) as u32 == d + 48,
        is_digit(digit(d)),
{
    if d == 0 {
        assert('0' as u32 == 48);
    } else if d == 1 {
        assert('1' as u32 == 49);
    } else if d == 2 {
        assert('2' as u32 == 50);
    } else if d == 3 {
        assert('3' as u32 == 51);
    } else if d == 4 {
        assert('4' as u32 == 52);
    } else if d == 5 {
        assert('5' as u32 == 53);
    } else if d == 6 {
        assert('6' as u32 == 54);
    } else if d == 7 {
        assert('7' as u32 == 55);
    } else if d == 8 {
        assert('8' as u32 == 56);
    } else {
        assert('9' as u32 == 57);
    }
}

pub proof fn lemma_decimal_props(n: nat)
    ensures
        decimal(n).len() > 0,
        all_digits(decimal(n)),
        digits_value(decimal(n)) == n,
        decimal(n)[0] != '+',
    decreases n,
{
    if n < 10 {
        let s = decimal(n);
        lemma_digit(n);
        assert(s.drop_last() =~= Seq::<char>::empty());
        assert(digits_value(s.drop_last()) == 0);
        assert(s.last() == digit(n));
        assert(digits_value(s) == digits_value(s.drop_last()) * 10 + ((s.last() as u32) - 48) as nat);
    } else {
        lemma_digit(n % 10);
        lemma_decimal_props(n / 10);
        let s = decimal(n);
        let p = decimal(n / 10);
        assert(s.drop_last() =~= p);
        assert forall|i: int| 0 <= i < s.len() implies is_digit(#[trigger] s[i]) by {
            if i < p.len() {
                assert(s[i] == p[i]);
            }
        }
        assert(s[0] == p[0]);
        assert(s.last() == digit(n % 10));
        assert(digits_value(s) == digits_value(p) * 10 + ((s.last() as u32) - 48) as nat);
        assert((n / 10) * 10 + n % 10 == n);
    }
}

/// Reading back the decimal text of a 16-bit value gives the value.
pub proof fn lemma_parse_decimal(n: u16)
    ensures
        parse_u16(decimal(n as nat)) == Some(n),
{
    lemma_decimal_props(n as nat);
}

// ---------------------------------------------------------------------
// Splitting at a character
// ---------------------------------------------------------------------

/// `s.split(c)`: the pieces between occurrences of `c` (one piece more than
/// there are occurrences).
pub open spec fn split_char(s: Seq<char>, c: char) -> Seq<Seq<char>>
    decreases s.len(),
{
    if s.len() == 0 {
        seq![Seq::empty()]
    } else {
        let rest = split_char(s.drop_last(), c);
        if s.last() == c {
            rest.push(Seq::empty())
        } else {
            rest.update(rest.len() - 1, rest.last().push(s.last()))
        }
    }
}

/// Splitting text followed by a piece without the separator extends the
/// last piece.
pub proof fn lemma_split_char_extend(x: Seq<char>, b: Seq<char>, c: char)
    requires
        lacks(b, c),
    ensures
        split_char(x + b, c) == split_char(x, c).update(
            split_char(x, c).len() - 1,
            split_char(x, c).last() + b,
        ),
    decreases b.len(),
{
    lemma_split_char_len(x, c);
    let sx = split_char(x, c);
    if b.len() == 0 {
        assert(x + b =~= x);
        assert(sx.last() + b =~= sx.last());
        assert(sx.update(sx.len() - 1, sx.last()) =~= sx);
    } else {
        let b1 = b.drop_last();
        assert(lacks(b1, c)) by {
            assert forall|i: int| 0 <= i < b1.len() implies b1[i] != c by {
                assert(b1[i] == b[i]);
            }
        }
        lemma_split_char_extend(x, b1, c);
        let s = x + b;
        assert(s.drop_last() =~= x + b1);
        assert(s.last() == b.last());
        assert(b.last() != c);
        let r = split_char(x + b1, c);
        assert(r.len() == sx.len());
        assert(r.last() == sx.last() + b1);
        assert(split_char(s, c) == r.update(r.len() - 1, r.last().push(s.last())));
        assert(sx.last() + b1.push(b.last()) =~= sx.last() + b);
        assert(b1.push(b.last()) =~= b);
        assert(r.update(r.len() - 1, r.last().push(s.last())) =~= sx.update(sx.len() - 1, sx.last() + b));
    }
}

/// Pieces joined with a separator they lack split back into the pieces.
pub proof fn lemma_split_join(ls: Seq<Seq<char>>, c: char)
    requires
        ls.len() > 0,
        forall|i: int| 0 <= i < ls.len() ==> lacks(#[trigger] ls[i], c),
    ensures
        split_char(join(ls, seq![c]), c) == ls,
    decreases ls.len(),
{
    if ls.len() == 1 {
        assert(join(ls, seq![c]) == ls[0]);
        assert(ls[0] =~= Seq::<char>::empty() + ls[0]);
        lemma_split_char_extend(Seq::empty(), ls[0], c);
        assert(split_char(Seq::<char>::empty(), c) == seq![Seq::<char>::empty()]);
        assert(seq![Seq::<char>::empty()].update(0, Seq::<char>::empty() + ls[0]) =~= ls);
    } else {
        let l1 = ls.drop_last();
        assert forall|i: int| 0 <= i < l1.len() implies lacks(#[trigger] l1[i], c) by {
            assert(l1[i] == ls[i]);
        }
        lemma_split_join(l1, c);
        let j1 = join(l1, seq![c]);
        assert(join(ls, seq![c]) == j1 + seq![c] + ls.last());
        assert(lacks(ls[ls.len() - 1], c));
        lemma_split_char_extend(j1 + seq![c], ls.last(), c);
        let y = j1 + seq![c];
        assert(y.drop_last() =~= j1);
        assert(y.last() == c);
        assert(split_char(y, c) == l1.push(Seq::<char>::empty()));
        assert(l1.push(Seq::<char>::empty()).update(l1.len() as int, Seq::<char>::empty() + ls.last()) =~= ls);
    }
}

pub proof fn lemma_split_char_len(s: Seq<char>, c: char)
    ensures
        split_char(s, c).len() >= 1,
    decreases s.len(),
{
    if s.len() > 0 {
        lemma_split_char_len(s.drop_last(), c);
    }
}

/// `s.split(c)`, each piece as a vector.
pub fn split_char_chars(s: &[char], c: char) -> (out: Vec<Vec<char>>)
    ensures
        views(out@) == split_char(s@, c),
{
    let mut done: Vec<Vec<char>> = Vec::new();
    let mut cur: Vec<char> = Vec::new();
    let mut i: usize = 0;
    assert(s@.take(0) =~= Seq::<char>::empty());
    assert(views(done@).push(cur@) =~= split_char(s@.take(0), c));
    while i < s.len()
        invariant
            0 <= i <= s@.len(),
            views(done@).push(cur@) == split_char(s@.take(i as int), c),
        decreases s.len() - i,
    {
        let ghost t = s@.take(i + 1);
        assert(t.drop_last() =~= s@.take(i as int));
        assert(t.last() == s@[i as int]);
        if s[i] == c {
            let mut old_cur: Vec<char> = Vec::new();
            std::mem::swap(&mut old_cur, &mut cur);
            let ghost prev = views(done@);
            done.push(old_cur);
            assert(views(done@) =~= prev.push(old_cur@));
        } else {
            let ghost prev = views(done@);
            cur.push(s[i]);
            assert(prev.push(cur@) =~= split_char(t, c));
        }
        i = i + 1;
    }
    assert(s@.take(i as int) =~= s@);
    let ghost prev = views(done@);
    done.push(cur);
    assert(views(done@) =~= prev.push(cur@));
    done
}

} // verus!
