//! Laws of a hosted site's files: the variables and the port that the
//! environment file of a new deployment holds, the port a redeployment
//! keeps, and the state an installation log is read back in.
use super::log::{first_index_of, log_entry_text, log_readable, log_status, message_lines, time_stamp_text};
use super::table::{deployed, first_deployed, DeployRow};
use super::env::{
    deployment_env, env_file_text, env_from_pairs, env_insert, env_line, env_port, key_index, lines_containing,
    updated_env_line, updated_env_text, uses_project_spec,
};
use crate::text::{
    lemma_join_cons, lemma_split_join, split_char, starts_with,
    after_last, all_digits, contains, decimal, is_digit, is_ws, join, lacks, lemma_after_last_at,
    lemma_decimal_props, lemma_line_end_bounds, lemma_lines_cons, lemma_lines_join, lemma_lines_join_plain, lemma_lines_single, plain_line,
    lemma_not_contains_around, lemma_not_contains_lacking, lemma_parse_decimal, lemma_strip_end_at, line_end,
    lines, occurs_at, strip_cr, strip_end, trim, trim_start,
};
use vstd::prelude::*;

verus! {

/// A text without line breaks.
pub open spec fn clean(s: Seq<char>) -> bool {
    lacks(s, '\n') && lacks(s, '\r')
}

/// A value that can stand on one line of an environment file without being
/// taken for the port: no line break and no `PORT_NUMBER`.
pub open spec fn plain_value(s: Seq<char>) -> bool {
    clean(s) && !contains(s, "PORT_NUMBER"@)
}

/// An entry whose line reads back: key and value without line breaks, and
/// neither mentions `PORT_NUMBER` unless the key is `PORT_NUMBER` itself.
pub open spec fn entry_ok(e: (Seq<char>, Seq<char>)) -> bool {
    clean(e.0) && clean(e.1) && (e.0 == "PORT_NUMBER"@ || (!contains(e.0, "PORT_NUMBER"@) && !contains(
        e.1,
        "PORT_NUMBER"@,
    )))
}

/// No key occurs twice.
pub open spec fn keys_unique(m: Seq<(Seq<char>, Seq<char>)>) -> bool {
    forall|i: int, j: int| 0 <= i < j < m.len() ==> (#[trigger] m[i]).0 != (#[trigger] m[j]).0
}

/// Every entry reads back and no key occurs twice.
pub open spec fn env_ok(m: Seq<(Seq<char>, Seq<char>)>) -> bool {
    &&& forall|i: int| 0 <= i < m.len() ==> entry_ok(#[trigger] m[i])
    &&& keys_unique(m)
}

proof fn lemma_key_index(m: Seq<(Seq<char>, Seq<char>)>, k: Seq<char>)
    ensures
        0 <= key_index(m, k) <= m.len(),
        key_index(m, k) < m.len() ==> m[key_index(m, k)].0 == k,
        forall|j: int| 0 <= j < key_index(m, k) ==> (#[trigger] m[j]).0 != k,
    decreases m.len(),
{
    if m.len() > 0 && m[0].0 != k {
        let t = m.drop_first();
        lemma_key_index(t, k);
        assert forall|j: int| 0 <= j < key_index(m, k) implies (#[trigger] m[j]).0 != k by {
            if j > 0 {
                assert(m[j] == t[j - 1]);
            }
        }
    }
}

proof fn lemma_insert_ok(m: Seq<(Seq<char>, Seq<char>)>, k: Seq<char>, v: Seq<char>)
    requires
        env_ok(m),
        entry_ok((k, v)),
    ensures
        env_ok(env_insert(m, k, v)),
        exists|q: int| 0 <= q < env_insert(m, k, v).len() && #[trigger] env_insert(m, k, v)[q] == (k, v),
{
    lemma_key_index(m, k);
    let i = key_index(m, k);
    let r = env_insert(m, k, v);
    if i < m.len() {
        assert forall|a: int, b: int| 0 <= a < b < r.len() implies (#[trigger] r[a]).0 != (#[trigger] r[b]).0 by {
            if a != i && b != i {
                assert(r[a] == m[a] && r[b] == m[b]);
            } else if a == i {
                assert(r[b] == m[b]);
                assert(m[a].0 != m[b].0);
            } else {
                assert(r[a] == m[a]);
                assert(m[a].0 != m[b].0);
            }
        }
        assert forall|a: int| 0 <= a < r.len() implies entry_ok(#[trigger] r[a]) by {
            if a != i {
                assert(r[a] == m[a]);
            }
        }
        assert(r[i] == (k, v));
    } else {
        assert forall|a: int, b: int| 0 <= a < b < r.len() implies (#[trigger] r[a]).0 != (#[trigger] r[b]).0 by {
            assert(r[a] == m[a]);
            if b < m.len() {
                assert(r[b] == m[b]);
            }
        }
        assert forall|a: int| 0 <= a < r.len() implies entry_ok(#[trigger] r[a]) by {
            if a < m.len() {
                assert(r[a] == m[a]);
            }
        }
        assert(r[m.len() as int] == (k, v));
    }
}

proof fn lemma_from_pairs_ok(ps: Seq<(Seq<char>, Seq<char>)>)
    requires
        forall|i: int| 0 <= i < ps.len() ==> entry_ok(#[trigger] ps[i]),
    ensures
        env_ok(env_from_pairs(ps)),
    decreases ps.len(),
{
    if ps.len() > 0 {
        let t = ps.drop_last();
        assert forall|i: int| 0 <= i < t.len() implies entry_ok(#[trigger] t[i]) by {
            assert(t[i] == ps[i]);
        }
        lemma_from_pairs_ok(t);
        assert(entry_ok(ps[ps.len() - 1]));
        lemma_insert_ok(env_from_pairs(t), ps.last().0, ps.last().1);
    }
}

/// The lines of a prefix that contain `p`, where only line `q` does.
proof fn lemma_containing_prefix(ls: Seq<Seq<char>>, p: Seq<char>, q: int, n: int)
    requires
        0 <= q < ls.len(),
        0 <= n <= ls.len(),
        contains(ls[q], p),
        forall|i: int| 0 <= i < ls.len() && i != q ==> !contains(#[trigger] ls[i], p),
    ensures
        lines_containing(ls.take(n), p) == (if n > q {
            seq![ls[q]]
        } else {
            Seq::<Seq<char>>::empty()
        }),
    decreases n,
{
    if n > 0 {
        let t = ls.take(n);
        assert(t.drop_last() =~= ls.take(n - 1));
        assert(t.last() == ls[n - 1]);
        lemma_containing_prefix(ls, p, q, n - 1);
        if n - 1 == q {
            assert(Seq::<Seq<char>>::empty().push(ls[q]) =~= seq![ls[q]]);
        }
    } else {
        assert(ls.take(0) =~= Seq::<Seq<char>>::empty());
    }
}

/// The line that holds the port.
pub open spec fn port_line(port: u16) -> Seq<char> {
    "PORT_NUMBER="@ + decimal(port as nat)
}

/// The environment of a new deployment reads back: every entry does, no key
/// occurs twice, and the port's entry is there.
proof fn lemma_deployment_env_ok(
    ps: Seq<(Seq<char>, Seq<char>)>,
    theme_path: Seq<char>,
    basepath: Seq<char>,
    container: Seq<char>,
    rootproj: Seq<char>,
    rootprojname: Seq<char>,
    port: u16,
)
    requires
        forall|i: int| 0 <= i < ps.len() ==> entry_ok(#[trigger] ps[i]),
        plain_value(theme_path),
        plain_value(basepath),
        plain_value(container),
        plain_value(rootproj),
        plain_value(rootprojname),
    ensures
        ({
            let m = deployment_env(ps, theme_path, basepath, container, rootproj, rootprojname, port);
            &&& env_ok(m)
            &&& exists|q: int| 0 <= q < m.len() && #[trigger] m[q] == ("PORT_NUMBER"@, decimal(port as nat))
        }),
{
    let pn = "PORT_NUMBER"@;
    reveal_strlit("PORT_NUMBER");
    reveal_strlit("THEMEPATH");
    reveal_strlit("BASEPATH");
    reveal_strlit("CONTAINER_NAME");
    reveal_strlit("ROOTPROJ");
    reveal_strlit("ROOTPROJNAME");
    assert(pn[6] == 'U');
    lemma_not_contains_lacking("THEMEPATH"@, pn, 6);
    lemma_not_contains_lacking("BASEPATH"@, pn, 6);
    lemma_not_contains_lacking("CONTAINER_NAME"@, pn, 6);
    lemma_not_contains_lacking("ROOTPROJ"@, pn, 6);
    lemma_not_contains_lacking("ROOTPROJNAME"@, pn, 6);
    lemma_from_pairs_ok(ps);
    let m0 = env_from_pairs(ps);
    lemma_insert_ok(m0, "THEMEPATH"@, theme_path);
    let m1 = env_insert(m0, "THEMEPATH"@, theme_path);
    lemma_insert_ok(m1, "BASEPATH"@, basepath);
    let m2 = env_insert(m1, "BASEPATH"@, basepath);
    lemma_insert_ok(m2, "CONTAINER_NAME"@, container);
    let m3 = env_insert(m2, "CONTAINER_NAME"@, container);
    lemma_insert_ok(m3, "ROOTPROJ"@, rootproj);
    let m4 = env_insert(m3, "ROOTPROJ"@, rootproj);
    lemma_insert_ok(m4, "ROOTPROJNAME"@, rootprojname);
    let m5 = env_insert(m4, "ROOTPROJNAME"@, rootprojname);
    let d = decimal(port as nat);
    lemma_decimal_props(port as nat);
    assert(clean(d)) by {
        assert forall|i: int| 0 <= i < d.len() implies d[i] != '\n' && d[i] != '\r' by {
            assert(is_digit(d[i]));
        }
    }
    lemma_insert_ok(m5, pn, d);
    let m = env_insert(m5, pn, d);
    assert(m == deployment_env(ps, theme_path, basepath, container, rootproj, rootprojname, port));
    let q = choose|q: int| 0 <= q < m.len() && #[trigger] m[q] == (pn, d);
    assert(0 <= q < m.len() && m[q] == (pn, d));
}

/// The text of an entry's line, where the entry reads back.
proof fn lemma_entry_line_clean(e: (Seq<char>, Seq<char>))
    requires
        entry_ok(e),
    ensures
        clean(env_line(e)),
        e.0 != "PORT_NUMBER"@ ==> !contains(env_line(e), "PORT_NUMBER"@),
{
    reveal_strlit("PORT_NUMBER");
    reveal_strlit("=");
    let pn = "PORT_NUMBER"@;
    assert("="@ =~= seq!['=']);
    let l = env_line(e);
    assert(l =~= e.0 + seq!['='] + e.1);
    assert forall|j: int| 0 <= j < l.len() implies l[j] != '\n' && l[j] != '\r' by {
        if j < e.0.len() {
            assert(l[j] == e.0[j]);
        } else if j > e.0.len() {
            assert(l[j] == e.1[j - e.0.len() - 1]);
        }
    }
    if e.0 != pn {
        assert(lacks(pn, '=')) by {
            assert forall|i: int| 0 <= i < pn.len() implies pn[i] != '=' by {}
        }
        lemma_not_contains_around(e.0, '=', e.1, pn);
    }
}

/// Lines of which exactly one mentions `PORT_NUMBER`, the port's line, read
/// back the port when joined into a file.
proof fn lemma_port_of_lines(ls: Seq<Seq<char>>, q: int, port: u16)
    requires
        0 <= q < ls.len(),
        ls[q] == port_line(port),
        forall|i: int| 0 <= i < ls.len() ==> clean(#[trigger] ls[i]),
        forall|i: int| 0 <= i < ls.len() && i != q ==> !contains(#[trigger] ls[i], "PORT_NUMBER"@),
    ensures
        env_port(join(ls, "\n"@)) == Some(port),
{
    let pn = "PORT_NUMBER"@;
    reveal_strlit("PORT_NUMBER");
    reveal_strlit("PORT_NUMBER=");
    reveal_strlit("");
    let d = decimal(port as nat);
    lemma_decimal_props(port as nat);
    let x = port_line(port);
    assert(contains(x, pn)) by {
        assert(x.subrange(0, 11) =~= pn);
        assert(occurs_at(x, pn, 0));
    }
    assert forall|i: int| 0 <= i < ls.len() implies lacks(#[trigger] ls[i], '\n') && lacks(ls[i], '\r') by {
        assert(clean(ls[i]));
    }
    lemma_lines_join(ls);
    let content = join(ls, "\n"@);
    lemma_containing_prefix(ls, pn, q, ls.len() as int);
    assert(ls.take(ls.len() as int) =~= ls);
    if ls.last().len() == 0 {
        assert(q != ls.len() - 1);
        let t = ls.drop_last();
        assert(!contains(ls.last(), pn));
        assert(lines_containing(ls, pn) == lines_containing(t, pn));
    }
    assert(lines_containing(lines(content), pn) == seq![x]);
    assert(join(seq![x], ""@) == x);
    assert forall|j: int| 12 <= j < x.len() implies x[j] != '=' by {
        assert(x[j] == d[j - 12]);
        assert(is_digit(d[j - 12]));
    }
    assert(x[11] == '=');
    lemma_after_last_at(x, '=', 12);
    assert(x.subrange(12, x.len() as int) =~= d);
    lemma_parse_decimal(port);
}

/// The environment file of a new deployment reads back the deployment's
/// port, where no key or value holds a line break and none mentions
/// `PORT_NUMBER` (but a site's own `PORT_NUMBER` key, which the port
/// replaces).
pub proof fn lemma_port_round_trip(
    ps: Seq<(Seq<char>, Seq<char>)>,
    theme_path: Seq<char>,
    basepath: Seq<char>,
    container: Seq<char>,
    rootproj: Seq<char>,
    rootprojname: Seq<char>,
    port: u16,
)
    requires
        forall|i: int| 0 <= i < ps.len() ==> entry_ok(#[trigger] ps[i]),
        plain_value(theme_path),
        plain_value(basepath),
        plain_value(container),
        plain_value(rootproj),
        plain_value(rootprojname),
    ensures
        env_port(env_file_text(deployment_env(ps, theme_path, basepath, container, rootproj, rootprojname, port)))
            == Some(port),
{
    reveal_strlit("PORT_NUMBER");
    reveal_strlit("PORT_NUMBER=");
    reveal_strlit("=");
    lemma_deployment_env_ok(ps, theme_path, basepath, container, rootproj, rootprojname, port);
    let m = deployment_env(ps, theme_path, basepath, container, rootproj, rootprojname, port);
    let q = choose|q: int| 0 <= q < m.len() && #[trigger] m[q] == ("PORT_NUMBER"@, decimal(port as nat));
    let ls = m.map_values(|e: (Seq<char>, Seq<char>)| env_line(e));
    assert(ls[q] =~= port_line(port));
    assert forall|i: int| 0 <= i < ls.len() implies clean(#[trigger] ls[i]) by {
        lemma_entry_line_clean(m[i]);
    }
    assert forall|i: int| 0 <= i < ls.len() && i != q implies !contains(#[trigger] ls[i], "PORT_NUMBER"@) by {
        assert(m[i].0 != m[q].0);
        lemma_entry_line_clean(m[i]);
    }
    lemma_port_of_lines(ls, q, port);
}

/// A log entry as the pipeline writes it (`timed_log_entry`): a local time
/// stamp, and an action without a line feed.
pub open spec fn entry_fine(e: (Seq<char>, Seq<char>)) -> bool {
    &&& time_stamp_text(e.0)
    &&& lacks(e.1, '\n')
}

/// The text of a log of unfinished entries (time stamp and action each),
/// written one after the other.
pub open spec fn log_text(es: Seq<(Seq<char>, Seq<char>)>) -> Seq<char>
    decreases es.len(),
{
    if es.len() == 0 {
        Seq::empty()
    } else {
        log_entry_text(es[0].0, es[0].1, false, false) + log_text(es.drop_first())
    }
}

/// The line of an entry, as `lines` gives it.
pub open spec fn entry_line(e: (Seq<char>, Seq<char>)) -> Seq<char> {
    strip_cr(e.0 + "\t"@ + e.1)
}

/// Every line of `s` that is not empty starts with another character than
/// `c`, where `s` and every line after a line feed do.
proof fn lemma_lines_heads(s: Seq<char>, c: char)
    requires
        s.len() > 0 ==> s[0] != c,
        forall|i: int| 0 <= i < s.len() - 1 && #[trigger] s[i] == '\n' ==> s[i + 1] != c,
    ensures
        forall|j: int| 0 <= j < lines(s).len() && (#[trigger] lines(s)[j]).len() > 0 ==> lines(s)[j][0] != c,
    decreases s.len(),
{
    if s.len() > 0 {
        lemma_line_end_bounds(s);
        let i = line_end(s) as int;
        if i < s.len() {
            let first = strip_cr(s.take(i));
            let rest = s.skip(i + 1);
            assert forall|k: int| 0 <= k < rest.len() - 1 && #[trigger] rest[k] == '\n' implies rest[k + 1] != c by {
                assert(rest[k] == s[i + 1 + k]);
                assert(rest[k + 1] == s[i + 2 + k]);
            }
            if rest.len() > 0 {
                assert(rest[0] == s[i + 1]);
            }
            lemma_lines_heads(rest, c);
            assert(lines(s) == seq![first] + lines(rest));
            if first.len() > 0 {
                assert(first[0] == s[0]);
            }
            assert forall|j: int| 0 <= j < lines(s).len() && (#[trigger] lines(s)[j]).len() > 0 implies lines(s)[j][0]
                != c by {
                if j > 0 {
                    assert(lines(s)[j] == lines(rest)[j - 1]);
                }
            }
        }
    }
}

/// `strip_end` keeps a prefix.
proof fn lemma_strip_end_prefix(s: Seq<char>, ascii: bool)
    ensures
        strip_end(s, ascii).len() <= s.len(),
        forall|i: int| 0 <= i < strip_end(s, ascii).len() ==> #[trigger] strip_end(s, ascii)[i] == s[i],
    decreases s.len(),
{
    if s.len() > 0 && crate::text::is_sep(s.last(), ascii) {
        lemma_strip_end_prefix(s.drop_last(), ascii);
    }
}

/// An element that no element equals is not found.
proof fn lemma_first_index_absent(ls: Seq<Seq<char>>, x: Seq<char>)
    requires
        forall|j: int| 0 <= j < ls.len() ==> #[trigger] ls[j] != x,
    ensures
        first_index_of(ls, x) == ls.len(),
    decreases ls.len(),
{
    if ls.len() > 0 {
        assert(ls[0] != x);
        let t = ls.drop_first();
        assert forall|j: int| 0 <= j < t.len() implies #[trigger] t[j] != x by {
            assert(t[j] == ls[j + 1]);
        }
        lemma_first_index_absent(t, x);
    }
}

/// Searching past elements that differ from `x`.
proof fn lemma_first_index_after(a: Seq<Seq<char>>, b: Seq<Seq<char>>, x: Seq<char>)
    requires
        forall|j: int| 0 <= j < a.len() ==> #[trigger] a[j] != x,
    ensures
        first_index_of(a + b, x) == a.len() + first_index_of(b, x),
    decreases a.len(),
{
    if a.len() > 0 {
        assert((a + b)[0] == a[0]);
        assert((a + b).drop_first() =~= a.drop_first() + b);
        assert forall|j: int| 0 <= j < a.drop_first().len() implies #[trigger] a.drop_first()[j] != x by {
            assert(a.drop_first()[j] == a[j + 1]);
        }
        lemma_first_index_after(a.drop_first(), b, x);
    } else {
        assert(a + b =~= b);
    }
}

/// The shape of a log of unfinished entries: it starts with the first time
/// stamp, ends with a line feed, and a time stamp follows every line feed
/// but the last.
proof fn lemma_log_text_shape(es: Seq<(Seq<char>, Seq<char>)>)
    requires
        forall|i: int| 0 <= i < es.len() ==> entry_fine(#[trigger] es[i]),
    ensures
        log_text(es).len() > 0 ==> !is_ws(log_text(es)[0]) && log_text(es)[0] != '=' && log_text(es).last() == '\n',
        es.len() > 0 ==> log_text(es).len() > 0,
        forall|i: int| 0 <= i < log_text(es).len() - 1 && #[trigger] log_text(es)[i] == '\n' ==> log_text(es)[i + 1] != '=',
    decreases es.len(),
{
    reveal_strlit("\t");
    reveal_strlit("\n");
    if es.len() > 0 {
        let t = es.drop_first();
        assert forall|i: int| 0 <= i < t.len() implies entry_fine(#[trigger] t[i]) by {
            assert(t[i] == es[i + 1]);
        }
        lemma_log_text_shape(t);
        let e = es[0];
        assert(entry_fine(e));
        let x = e.0 + "\t"@ + e.1 + "\n"@;
        assert(log_entry_text(e.0, e.1, false, false) == x);
        let d = log_text(es);
        let r = log_text(t);
        assert(d == x + r);
        assert(d[0] == e.0[0]);
        assert forall|i: int| 0 <= i < d.len() - 1 && #[trigger] d[i] == '\n' implies d[i + 1] != '=' by {
            let n0 = e.0.len() as int;
            let n1 = e.1.len() as int;
            if i < n0 {
                assert(d[i] == e.0[i]);
            } else if i == n0 {
                assert(d[i] == '\t');
            } else if i < n0 + 1 + n1 {
                assert(d[i] == e.1[i - n0 - 1]);
            } else if i == n0 + 1 + n1 {
                assert(d[i + 1] == r[0]);
            } else {
                assert(d[i] == r[i - x.len()]);
                assert(d[i + 1] == r[i + 1 - x.len()]);
            }
        }
        if r.len() > 0 {
            assert(d.last() == r.last());
        } else {
            assert(d.last() == x.last());
        }
    }
}

/// The lines of a log of unfinished entries followed by more text.
proof fn lemma_log_text_lines(es: Seq<(Seq<char>, Seq<char>)>, rest: Seq<char>)
    requires
        forall|i: int| 0 <= i < es.len() ==> entry_fine(#[trigger] es[i]),
    ensures
        lines(log_text(es) + rest) == es.map_values(|e: (Seq<char>, Seq<char>)| entry_line(e)) + lines(rest),
    decreases es.len(),
{
    reveal_strlit("\t");
    reveal_strlit("\n");
    if es.len() == 0 {
        assert(log_text(es) + rest =~= rest);
        assert(es.map_values(|e: (Seq<char>, Seq<char>)| entry_line(e)) + lines(rest) =~= lines(rest));
    } else {
        let t = es.drop_first();
        assert forall|i: int| 0 <= i < t.len() implies entry_fine(#[trigger] t[i]) by {
            assert(t[i] == es[i + 1]);
        }
        lemma_log_text_lines(t, rest);
        let e = es[0];
        assert(entry_fine(e));
        let l = e.0 + "\t"@ + e.1;
        assert(lacks(l, '\n')) by {
            assert forall|i: int| 0 <= i < l.len() implies l[i] != '\n' by {
                if i < e.0.len() {
                    assert(l[i] == e.0[i]);
                } else if i > e.0.len() {
                    assert(l[i] == e.1[i - e.0.len() - 1]);
                }
            }
        }
        assert(log_text(es) + rest =~= l + seq!['\n'] + (log_text(t) + rest));
        lemma_lines_cons(l, log_text(t) + rest);
        assert(es.map_values(|e: (Seq<char>, Seq<char>)| entry_line(e)) =~= seq![entry_line(e)] + t.map_values(
            |e: (Seq<char>, Seq<char>)| entry_line(e),
        ));
    }
}

/// The line of a fine entry is not a `===` marker.
proof fn lemma_entry_line_not_marker(e: (Seq<char>, Seq<char>))
    requires
        entry_fine(e),
    ensures
        entry_line(e) != "==="@,
{
    reveal_strlit("===");
    reveal_strlit("\t");
    let l = e.0 + "\t"@ + e.1;
    assert(l.len() >= 2);
    assert(entry_line(e)[0] == l[0]);
    assert(l[0] == e.0[0]);
}

/// The lines of a list of entries.
pub open spec fn entry_lines(es: Seq<(Seq<char>, Seq<char>)>) -> Seq<Seq<char>> {
    es.map_values(|e: (Seq<char>, Seq<char>)| entry_line(e))
}

/// The line of a fine entry holds a tab, so it is none of the marker lines.
proof fn lemma_entry_line_plain(e: (Seq<char>, Seq<char>))
    requires
        entry_fine(e),
    ensures
        entry_line(e) != "==="@,
        entry_line(e) != "Ok"@,
        entry_line(e) != "Err"@,
{
    reveal_strlit("===");
    reveal_strlit("Ok");
    reveal_strlit("Err");
    reveal_strlit("\t");
    let l = e.0 + "\t"@ + e.1;
    let k = e.0.len() as int;
    assert(l[k] == '\t');
    let x = entry_line(e);
    assert(k < x.len());
    assert(x[k] == '\t');
    if x == "==="@ {
        assert("==="@[k] == '\t');
    }
    if x == "Ok"@ {
        assert("Ok"@[k] == '\t');
    }
    if x == "Err"@ {
        assert("Err"@[k] == '\t');
    }
}

/// Lines none of which is a marker are all kept.
proof fn lemma_message_lines_plain(ls: Seq<Seq<char>>)
    requires
        forall|j: int| 0 <= j < ls.len() ==> #[trigger] ls[j] != "==="@ && ls[j] != "Ok"@ && ls[j] != "Err"@,
    ensures
        message_lines(ls) == ls,
    decreases ls.len(),
{
    if ls.len() > 0 {
        let t = ls.drop_last();
        assert forall|j: int| 0 <= j < t.len() implies #[trigger] t[j] != "==="@ && t[j] != "Ok"@ && t[j] != "Err"@ by {
            assert(t[j] == ls[j]);
        }
        lemma_message_lines_plain(t);
        assert(t.push(ls.last()) =~= ls);
    }
}

/// The lines of fine entries are none of them a marker.
proof fn lemma_entry_lines_plain(es: Seq<(Seq<char>, Seq<char>)>)
    requires
        forall|i: int| 0 <= i < es.len() ==> entry_fine(#[trigger] es[i]),
    ensures
        forall|j: int|
            0 <= j < entry_lines(es).len() ==> #[trigger] entry_lines(es)[j] != "==="@ && entry_lines(es)[j] != "Ok"@
                && entry_lines(es)[j] != "Err"@,
{
    assert forall|j: int| 0 <= j < entry_lines(es).len() implies #[trigger] entry_lines(es)[j] != "==="@
        && entry_lines(es)[j] != "Ok"@ && entry_lines(es)[j] != "Err"@ by {
        lemma_entry_line_plain(es[j]);
    }
}

/// A log of unfinished entries reads back as neither finished nor failed,
/// with the lines of its entries as its text.
pub proof fn lemma_log_running(es: Seq<(Seq<char>, Seq<char>)>)
    requires
        es.len() > 0,
        forall|i: int| 0 <= i < es.len() ==> entry_fine(#[trigger] es[i]),
    ensures
        log_readable(Some(log_text(es))),
        log_status(Some(log_text(es))).0 == false,
        log_status(Some(log_text(es))).1 == false,
        log_status(Some(log_text(es))).2 == join(entry_lines(es), "\n"@),
{
    lemma_log_text_lines(es, Seq::empty());
    assert(log_text(es) + Seq::<char>::empty() =~= log_text(es));
    assert(entry_lines(es) + lines(Seq::<char>::empty()) =~= entry_lines(es));
    lemma_entry_lines_plain(es);
    lemma_message_lines_plain(entry_lines(es));
    reveal_strlit("===");
    lemma_log_text_shape(es);
    let d = log_text(es);
    assert(trim_start(d) == d);
    let t = trim(d);
    assert(t == strip_end(d, false));
    lemma_strip_end_prefix(d, false);
    assert forall|i: int| 0 <= i < t.len() - 1 && #[trigger] t[i] == '\n' implies t[i + 1] != '=' by {
        assert(t[i] == d[i]);
        assert(t[i + 1] == d[i + 1]);
    }
    if t.len() > 0 {
        assert(t[0] == d[0]);
    }
    lemma_lines_heads(t, '=');
    let ls = lines(t);
    assert forall|j: int| 0 <= j < ls.len() implies #[trigger] ls[j] != "==="@ by {
        if ls[j] == "==="@ {
            assert(ls[j].len() > 0);
            assert(ls[j][0] == '=');
        }
    }
    lemma_first_index_absent(ls, "==="@);
}

/// A log of unfinished entries followed by a finishing entry reads back as
/// finished, and as failed exactly when the finishing entry is an error;
/// its text is the lines of all the entries, followed by `Error` where the
/// log failed (the `===` and `Ok` markers are dropped).
pub proof fn lemma_log_finished(es: Seq<(Seq<char>, Seq<char>)>, timestamp: Seq<char>, action: Seq<char>, error: bool)
    requires
        forall|i: int| 0 <= i < es.len() ==> entry_fine(#[trigger] es[i]),
        entry_fine((timestamp, action)),
    ensures
        log_readable(Some(log_text(es) + log_entry_text(timestamp, action, true, error))),
        log_status(Some(log_text(es) + log_entry_text(timestamp, action, true, error))).0 == true,
        log_status(Some(log_text(es) + log_entry_text(timestamp, action, true, error))).1 == error,
        log_status(Some(log_text(es) + log_entry_text(timestamp, action, true, error))).2 == join(
            entry_lines(es).push(entry_line((timestamp, action))) + (if error {
                seq!["Error"@]
            } else {
                Seq::<Seq<char>>::empty()
            }),
            "\n"@,
        ),
{
    reveal_strlit("===");
    reveal_strlit("Ok");
    reveal_strlit("Error");
    reveal_strlit("\t");
    reveal_strlit("\n");
    reveal_strlit("\n===\nOk");
    reveal_strlit("\n===\nError");
    lemma_log_text_shape(es);
    let tail = if error { "Error"@ } else { "Ok"@ };
    let l = timestamp + "\t"@ + action;
    let f = log_entry_text(timestamp, action, true, error);
    assert(f =~= l + seq!['\n'] + ("==="@ + seq!['\n'] + tail));
    let d = log_text(es) + f;
    assert(d.len() > 0);
    if log_text(es).len() > 0 {
        assert(d[0] == log_text(es)[0]);
    } else {
        assert(d[0] == timestamp[0]);
    }
    assert(trim_start(d) == d);
    assert(d.last() == tail.last());
    lemma_strip_end_at(d, false, d.len() as int);
    assert(d.take(d.len() as int) =~= d);
    assert(trim(d) == d);
    lemma_log_text_lines(es, f);
    assert(lacks(l, '\n')) by {
        assert forall|i: int| 0 <= i < l.len() implies l[i] != '\n' by {
            if i < timestamp.len() {
                assert(l[i] == timestamp[i]);
            } else if i > timestamp.len() {
                assert(l[i] == action[i - timestamp.len() - 1]);
            }
        }
    }
    lemma_lines_cons(l, "==="@ + seq!['\n'] + tail);
    lemma_lines_cons("==="@, tail);
    lemma_lines_single(tail);
    let m = es.map_values(|e: (Seq<char>, Seq<char>)| entry_line(e));
    let ls = lines(d);
    assert(strip_cr("==="@) == "==="@);
    assert(ls =~= m + seq![entry_line((timestamp, action)), "==="@, tail]);
    assert forall|j: int| 0 <= j < m.len() implies #[trigger] m[j] != "==="@ by {
        lemma_entry_line_not_marker(es[j]);
    }
    lemma_entry_line_not_marker((timestamp, action));
    let a = m.push(entry_line((timestamp, action)));
    assert forall|j: int| 0 <= j < a.len() implies #[trigger] a[j] != "==="@ by {
        if j < m.len() {
            assert(a[j] == m[j]);
        }
    }
    assert(ls =~= a + seq!["==="@, tail]);
    lemma_first_index_after(a, seq!["==="@, tail], "==="@);
    assert(first_index_of(seq!["==="@, tail], "==="@) == 0);
    assert(ls.last() == tail);
    if error {
        assert(tail.len() != "Ok"@.len());
    }
    // the text: every line but the markers `===` and `Ok`
    lemma_entry_lines_plain(es);
    lemma_entry_line_plain((timestamp, action));
    assert(m == entry_lines(es));
    assert forall|j: int| 0 <= j < a.len() implies #[trigger] a[j] != "==="@ && a[j] != "Ok"@ && a[j] != "Err"@ by {
        if j < m.len() {
            assert(a[j] == m[j]);
        }
    }
    lemma_message_lines_plain(a);
    reveal_strlit("Err");
    assert(ls.drop_last() =~= a.push("==="@));
    assert(ls.drop_last().drop_last() =~= a);
    assert(ls.drop_last().last() == "==="@);
    assert(message_lines(ls.drop_last()) == message_lines(a));
    if error {
        assert("Error"@ != "Ok"@);
        assert("Error"@.len() != "Err"@.len());
        assert(message_lines(ls) =~= a + seq!["Error"@]);
    } else {
        assert(ls.last() == "Ok"@);
        assert(message_lines(ls) == message_lines(ls.drop_last()));
        assert(message_lines(ls) =~= a + Seq::<Seq<char>>::empty());
    }
}

/// The value of key `k` in a list of entries, if it has one.
pub open spec fn env_lookup(m: Seq<(Seq<char>, Seq<char>)>, k: Seq<char>) -> Option<Seq<char>> {
    if key_index(m, k) < m.len() {
        Some(m[key_index(m, k)].1)
    } else {
        None
    }
}

/// The last value a list of pairs gives key `k`, if any.
pub open spec fn last_value(ps: Seq<(Seq<char>, Seq<char>)>, k: Seq<char>) -> Option<Seq<char>>
    decreases ps.len(),
{
    if ps.len() == 0 {
        None
    } else if ps.last().0 == k {
        Some(ps.last().1)
    } else {
        last_value(ps.drop_last(), k)
    }
}

/// `key_index` is the first index holding the key, or the length.
proof fn lemma_key_index_at(m: Seq<(Seq<char>, Seq<char>)>, k: Seq<char>, i: int)
    requires
        0 <= i <= m.len(),
        i < m.len() ==> m[i].0 == k,
        forall|t: int| 0 <= t < i ==> (#[trigger] m[t]).0 != k,
    ensures
        key_index(m, k) == i,
    decreases i,
{
    if i > 0 {
        assert(m[0].0 != k);
        let d = m.drop_first();
        assert forall|t: int| 0 <= t < i - 1 implies (#[trigger] d[t]).0 != k by {
            assert(d[t] == m[t + 1]);
        }
        if i - 1 < d.len() {
            assert(d[i - 1] == m[i]);
        }
        lemma_key_index_at(d, k, i - 1);
    }
}

/// Inserting a key gives it the new value and leaves the others.
proof fn lemma_lookup_insert(m: Seq<(Seq<char>, Seq<char>)>, k: Seq<char>, v: Seq<char>, j: Seq<char>)
    ensures
        env_lookup(env_insert(m, k, v), j) == (if j == k {
            Some(v)
        } else {
            env_lookup(m, j)
        }),
{
    lemma_key_index(m, k);
    lemma_key_index(m, j);
    let i = key_index(m, k);
    let r = env_insert(m, k, v);
    let ij = key_index(m, j);
    if i < m.len() {
        assert(r.len() == m.len());
        if j == k {
            assert forall|t: int| 0 <= t < i implies (#[trigger] r[t]).0 != j by {
                assert(r[t] == m[t]);
            }
            lemma_key_index_at(r, j, i);
        } else {
            assert forall|t: int| 0 <= t < ij implies (#[trigger] r[t]).0 != j by {
                if t != i {
                    assert(r[t] == m[t]);
                }
            }
            if ij < m.len() {
                assert(ij != i);
                assert(r[ij] == m[ij]);
            }
            lemma_key_index_at(r, j, ij);
        }
    } else {
        assert(r.len() == m.len() + 1);
        assert(r[m.len() as int] == (k, v));
        if j == k {
            assert forall|t: int| 0 <= t < m.len() implies (#[trigger] r[t]).0 != j by {
                assert(r[t] == m[t]);
            }
            lemma_key_index_at(r, j, m.len() as int);
        } else if ij < m.len() {
            assert forall|t: int| 0 <= t < ij implies (#[trigger] r[t]).0 != j by {
                assert(r[t] == m[t]);
            }
            assert(r[ij] == m[ij]);
            lemma_key_index_at(r, j, ij);
        } else {
            assert forall|t: int| 0 <= t < r.len() implies (#[trigger] r[t]).0 != j by {
                if t < m.len() {
                    assert(r[t] == m[t]);
                }
            }
            lemma_key_index_at(r, j, r.len() as int);
        }
    }
}

/// The map that pairs form gives each key its last value.
proof fn lemma_lookup_from_pairs(ps: Seq<(Seq<char>, Seq<char>)>, k: Seq<char>)
    ensures
        env_lookup(env_from_pairs(ps), k) == last_value(ps, k),
    decreases ps.len(),
{
    if ps.len() == 0 {
        lemma_key_index(Seq::empty(), k);
    } else {
        lemma_lookup_from_pairs(ps.drop_last(), k);
        lemma_lookup_insert(env_from_pairs(ps.drop_last()), ps.last().0, ps.last().1, k);
    }
}

/// The environment of a new deployment keeps each of the site's own
/// variables at the last value the site gave it, except those the
/// deployment sets itself: the theme path, the base path, the container
/// name, the project and its name, and the port.
pub proof fn lemma_site_variables_kept(
    ps: Seq<(Seq<char>, Seq<char>)>,
    theme_path: Seq<char>,
    basepath: Seq<char>,
    container: Seq<char>,
    rootproj: Seq<char>,
    rootprojname: Seq<char>,
    port: u16,
    k: Seq<char>,
)
    ensures
        ({
            let m = deployment_env(ps, theme_path, basepath, container, rootproj, rootprojname, port);
            env_lookup(m, k) == if k == "PORT_NUMBER"@ {
                Some(decimal(port as nat))
            } else if k == "ROOTPROJNAME"@ {
                Some(rootprojname)
            } else if k == "ROOTPROJ"@ {
                Some(rootproj)
            } else if k == "CONTAINER_NAME"@ {
                Some(container)
            } else if k == "BASEPATH"@ {
                Some(basepath)
            } else if k == "THEMEPATH"@ {
                Some(theme_path)
            } else {
                last_value(ps, k)
            }
        }),
{
    let m0 = env_from_pairs(ps);
    lemma_lookup_from_pairs(ps, k);
    let m1 = env_insert(m0, "THEMEPATH"@, theme_path);
    lemma_lookup_insert(m0, "THEMEPATH"@, theme_path, k);
    let m2 = env_insert(m1, "BASEPATH"@, basepath);
    lemma_lookup_insert(m1, "BASEPATH"@, basepath, k);
    let m3 = env_insert(m2, "CONTAINER_NAME"@, container);
    lemma_lookup_insert(m2, "CONTAINER_NAME"@, container, k);
    let m4 = env_insert(m3, "ROOTPROJ"@, rootproj);
    lemma_lookup_insert(m3, "ROOTPROJ"@, rootproj, k);
    let m5 = env_insert(m4, "ROOTPROJNAME"@, rootprojname);
    lemma_lookup_insert(m4, "ROOTPROJNAME"@, rootprojname, k);
    lemma_lookup_insert(m5, "PORT_NUMBER"@, decimal(port as nat), k);
}

/// A text that neither starts nor ends with whitespace.
pub open spec fn unpadded(s: Seq<char>) -> bool {
    s.len() == 0 || (!is_ws(s[0]) && !is_ws(s.last()))
}

/// Neither the key nor the value of an entry starts or ends with whitespace.
pub open spec fn entry_unpadded(e: (Seq<char>, Seq<char>)) -> bool {
    unpadded(e.0) && unpadded(e.1)
}

proof fn lemma_insert_unpadded(m: Seq<(Seq<char>, Seq<char>)>, k: Seq<char>, v: Seq<char>)
    requires
        forall|i: int| 0 <= i < m.len() ==> entry_unpadded(#[trigger] m[i]),
        entry_unpadded((k, v)),
    ensures
        forall|i: int| 0 <= i < env_insert(m, k, v).len() ==> entry_unpadded(#[trigger] env_insert(m, k, v)[i]),
{
    lemma_key_index(m, k);
    let i = key_index(m, k);
    let r = env_insert(m, k, v);
    assert forall|a: int| 0 <= a < r.len() implies entry_unpadded(#[trigger] r[a]) by {
        if i < m.len() {
            if a != i {
                assert(r[a] == m[a]);
            }
        } else if a < m.len() {
            assert(r[a] == m[a]);
        }
    }
}

proof fn lemma_from_pairs_unpadded(ps: Seq<(Seq<char>, Seq<char>)>)
    requires
        forall|i: int| 0 <= i < ps.len() ==> entry_unpadded(#[trigger] ps[i]),
    ensures
        forall|i: int| 0 <= i < env_from_pairs(ps).len() ==> entry_unpadded(#[trigger] env_from_pairs(ps)[i]),
    decreases ps.len(),
{
    if ps.len() > 0 {
        let t = ps.drop_last();
        assert forall|i: int| 0 <= i < t.len() implies entry_unpadded(#[trigger] t[i]) by {
            assert(t[i] == ps[i]);
        }
        lemma_from_pairs_unpadded(t);
        assert(entry_unpadded(ps[ps.len() - 1]));
        lemma_insert_unpadded(env_from_pairs(t), ps.last().0, ps.last().1);
    }
}

/// The first and last characters of lines joined by line feeds.
proof fn lemma_join_ends(ls: Seq<Seq<char>>)
    requires
        ls.len() > 0,
        ls[0].len() > 0,
        ls.last().len() > 0,
    ensures
        join(ls, "\n"@).len() > 0,
        join(ls, "\n"@)[0] == ls[0][0],
        join(ls, "\n"@).last() == ls.last().last(),
{
    if ls.len() == 1 {
        assert(join(ls, "\n"@) == ls[0]);
    } else {
        let rest = ls.drop_first();
        assert(ls =~= seq![ls[0]] + rest);
        lemma_join_cons(ls[0], rest, "\n"@);
        assert(join(ls, "\n"@) == join(ls.drop_last(), "\n"@) + "\n"@ + ls.last());
    }
}

/// A redeployment keeps the port of a site installed with the deployment's
/// environment file, where that file's keys and values neither hold line
/// breaks nor start or end with whitespace and only the port's key mentions
/// `PORT_NUMBER`, where the redeployment brings variables, and where the
/// last of them is not a prefix of the port's line and its line and the
/// project's directory and name do not mention `PORT_NUMBER`.
pub proof fn lemma_port_kept_on_redeploy(
    ps: Seq<(Seq<char>, Seq<char>)>,
    theme_path: Seq<char>,
    basepath: Seq<char>,
    container: Seq<char>,
    rootproj: Seq<char>,
    rootprojname: Seq<char>,
    port: u16,
    qs: Seq<(Seq<char>, Seq<char>)>,
    project_dir: Seq<char>,
    project_name: Seq<char>,
)
    requires
        forall|i: int| 0 <= i < ps.len() ==> entry_ok(#[trigger] ps[i]) && entry_unpadded(ps[i]),
        plain_value(theme_path) && unpadded(theme_path),
        plain_value(basepath) && unpadded(basepath),
        plain_value(container) && unpadded(container),
        plain_value(rootproj) && unpadded(rootproj),
        plain_value(rootprojname) && unpadded(rootprojname),
        qs.len() > 0,
        entry_ok(env_from_pairs(qs).last()),
        !starts_with(port_line(port), env_from_pairs(qs).last().0),
        plain_value(project_dir),
        plain_value(project_name),
    ensures
        env_port(
            updated_env_text(
                env_file_text(deployment_env(ps, theme_path, basepath, container, rootproj, rootprojname, port)),
                env_from_pairs(qs),
                project_dir,
                project_name,
            ),
        ) == Some(port),
{
    let pn = "PORT_NUMBER"@;
    reveal_strlit("PORT_NUMBER");
    reveal_strlit("PORT_NUMBER=");
    reveal_strlit("THEMEPATH");
    reveal_strlit("BASEPATH");
    reveal_strlit("CONTAINER_NAME");
    reveal_strlit("ROOTPROJ");
    reveal_strlit("ROOTPROJNAME");
    reveal_strlit("ROOTPROJ=");
    reveal_strlit("ROOTPROJNAME=");
    reveal_strlit("=");
    reveal_strlit("\n");
    lemma_deployment_env_ok(ps, theme_path, basepath, container, rootproj, rootprojname, port);
    let m = deployment_env(ps, theme_path, basepath, container, rootproj, rootprojname, port);
    let q = choose|q: int| 0 <= q < m.len() && #[trigger] m[q] == (pn, decimal(port as nat));
    // every entry is unpadded
    lemma_decimal_props(port as nat);
    let d = decimal(port as nat);
    assert(unpadded(d)) by {
        assert(is_digit(d[0]));
        assert(is_digit(d[d.len() - 1]));
    }
    assert forall|i: int| 0 <= i < ps.len() implies entry_unpadded(#[trigger] ps[i]) by {}
    lemma_from_pairs_unpadded(ps);
    let m0 = env_from_pairs(ps);
    lemma_insert_unpadded(m0, "THEMEPATH"@, theme_path);
    let m1 = env_insert(m0, "THEMEPATH"@, theme_path);
    lemma_insert_unpadded(m1, "BASEPATH"@, basepath);
    let m2 = env_insert(m1, "BASEPATH"@, basepath);
    lemma_insert_unpadded(m2, "CONTAINER_NAME"@, container);
    let m3 = env_insert(m2, "CONTAINER_NAME"@, container);
    lemma_insert_unpadded(m3, "ROOTPROJ"@, rootproj);
    let m4 = env_insert(m3, "ROOTPROJ"@, rootproj);
    lemma_insert_unpadded(m4, "ROOTPROJNAME"@, rootprojname);
    let m5 = env_insert(m4, "ROOTPROJNAME"@, rootprojname);
    lemma_insert_unpadded(m5, pn, d);
    assert(env_insert(m5, pn, d) == m);
    // the file's lines
    let ls = m.map_values(|e: (Seq<char>, Seq<char>)| env_line(e));
    assert forall|i: int| 0 <= i < ls.len() implies clean(#[trigger] ls[i]) by {
        lemma_entry_line_clean(m[i]);
    }
    let content = join(ls, "\n"@);
    assert(content == env_file_text(m));
    assert("="@ =~= seq!['=']);
    let first = m[0];
    let last = m[m.len() - 1];
    assert(entry_unpadded(first) && entry_unpadded(last));
    assert(ls[0] =~= first.0 + seq!['='] + first.1);
    assert(ls.last() =~= last.0 + seq!['='] + last.1);
    lemma_join_ends(ls);
    assert(!is_ws(content[0])) by {
        if first.0.len() > 0 {
            assert(ls[0][0] == first.0[0]);
        } else {
            assert(ls[0][0] == '=');
        }
    }
    assert(!is_ws(content.last())) by {
        if last.1.len() > 0 {
            assert(ls.last().last() == last.1.last());
        } else {
            assert(ls.last().last() == '=');
        }
    }
    assert(trim_start(content) == content);
    assert(strip_end(content, false) == content);
    assert(trim(content) == content);
    assert("\n"@ =~= seq!['\n']);
    assert forall|i: int| 0 <= i < ls.len() implies lacks(#[trigger] ls[i], '\n') by {
        assert(clean(ls[i]));
    }
    lemma_split_join(ls, '\n');
    // the updated lines
    let env2 = env_from_pairs(qs);
    assert(env2.len() > 0) by {
        lemma_key_index(env_from_pairs(qs.drop_last()), qs.last().0);
    }
    let e = env2.last();
    lemma_entry_line_clean(e);
    let f = |l: Seq<char>| updated_env_line(l, env2, project_dir, project_name);
    let ls2 = ls.map_values(f);
    let x = port_line(port);
    assert(ls[q] =~= x);
    assert(!starts_with(x, "ROOTPROJ"@)) by {
        assert(x.subrange(0, 8)[0] == 'P');
    }
    assert(!starts_with(x, "ROOTPROJNAME"@)) by {
        assert(x.subrange(0, 12)[0] == 'P');
    }
    assert(ls2[q] == x);
    assert(e.0 != pn) by {
        if e.0 == pn {
            assert(x.subrange(0, 11) =~= pn);
        }
    }
    assert(pn[6] == 'U');
    lemma_not_contains_lacking("ROOTPROJ"@, pn, 6);
    lemma_not_contains_lacking("ROOTPROJNAME"@, pn, 6);
    assert(lacks(pn, '=')) by {
        assert forall|i: int| 0 <= i < pn.len() implies pn[i] != '=' by {}
    }
    lemma_not_contains_around("ROOTPROJ"@, '=', project_dir, pn);
    lemma_not_contains_around("ROOTPROJNAME"@, '=', project_name, pn);
    assert("ROOTPROJ="@ + project_dir =~= "ROOTPROJ"@ + seq!['='] + project_dir);
    assert("ROOTPROJNAME="@ + project_name =~= "ROOTPROJNAME"@ + seq!['='] + project_name);
    assert(clean("ROOTPROJ="@ + project_dir)) by {
        let l = "ROOTPROJ="@ + project_dir;
        assert forall|j: int| 0 <= j < l.len() implies l[j] != '\n' && l[j] != '\r' by {
            if j >= 9 {
                assert(l[j] == project_dir[j - 9]);
            }
        }
    }
    assert(clean("ROOTPROJNAME="@ + project_name)) by {
        let l = "ROOTPROJNAME="@ + project_name;
        assert forall|j: int| 0 <= j < l.len() implies l[j] != '\n' && l[j] != '\r' by {
            if j >= 13 {
                assert(l[j] == project_name[j - 13]);
            }
        }
    }
    assert forall|i: int| 0 <= i < ls2.len() implies clean(#[trigger] ls2[i]) by {
        assert(clean(ls[i]));
    }
    assert forall|i: int| 0 <= i < ls2.len() && i != q implies !contains(#[trigger] ls2[i], pn) by {
        assert(m[i].0 != m[q].0);
        lemma_entry_line_clean(m[i]);
    }
    lemma_port_of_lines(ls2, q, port);
    assert(split_char(trim(content), '\n').map_values(f) == ls2);
}

/// After a row is added for a server name that no row held, the table
/// holds the name and the added row is the first (and only) one for it:
/// a theme lookup for the name reads the added row's theme.
pub proof fn lemma_added_row_selected(rows: Seq<DeployRow>, row: DeployRow)
    requires
        !deployed(rows, row.2@),
    ensures
        deployed(rows.push(row), row.2@),
        first_deployed(rows.push(row), rows.len() as int, row.2@),
        forall|i: int| #[trigger] first_deployed(rows.push(row), i, row.2@) ==> i == rows.len(),
{
    let r2 = rows.push(row);
    assert(r2[rows.len() as int] == row);
    assert forall|j: int| 0 <= j < rows.len() implies (#[trigger] r2[j]).2@ != row.2@ by {
        assert(r2[j] == rows[j]);
        if rows[j].2@ == row.2@ {
            assert(0 <= j < rows.len() && rows[j].2@ == row.2@);
        }
    }
    assert forall|i: int| #[trigger] first_deployed(r2, i, row.2@) implies i == rows.len() by {
        if i < rows.len() {
            assert(r2[i].2@ != row.2@);
        }
    }
}

/// An entry whose action does not end with a carriage return has its time
/// stamp, a tab and its action as its line, which is a plain line.
proof fn lemma_plain_entry_line(e: (Seq<char>, Seq<char>))
    requires
        entry_fine(e),
        plain_line(e.1),
    ensures
        entry_line(e) == e.0 + "\t"@ + e.1,
        plain_line(entry_line(e)),
        entry_line(e).len() > 0,
{
    reveal_strlit("\t");
    let l = e.0 + "\t"@ + e.1;
    if e.1.len() > 0 {
        assert(l.last() == e.1.last());
    } else {
        assert(l.last() == '\t');
    }
    assert forall|i: int| 0 <= i < l.len() implies l[i] != '\n' by {
        if i < e.0.len() {
            assert(l[i] == e.0[i]);
        } else if i > e.0.len() {
            assert(l[i] == e.1[i - e.0.len() - 1]);
        }
    }
}

/// The text of a finished log, line by line: each entry's time stamp, a tab
/// and its action, then `Error` where the log failed; no line is `===` or
/// `Ok`. (A carriage return that ends an action would be dropped by the
/// line split, so actions here end otherwise.)
pub proof fn lemma_log_finished_lines(
    es: Seq<(Seq<char>, Seq<char>)>,
    timestamp: Seq<char>,
    action: Seq<char>,
    error: bool,
)
    requires
        forall|i: int| 0 <= i < es.len() ==> entry_fine(#[trigger] es[i]) && plain_line(es[i].1),
        entry_fine((timestamp, action)),
        plain_line(action),
    ensures
        lines(log_status(Some(log_text(es) + log_entry_text(timestamp, action, true, error))).2) == es.map_values(
            |e: (Seq<char>, Seq<char>)| e.0 + "\t"@ + e.1,
        ).push(timestamp + "\t"@ + action) + (if error {
            seq!["Error"@]
        } else {
            Seq::<Seq<char>>::empty()
        }),
        forall|j: int|
            0 <= j < lines(log_status(Some(log_text(es) + log_entry_text(timestamp, action, true, error))).2).len()
                ==> #[trigger] lines(log_status(Some(log_text(es) + log_entry_text(timestamp, action, true, error))).2)[j]
                != "==="@ && lines(log_status(Some(log_text(es) + log_entry_text(timestamp, action, true, error))).2)[j]
                != "Ok"@,
{
    reveal_strlit("Error");
    reveal_strlit("===");
    reveal_strlit("Ok");
    lemma_log_finished(es, timestamp, action, error);
    let tail = if error {
        seq!["Error"@]
    } else {
        Seq::<Seq<char>>::empty()
    };
    let m = es.map_values(|e: (Seq<char>, Seq<char>)| e.0 + "\t"@ + e.1);
    assert forall|i: int| 0 <= i < es.len() implies #[trigger] entry_lines(es)[i] == m[i] && plain_line(m[i]) by {
        lemma_plain_entry_line(es[i]);
    }
    assert(entry_lines(es) =~= m);
    lemma_plain_entry_line((timestamp, action));
    let ls = m.push(timestamp + "\t"@ + action) + tail;
    assert forall|i: int| 0 <= i < ls.len() implies plain_line(#[trigger] ls[i]) by {
        if i < m.len() {
            assert(ls[i] == m[i]);
        } else if i == m.len() {
            assert(ls[i] == timestamp + "\t"@ + action);
        } else {
            assert(ls[i] == "Error"@);
            assert(lacks("Error"@, '\n'));
        }
    }
    assert(ls.last().len() > 0);
    lemma_lines_join_plain(ls);
    lemma_entry_lines_plain(es);
    lemma_entry_line_plain((timestamp, action));
    assert forall|j: int| 0 <= j < ls.len() implies #[trigger] ls[j] != "==="@ && ls[j] != "Ok"@ by {
        if j < m.len() {
            assert(ls[j] == entry_lines(es)[j]);
        } else if j > m.len() {
            assert(ls[j] == "Error"@);
            assert("Error"@.len() != "Ok"@.len());
        }
    }
}

/// Every key and value of the entries is free of line breaks.
pub open spec fn all_clean(m: Seq<(Seq<char>, Seq<char>)>) -> bool {
    forall|i: int| 0 <= i < m.len() ==> clean((#[trigger] m[i]).0) && clean(m[i].1)
}

proof fn lemma_insert_clean(m: Seq<(Seq<char>, Seq<char>)>, k: Seq<char>, v: Seq<char>)
    requires
        all_clean(m),
        clean(k),
        clean(v),
    ensures
        all_clean(env_insert(m, k, v)),
{
    lemma_key_index(m, k);
    let i = key_index(m, k);
    let r = env_insert(m, k, v);
    assert forall|a: int| 0 <= a < r.len() implies clean((#[trigger] r[a]).0) && clean(r[a].1) by {
        if a < m.len() && a != i {
            assert(r[a] == m[a]);
        }
    }
}

proof fn lemma_from_pairs_clean(ps: Seq<(Seq<char>, Seq<char>)>)
    requires
        all_clean(ps),
    ensures
        all_clean(env_from_pairs(ps)),
    decreases ps.len(),
{
    if ps.len() > 0 {
        let t = ps.drop_last();
        assert forall|i: int| 0 <= i < t.len() implies clean((#[trigger] t[i]).0) && clean(t[i].1) by {
            assert(t[i] == ps[i]);
        }
        lemma_from_pairs_clean(t);
        assert(clean(ps[ps.len() - 1].0) && clean(ps[ps.len() - 1].1));
        lemma_insert_clean(env_from_pairs(t), ps.last().0, ps.last().1);
    }
}

/// The environment file of a new deployment names the project it was
/// written with: it has the line `ROOTPROJNAME=<project>`, so checking it
/// for that project answers yes, where no key or value holds a line break.
pub proof fn lemma_written_env_uses_project(
    ps: Seq<(Seq<char>, Seq<char>)>,
    theme_path: Seq<char>,
    basepath: Seq<char>,
    container: Seq<char>,
    rootproj: Seq<char>,
    rootprojname: Seq<char>,
    port: u16,
)
    requires
        all_clean(ps),
        clean(theme_path),
        clean(basepath),
        clean(container),
        clean(rootproj),
        clean(rootprojname),
    ensures
        lines(env_file_text(deployment_env(ps, theme_path, basepath, container, rootproj, rootprojname, port))).contains(
            "ROOTPROJNAME="@ + rootprojname,
        ),
        uses_project_spec(
            env_file_text(deployment_env(ps, theme_path, basepath, container, rootproj, rootprojname, port)),
            rootprojname,
        ),
{
    reveal_strlit("THEMEPATH");
    reveal_strlit("BASEPATH");
    reveal_strlit("CONTAINER_NAME");
    reveal_strlit("ROOTPROJ");
    reveal_strlit("ROOTPROJNAME");
    reveal_strlit("PORT_NUMBER");
    reveal_strlit("ROOTPROJNAME=");
    reveal_strlit("=");
    lemma_from_pairs_clean(ps);
    let m0 = env_from_pairs(ps);
    lemma_insert_clean(m0, "THEMEPATH"@, theme_path);
    let m1 = env_insert(m0, "THEMEPATH"@, theme_path);
    lemma_insert_clean(m1, "BASEPATH"@, basepath);
    let m2 = env_insert(m1, "BASEPATH"@, basepath);
    lemma_insert_clean(m2, "CONTAINER_NAME"@, container);
    let m3 = env_insert(m2, "CONTAINER_NAME"@, container);
    lemma_insert_clean(m3, "ROOTPROJ"@, rootproj);
    let m4 = env_insert(m3, "ROOTPROJ"@, rootproj);
    lemma_insert_clean(m4, "ROOTPROJNAME"@, rootprojname);
    let m5 = env_insert(m4, "ROOTPROJNAME"@, rootprojname);
    let d = decimal(port as nat);
    lemma_decimal_props(port as nat);
    assert(clean(d)) by {
        assert forall|i: int| 0 <= i < d.len() implies d[i] != '\n' && d[i] != '\r' by {
            assert(is_digit(d[i]));
        }
    }
    lemma_insert_clean(m5, "PORT_NUMBER"@, d);
    let m = deployment_env(ps, theme_path, basepath, container, rootproj, rootprojname, port);
    assert(m == env_insert(m5, "PORT_NUMBER"@, d));
    lemma_site_variables_kept(ps, theme_path, basepath, container, rootproj, rootprojname, port, "ROOTPROJNAME"@);
    assert("ROOTPROJNAME"@ != "PORT_NUMBER"@);
    lemma_key_index(m, "ROOTPROJNAME"@);
    let q = key_index(m, "ROOTPROJNAME"@);
    assert(q < m.len());
    assert(m[q] == ("ROOTPROJNAME"@, rootprojname));
    let ls = m.map_values(|e: (Seq<char>, Seq<char>)| env_line(e));
    assert forall|i: int| 0 <= i < ls.len() implies lacks(#[trigger] ls[i], '\n') && lacks(ls[i], '\r') by {
        let e = m[i];
        assert(clean(e.0) && clean(e.1));
        let l = env_line(e);
        assert(ls[i] == l);
        assert forall|j: int| 0 <= j < l.len() implies l[j] != '\n' && l[j] != '\r' by {
            if j < e.0.len() {
                assert(l[j] == e.0[j]);
            } else if j > e.0.len() {
                assert(l[j] == e.1[j - e.0.len() - 1]);
            } else {
                assert(l[j] == '=');
            }
        }
    }
    assert(ls[q] =~= "ROOTPROJNAME="@ + rootprojname);
    assert(ls.last().len() > 0) by {
        assert(ls.last() == env_line(m[m.len() - 1]));
    }
    lemma_lines_join(ls);
    assert(env_file_text(m) == join(ls, "\n"@));
    assert(lines(env_file_text(m)) == ls);
    assert(ls[q] == "ROOTPROJNAME="@ + rootprojname);
}

/// Entries free of line breaks, with keys that hold no `=` and occur once.
pub open spec fn env_lines_ok(m: Seq<(Seq<char>, Seq<char>)>) -> bool {
    &&& all_clean(m)
    &&& keys_unique(m)
    &&& forall|i: int| 0 <= i < m.len() ==> lacks((#[trigger] m[i]).0, '=')
}

proof fn lemma_insert_lines_ok(m: Seq<(Seq<char>, Seq<char>)>, k: Seq<char>, v: Seq<char>)
    requires
        env_lines_ok(m),
        clean(k),
        clean(v),
        lacks(k, '='),
    ensures
        env_lines_ok(env_insert(m, k, v)),
{
    lemma_insert_clean(m, k, v);
    lemma_key_index(m, k);
    let i = key_index(m, k);
    let r = env_insert(m, k, v);
    assert forall|a: int| 0 <= a < r.len() implies lacks((#[trigger] r[a]).0, '=') by {
        if a < m.len() && a != i {
            assert(r[a] == m[a]);
        }
    }
    assert forall|a: int, b: int| 0 <= a < b < r.len() implies (#[trigger] r[a]).0 != (#[trigger] r[b]).0 by {
        if i < m.len() {
            if a != i && b != i {
                assert(r[a] == m[a] && r[b] == m[b]);
            } else if a == i {
                assert(r[b] == m[b]);
                assert(m[a].0 != m[b].0);
            } else {
                assert(r[a] == m[a]);
                assert(m[a].0 != m[b].0);
            }
        } else {
            assert(r[a] == m[a]);
            if b < m.len() {
                assert(r[b] == m[b]);
            }
        }
    }
}

proof fn lemma_from_pairs_lines_ok(ps: Seq<(Seq<char>, Seq<char>)>)
    requires
        all_clean(ps),
        forall|i: int| 0 <= i < ps.len() ==> lacks((#[trigger] ps[i]).0, '='),
    ensures
        env_lines_ok(env_from_pairs(ps)),
    decreases ps.len(),
{
    if ps.len() > 0 {
        let t = ps.drop_last();
        assert forall|i: int| 0 <= i < t.len() implies clean((#[trigger] t[i]).0) && clean(t[i].1) && lacks(t[i].0, '=') by {
            assert(t[i] == ps[i]);
        }
        lemma_from_pairs_lines_ok(t);
        assert(clean(ps[ps.len() - 1].0) && clean(ps[ps.len() - 1].1) && lacks(ps[ps.len() - 1].0, '='));
        lemma_insert_lines_ok(env_from_pairs(t), ps.last().0, ps.last().1);
    } else {
        assert(env_from_pairs(ps) =~= Seq::<(Seq<char>, Seq<char>)>::empty());
    }
}

/// A line `k=v` whose key holds no `=` is `ROOTPROJNAME=x` only for the key
/// `ROOTPROJNAME` and the value `x`.
proof fn lemma_project_line(k: Seq<char>, v: Seq<char>, x: Seq<char>)
    requires
        lacks(k, '='),
        env_line((k, v)) == "ROOTPROJNAME="@ + x,
    ensures
        k == "ROOTPROJNAME"@,
        v == x,
{
    reveal_strlit("ROOTPROJNAME=");
    reveal_strlit("ROOTPROJNAME");
    reveal_strlit("=");
    let l = env_line((k, v));
    let t = "ROOTPROJNAME="@ + x;
    assert(l =~= k + seq!['='] + v);
    assert(l[k.len() as int] == '=');
    assert(t[12] == '=');
    if k.len() < 12 {
        assert(l[k.len() as int] == t[k.len() as int]);
        assert("ROOTPROJNAME"@[k.len() as int] != '=');
    } else if k.len() > 12 {
        assert(l[12] == k[12]);
    }
    assert(k =~= l.take(12));
    assert(l.take(12) =~= "ROOTPROJNAME"@);
    assert(v =~= l.skip(13));
    assert(t.skip(13) =~= x);
}

/// The environment of a new deployment holds its entries on one line each
/// and names one project: where no key or value holds a line break and no
/// key of the site's own variables holds `=`, checking the file for any
/// other project name answers no.
pub proof fn lemma_written_env_other_project(
    ps: Seq<(Seq<char>, Seq<char>)>,
    theme_path: Seq<char>,
    basepath: Seq<char>,
    container: Seq<char>,
    rootproj: Seq<char>,
    rootprojname: Seq<char>,
    port: u16,
    other: Seq<char>,
)
    requires
        all_clean(ps),
        forall|i: int| 0 <= i < ps.len() ==> lacks((#[trigger] ps[i]).0, '='),
        clean(theme_path),
        clean(basepath),
        clean(container),
        clean(rootproj),
        clean(rootprojname),
        other != rootprojname,
    ensures
        !uses_project_spec(
            env_file_text(deployment_env(ps, theme_path, basepath, container, rootproj, rootprojname, port)),
            other,
        ),
{
    reveal_strlit("THEMEPATH");
    reveal_strlit("BASEPATH");
    reveal_strlit("CONTAINER_NAME");
    reveal_strlit("ROOTPROJ");
    reveal_strlit("ROOTPROJNAME");
    reveal_strlit("PORT_NUMBER");
    reveal_strlit("=");
    lemma_from_pairs_lines_ok(ps);
    let m0 = env_from_pairs(ps);
    lemma_insert_lines_ok(m0, "THEMEPATH"@, theme_path);
    let m1 = env_insert(m0, "THEMEPATH"@, theme_path);
    lemma_insert_lines_ok(m1, "BASEPATH"@, basepath);
    let m2 = env_insert(m1, "BASEPATH"@, basepath);
    lemma_insert_lines_ok(m2, "CONTAINER_NAME"@, container);
    let m3 = env_insert(m2, "CONTAINER_NAME"@, container);
    lemma_insert_lines_ok(m3, "ROOTPROJ"@, rootproj);
    let m4 = env_insert(m3, "ROOTPROJ"@, rootproj);
    lemma_insert_lines_ok(m4, "ROOTPROJNAME"@, rootprojname);
    let m5 = env_insert(m4, "ROOTPROJNAME"@, rootprojname);
    let d = decimal(port as nat);
    lemma_decimal_props(port as nat);
    assert(clean(d)) by {
        assert forall|i: int| 0 <= i < d.len() implies d[i] != '\n' && d[i] != '\r' by {
            assert(is_digit(d[i]));
        }
    }
    lemma_insert_lines_ok(m5, "PORT_NUMBER"@, d);
    let m = deployment_env(ps, theme_path, basepath, container, rootproj, rootprojname, port);
    assert(m == env_insert(m5, "PORT_NUMBER"@, d));
    lemma_site_variables_kept(ps, theme_path, basepath, container, rootproj, rootprojname, port, "ROOTPROJNAME"@);
    assert("ROOTPROJNAME"@ != "PORT_NUMBER"@);
    lemma_key_index(m, "ROOTPROJNAME"@);
    let q = key_index(m, "ROOTPROJNAME"@);
    assert(m[q] == ("ROOTPROJNAME"@, rootprojname));
    let ls = m.map_values(|e: (Seq<char>, Seq<char>)| env_line(e));
    assert forall|i: int| 0 <= i < ls.len() implies lacks(#[trigger] ls[i], '\n') && lacks(ls[i], '\r') by {
        let e = m[i];
        assert(clean(e.0) && clean(e.1));
        let l = env_line(e);
        assert(ls[i] == l);
        assert forall|j: int| 0 <= j < l.len() implies l[j] != '\n' && l[j] != '\r' by {
            if j < e.0.len() {
                assert(l[j] == e.0[j]);
            } else if j > e.0.len() {
                assert(l[j] == e.1[j - e.0.len() - 1]);
            } else {
                assert(l[j] == '=');
            }
        }
    }
    if m.len() > 0 {
        assert(ls.last().len() > 0) by {
            assert(ls.last() == env_line(m[m.len() - 1]));
        }
        lemma_lines_join(ls);
    }
    assert(env_file_text(m) == join(ls, "\n"@));
    assert(lines(env_file_text(m)) == ls);
    if lines(env_file_text(m)).contains("ROOTPROJNAME="@ + other) {
        let j = choose|j: int| 0 <= j < ls.len() && ls[j] == "ROOTPROJNAME="@ + other;
        assert(ls[j] == env_line(m[j]));
        lemma_project_line(m[j].0, m[j].1, other);
        if j != q {
            if j < q {
                assert(m[j].0 != m[q].0);
            } else {
                assert(m[q].0 != m[j].0);
            }
        }
    }
}

} // verus!
