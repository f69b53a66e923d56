//! The `.env` file of a hosted site: writing it at installation, updating
//! it on redeployment, and reading the port back.
use crate::text::{
    after_last, after_last_chars, chars_of, contains, contains_chars, decimal, decimal_string, join,
    join_chars, lines, lines_chars, parse_u16, parse_u16_chars, push_all, split_char,
    split_char_chars, starts_with, starts_with_chars, str_eq, string_from_chars, trim, trim_chars,
    views,
};
use vstd::prelude::*;

verus! {

/// The values of a list of key/value pairs.
pub open spec fn pair_views(v: Seq<(String, String)>) -> Seq<(Seq<char>, Seq<char>)> {
    v.map_values(|p: (String, String)| (p.0@, p.1@))
}

/// The index of the entry with key `k`, or the length.
pub open spec fn key_index(m: Seq<(Seq<char>, Seq<char>)>, k: Seq<char>) -> int
    decreases m.len(),
{
    if m.len() == 0 {
        0
    } else if m[0].0 == k {
        0
    } else {
        1 + key_index(m.drop_first(), k)
    }
}

/// Map insertion on a list of entries: the value of an existing key is
/// replaced in place, a new key is added at the end.
pub open spec fn env_insert(m: Seq<(Seq<char>, Seq<char>)>, k: Seq<char>, v: Seq<char>) -> Seq<(Seq<char>, Seq<char>)> {
    let i = key_index(m, k);
    if i < m.len() {
        m.update(i, (k, v))
    } else {
        m.push((k, v))
    }
}

/// The map that a list of pairs forms, a later pair replacing the value of
/// an earlier one with the same key.
pub open spec fn env_from_pairs(ps: Seq<(Seq<char>, Seq<char>)>) -> Seq<(Seq<char>, Seq<char>)>
    decreases ps.len(),
{
    if ps.len() == 0 {
        Seq::empty()
    } else {
        env_insert(env_from_pairs(ps.drop_last()), ps.last().0, ps.last().1)
    }
}

/// The environment of a new deployment: the site's own variables, then the
/// paths, the container name, the project and the port.
pub open spec fn deployment_env(
    ps: Seq<(Seq<char>, Seq<char>)>,
    theme_path: Seq<char>,
    basepath: Seq<char>,
    container: Seq<char>,
    rootproj: Seq<char>,
    rootprojname: Seq<char>,
    port: u16,
) -> Seq<(Seq<char>, Seq<char>)> {
    let m0 = env_from_pairs(ps);
    let m1 = env_insert(m0, "THEMEPATH"@, theme_path);
    let m2 = env_insert(m1, "BASEPATH"@, basepath);
    let m3 = env_insert(m2, "CONTAINER_NAME"@, container);
    let m4 = env_insert(m3, "ROOTPROJ"@, rootproj);
    let m5 = env_insert(m4, "ROOTPROJNAME"@, rootprojname);
    env_insert(m5, "PORT_NUMBER"@, decimal(port as nat))
}

/// A `KEY=value` line.
pub open spec fn env_line(p: (Seq<char>, Seq<char>)) -> Seq<char> {
    p.0 + "="@ + p.1
}

/// The text of an environment file: one `KEY=value` line per entry.
pub open spec fn env_file_text(m: Seq<(Seq<char>, Seq<char>)>) -> Seq<char> {
    join(m.map_values(|p: (Seq<char>, Seq<char>)| env_line(p)), "\n"@)
}

/// Inserts into a list of entries (see `env_insert`).
pub fn env_insert_exec(m: &mut Vec<(String, String)>, k: &str, v: &str)
    ensures
        pair_views(final(m)@) == env_insert(pair_views(old(m)@), k@, v@),
{
    let ghost mv = pair_views(m@);
    let mut i: usize = 0;
    assert(mv.skip(0) =~= mv);
    while i < m.len()
        invariant
            0 <= i <= m@.len(),
            mv == pair_views(m@),
            m@ == old(m)@,
            key_index(mv, k@) == i + key_index(mv.skip(i as int), k@),
            forall|j: int| 0 <= j < i ==> mv[j].0 != k@,
        decreases m.len() - i,
    {
        let ghost rest = mv.skip(i as int);
        assert(rest[0] == mv[i as int]);
        if str_eq(m[i].0.as_str(), k) {
            m.set(i, (String::from_str(k), String::from_str(v)));
            assert(pair_views(m@) =~= mv.update(i as int, (k@, v@)));
            return;
        }
        assert(rest.drop_first() =~= mv.skip(i + 1));
        i = i + 1;
    }
    assert(mv.skip(i as int) =~= Seq::<(Seq<char>, Seq<char>)>::empty());
    m.push((String::from_str(k), String::from_str(v)));
    assert(pair_views(m@) =~= mv.push((k@, v@)));
}

/// The map that a list of pairs forms (see `env_from_pairs`).
pub fn env_map(pairs: &Vec<(String, String)>) -> (m: Vec<(String, String)>)
    ensures
        pair_views(m@) == env_from_pairs(pair_views(pairs@)),
{
    let ghost pv = pair_views(pairs@);
    let mut m: Vec<(String, String)> = Vec::new();
    let mut i: usize = 0;
    assert(pair_views(m@) =~= env_from_pairs(pv.take(0)));
    while i < pairs.len()
        invariant
            0 <= i <= pairs@.len(),
            pv == pair_views(pairs@),
            pair_views(m@) == env_from_pairs(pv.take(i as int)),
        decreases pairs.len() - i,
    {
        let ghost t = pv.take(i + 1);
        assert(t.drop_last() =~= pv.take(i as int));
        assert(t.last() == pv[i as int]);
        env_insert_exec(&mut m, pairs[i].0.as_str(), pairs[i].1.as_str());
        i = i + 1;
    }
    assert(pv.take(i as int) =~= pv);
    m
}

/// The text of an environment file (see `env_file_text`).
pub fn env_file(m: &Vec<(String, String)>) -> (r: String)
    ensures
        r@ == env_file_text(pair_views(m@)),
{
    let ghost target = pair_views(m@).map_values(|p: (Seq<char>, Seq<char>)| env_line(p));
    let mut ls: Vec<Vec<char>> = Vec::new();
    let eq = chars_of("=");
    let mut i: usize = 0;
    while i < m.len()
        invariant
            0 <= i <= m@.len(),
            eq@ == "="@,
            target == pair_views(m@).map_values(|p: (Seq<char>, Seq<char>)| env_line(p)),
            ls@.len() == i,
            forall|k: int| 0 <= k < i ==> #[trigger] ls@[k]@ == target[k],
        decreases m.len() - i,
    {
        let mut l = chars_of(m[i].0.as_str());
        push_all(&mut l, eq.as_slice());
        let v = chars_of(m[i].1.as_str());
        push_all(&mut l, v.as_slice());
        ls.push(l);
        i = i + 1;
    }
    assert(views(ls@) =~= target);
    let nl = chars_of("\n");
    let j = join_chars(&ls, nl.as_slice());
    string_from_chars(j.as_slice())
}

/// The environment file of a new deployment (see `deployment_env`).
pub fn build_env_file(
    pairs: &Vec<(String, String)>,
    theme_path: &str,
    basepath: &str,
    container: &str,
    rootproj: &str,
    rootprojname: &str,
    port: u16,
) -> (r: String)
    ensures
        r@ == env_file_text(
            deployment_env(pair_views(pairs@), theme_path@, basepath@, container@, rootproj@, rootprojname@, port),
        ),
{
    let mut m = env_map(pairs);
    env_insert_exec(&mut m, "THEMEPATH", theme_path);
    env_insert_exec(&mut m, "BASEPATH", basepath);
    env_insert_exec(&mut m, "CONTAINER_NAME", container);
    env_insert_exec(&mut m, "ROOTPROJ", rootproj);
    env_insert_exec(&mut m, "ROOTPROJNAME", rootprojname);
    let p = decimal_string(port as u64);
    env_insert_exec(&mut m, "PORT_NUMBER", p.as_str());
    env_file(&m)
}

/// A line of an environment file after redeployment with the site's
/// variables `env` (in their iteration order): every line is decided by the
/// last variable, and with no variables a line is emptied.
pub open spec fn updated_env_line(
    line: Seq<char>,
    env: Seq<(Seq<char>, Seq<char>)>,
    project_dir: Seq<char>,
    project_name: Seq<char>,
) -> Seq<char> {
    if env.len() == 0 {
        Seq::empty()
    } else if starts_with(line, "ROOTPROJ"@) {
        "ROOTPROJ="@ + project_dir
    } else if starts_with(line, "ROOTPROJNAME"@) {
        "ROOTPROJNAME="@ + project_name
    } else if starts_with(line, env.last().0) {
        env_line(env.last())
    } else {
        line
    }
}

/// The environment file after redeployment: the old file, trimmed and split
/// at line feeds, with each line updated (see `updated_env_line`).
pub open spec fn updated_env_text(
    content: Seq<char>,
    env: Seq<(Seq<char>, Seq<char>)>,
    project_dir: Seq<char>,
    project_name: Seq<char>,
) -> Seq<char> {
    join(
        split_char(trim(content), '\n').map_values(
            |l: Seq<char>| updated_env_line(l, env, project_dir, project_name),
        ),
        "\n"@,
    )
}

/// Rewrites an environment file for a redeployment (see `updated_env_text`);
/// the site's variables are taken as the map their pairs form.
pub fn update_env_file(content: &str, pairs: &Vec<(String, String)>, project_dir: &str, project_name: &str) -> (r: String)
    ensures
        r@ == updated_env_text(content@, env_from_pairs(pair_views(pairs@)), project_dir@, project_name@),
{
    let env = env_map(pairs);
    let ghost ev = pair_views(env@);
    let cs = chars_of(content);
    let t = trim_chars(cs.as_slice());
    let parts = split_char_chars(t.as_slice(), '\n');
    let ghost pv = views(parts@);
    let ghost target = pv.map_values(|l: Seq<char>| updated_env_line(l, ev, project_dir@, project_name@));
    let kw_rootproj = chars_of("ROOTPROJ");
    let kw_rootprojname = chars_of("ROOTPROJNAME");
    let mut out: Vec<Vec<char>> = Vec::new();
    let mut i: usize = 0;
    while i < parts.len()
        invariant
            0 <= i <= parts@.len(),
            pv == views(parts@),
            ev == pair_views(env@),
            target == pv.map_values(|l: Seq<char>| updated_env_line(l, ev, project_dir@, project_name@)),
            kw_rootproj@ == "ROOTPROJ"@,
            kw_rootprojname@ == "ROOTPROJNAME"@,
            out@.len() == i,
            forall|k: int| 0 <= k < i ==> #[trigger] out@[k]@ == target[k],
        decreases parts.len() - i,
    {
        let line = parts[i].as_slice();
        assert(pv[i as int] == line@);
        let n = env.len();
        let new_line: Vec<char> = if n == 0 {
            Vec::new()
        } else if starts_with_chars(line, kw_rootproj.as_slice()) {
            let mut l = chars_of("ROOTPROJ=");
            let d = chars_of(project_dir);
            push_all(&mut l, d.as_slice());
            l
        } else if starts_with_chars(line, kw_rootprojname.as_slice()) {
            let mut l = chars_of("ROOTPROJNAME=");
            let d = chars_of(project_name);
            push_all(&mut l, d.as_slice());
            l
        } else {
            assert(ev.last() == (env@[n - 1].0@, env@[n - 1].1@));
            let k = chars_of(env[n - 1].0.as_str());
            if starts_with_chars(line, k.as_slice()) {
                let mut l = chars_of(env[n - 1].0.as_str());
                let eq = chars_of("=");
                push_all(&mut l, eq.as_slice());
                let v = chars_of(env[n - 1].1.as_str());
                push_all(&mut l, v.as_slice());
                l
            } else {
                let mut l: Vec<char> = Vec::new();
                push_all(&mut l, line);
                l
            }
        };
        out.push(new_line);
        i = i + 1;
    }
    assert(views(out@) =~= target);
    let nl = chars_of("\n");
    let j = join_chars(&out, nl.as_slice());
    string_from_chars(j.as_slice())
}

/// A site is deployed from the project when its environment file has the
/// line `ROOTPROJNAME=<project>`.
pub open spec fn uses_project_spec(content: Seq<char>, project_name: Seq<char>) -> bool {
    lines(content).contains("ROOTPROJNAME="@ + project_name)
}

/// Whether a site's environment file names the project (see
/// `uses_project_spec`).
pub fn uses_project(content: &str, project_name: &str) -> (b: bool)
    ensures
        b == uses_project_spec(content@, project_name@),
{
    let cs = chars_of(content);
    let ls = lines_chars(cs.as_slice());
    let mut want = chars_of("ROOTPROJNAME=");
    let p = chars_of(project_name);
    push_all(&mut want, p.as_slice());
    let ghost lv = views(ls@);
    assert(lv =~= lines(content@));
    let mut i: usize = 0;
    while i < ls.len()
        invariant
            0 <= i <= ls@.len(),
            lv == views(ls@),
            lv == lines(content@),
            want@ == "ROOTPROJNAME="@ + project_name@,
            forall|k: int| 0 <= k < i ==> lv[k] != want@,
        decreases ls.len() - i,
    {
        if crate::text::eq_chars(ls[i].as_slice(), want.as_slice()) {
            assert(lv[i as int] == want@);
            assert(lv.contains(want@));
            return true;
        }
        i = i + 1;
    }
    false
}

/// The lines that contain `p`.
pub open spec fn lines_containing(ls: Seq<Seq<char>>, p: Seq<char>) -> Seq<Seq<char>>
    decreases ls.len(),
{
    if ls.len() == 0 {
        Seq::empty()
    } else if contains(ls.last(), p) {
        lines_containing(ls.drop_last(), p).push(ls.last())
    } else {
        lines_containing(ls.drop_last(), p)
    }
}

/// The port in an environment file: the lines mentioning `PORT_NUMBER`,
/// joined, read after their last `=`.
pub open spec fn env_port(content: Seq<char>) -> Option<u16> {
    parse_u16(after_last(join(lines_containing(lines(content), "PORT_NUMBER"@), ""@), '='))
}

/// Reads the port of a site from its environment file (see `env_port`).
pub fn port_from_env(content: &str) -> (r: Option<u16>)
    ensures
        r == env_port(content@),
{
    let cs = chars_of(content);
    let ls = lines_chars(cs.as_slice());
    let ghost lv = views(ls@);
    assert(lv =~= lines(content@));
    let pat = chars_of("PORT_NUMBER");
    let mut kept: Vec<Vec<char>> = Vec::new();
    let mut i: usize = 0;
    assert(lv.take(0) =~= Seq::<Seq<char>>::empty());
    while i < ls.len()
        invariant
            0 <= i <= ls@.len(),
            lv == views(ls@),
            pat@ == "PORT_NUMBER"@,
            views(kept@) == lines_containing(lv.take(i as int), "PORT_NUMBER"@),
        decreases ls.len() - i,
    {
        let ghost t = lv.take(i + 1);
        assert(t.drop_last() =~= lv.take(i as int));
        assert(t.last() == ls@[i as int]@);
        if contains_chars(ls[i].as_slice(), pat.as_slice()) {
            let ghost prev = views(kept@);
            let mut copy: Vec<char> = Vec::new();
            push_all(&mut copy, ls[i].as_slice());
            kept.push(copy);
            assert(views(kept@) =~= prev.push(ls@[i as int]@));
        }
        i = i + 1;
    }
    assert(lv.take(i as int) =~= lv);
    let empty = chars_of("");
    let joined = join_chars(&kept, empty.as_slice());
    let tail = after_last_chars(joined.as_slice(), '=');
    parse_u16_chars(tail.as_slice())
}

} // verus!
