//! Reading site configuration files back into `NginxObj` values.
use super::features::NginxFeatures;
use super::obj::{NginxObj, NginxObjView};
use super::target_site::{target_from_list, TargetSite, TargetSpec};
use crate::text::{
    after_last, before_first, chars_of, contains, eq_chars, has_word, is_sep, last_word,
    last_word_chars, lines, lines_chars, push_all, replace, replace_chars, starts_with,
    starts_with_chars, strip_end, string_from_chars, trim, trim_chars, word_suffix, before_first_chars,
    contains_chars,
};
use vstd::prelude::*;

verus! {

/// The lines of a configuration, each trimmed.
pub open spec fn trimmed_lines(s: Seq<char>) -> Seq<Seq<char>> {
    lines(s).map_values(|l: Seq<char>| trim(l))
}

/// `s` with every `;` removed.
pub open spec fn strip_semicolons(s: Seq<char>) -> Seq<char> {
    replace(s, ";"@, ""@)
}

/// The state of a scan of a proxy configuration.
pub struct ProxyScan {
    pub server_name: Seq<char>,
    pub protocol: Seq<char>,
    pub upstream: Seq<Seq<char>>,
    /// `None` before the first `upstream` line, `Some(true)` inside an
    /// upstream block, `Some(false)` after it.
    pub state: Option<bool>,
    /// Every line inside an upstream block, but its closing `}`, held a word.
    pub ok: bool,
}

/// One (trimmed) line of a proxy configuration.
pub open spec fn proxy_step(st: ProxyScan, line: Seq<char>) -> ProxyScan {
    let st1 = if st.state == Some(true) {
        if line == "}"@ {
            ProxyScan { state: Some(false), ..st }
        } else {
            ProxyScan {
                upstream: st.upstream.push(strip_semicolons(last_word(line, true))),
                ok: st.ok && has_word(line, true),
                ..st
            }
        }
    } else {
        st
    };
    if st1.state is None {
        if starts_with(line, "upstream"@) {
            ProxyScan { state: Some(true), ..st1 }
        } else {
            st1
        }
    } else if starts_with(line, "server_name"@) {
        ProxyScan { server_name: strip_semicolons(last_word(line, false)), ..st1 }
    } else if starts_with(line, "proxy_pass"@) {
        ProxyScan { protocol: before_first(trim(replace(line, "proxy_pass"@, ""@)), "://"@), ..st1 }
    } else {
        st1
    }
}

/// The scan of a whole proxy configuration, line by line.
pub open spec fn proxy_scan(ls: Seq<Seq<char>>) -> ProxyScan
    decreases ls.len(),
{
    if ls.len() == 0 {
        ProxyScan {
            server_name: Seq::empty(),
            protocol: Seq::empty(),
            upstream: Seq::empty(),
            state: None,
            ok: true,
        }
    } else {
        proxy_step(proxy_scan(ls.drop_last()), ls.last())
    }
}

/// The upstream targets of a scan, each prefixed with the protocol.
pub open spec fn proxy_targets(sc: ProxyScan) -> Seq<Seq<char>> {
    sc.upstream.map_values(|u: Seq<char>| sc.protocol + "://"@ + u)
}

/// A proxy configuration can be read: no line inside its upstream block is
/// blank.
pub open spec fn proxy_config_ok(config: Seq<char>) -> bool {
    proxy_scan(trimmed_lines(config)).ok
}

/// The site that a proxy configuration describes.
pub open spec fn proxy_site(config: Seq<char>) -> NginxObjView {
    let sc = proxy_scan(trimmed_lines(config));
    NginxObjView {
        server_name: sc.server_name,
        target_site: target_from_list(proxy_targets(sc)),
        feature: NginxFeatures::Proxy,
    }
}

/// The server name read from a `server_name` line.
pub open spec fn server_name_of(line: Seq<char>) -> Seq<char> {
    strip_semicolons(last_word(line, false))
}

/// The target of a redirect's `rewrite` line.
pub open spec fn rewrite_target(line: Seq<char>) -> Seq<char> {
    replace(replace(trim(line), "rewrite ^/(.*)$ "@, ""@), "/$1 permanent;"@, ""@)
}

/// The scan of a redirect configuration: (target, server name).
pub open spec fn redirect_scan(ls: Seq<Seq<char>>) -> (Seq<char>, Seq<char>)
    decreases ls.len(),
{
    if ls.len() == 0 {
        (Seq::empty(), Seq::empty())
    } else {
        let acc = redirect_scan(ls.drop_last());
        let line = ls.last();
        if contains(line, "rewrite"@) {
            (rewrite_target(line), acc.1)
        } else if contains(line, "server_name"@) {
            (acc.0, server_name_of(line))
        } else {
            acc
        }
    }
}

/// The site that a redirect configuration describes.
pub open spec fn redirect_site(config: Seq<char>) -> NginxObjView {
    let sc = redirect_scan(trimmed_lines(config));
    NginxObjView {
        server_name: sc.1,
        target_site: TargetSpec::Single(sc.0),
        feature: NginxFeatures::Redirect,
    }
}

/// The scan of a file-hosting or single-page-app configuration:
/// (root location, server name).
pub open spec fn root_scan(ls: Seq<Seq<char>>) -> (Seq<char>, Seq<char>)
    decreases ls.len(),
{
    if ls.len() == 0 {
        (Seq::empty(), Seq::empty())
    } else {
        let acc = root_scan(ls.drop_last());
        let line = ls.last();
        if contains(line, "root"@) {
            (server_name_of(line), acc.1)
        } else if contains(line, "server_name"@) {
            (acc.0, server_name_of(line))
        } else {
            acc
        }
    }
}

/// The site that a file-hosting or single-page-app configuration describes.
pub open spec fn root_site(config: Seq<char>, feature: NginxFeatures) -> NginxObjView {
    let sc = root_scan(trimmed_lines(config));
    NginxObjView { server_name: sc.1, target_site: TargetSpec::Single(sc.0), feature }
}

/// The site a configuration of the given feature describes.
pub open spec fn config_site(config: Seq<char>, feature: NginxFeatures) -> NginxObjView {
    match feature {
        NginxFeatures::Proxy => proxy_site(config),
        NginxFeatures::Redirect => redirect_site(config),
        _ => root_site(config, feature),
    }
}

/// The trimmed lines of a configuration.
fn trimmed_lines_exec(config: &str) -> (out: Vec<Vec<char>>)
    ensures
        out@.len() == trimmed_lines(config@).len(),
        forall|i: int| 0 <= i < out@.len() ==> #[trigger] out@[i]@ == trimmed_lines(config@)[i],
{
    let cs = chars_of(config);
    let ls = lines_chars(cs.as_slice());
    let mut out: Vec<Vec<char>> = Vec::new();
    let mut i: usize = 0;
    while i < ls.len()
        invariant
            0 <= i <= ls@.len(),
            cs@ == config@,
            ls@.len() == lines(cs@).len(),
            forall|k: int| 0 <= k < ls@.len() ==> #[trigger] ls@[k]@ == lines(cs@)[k],
            out@.len() == i,
            forall|k: int| 0 <= k < i ==> #[trigger] out@[k]@ == trimmed_lines(config@)[k],
        decreases ls.len() - i,
    {
        let t = trim_chars(ls[i].as_slice());
        out.push(t);
        i = i + 1;
    }
    out
}

/// `s` with every `;` removed.
fn strip_semicolons_exec(s: &[char]) -> (out: Vec<char>)
    ensures
        out@ == strip_semicolons(s@),
{
    let semi = chars_of(";");
    let empty = chars_of("");
    proof {
        reveal_strlit(";");
    }
    replace_chars(s, semi.as_slice(), empty.as_slice())
}

/// The result of an exec proxy scan.
struct ProxyScanExec {
    server_name: Vec<char>,
    protocol: Vec<char>,
    upstream: Vec<Vec<char>>,
    state: Option<bool>,
}

fn scan_proxy(config: &str) -> (r: ProxyScanExec)
    ensures
        ({
            let sc = proxy_scan(trimmed_lines(config@));
            &&& r.server_name@ == sc.server_name
            &&& r.protocol@ == sc.protocol
            &&& r.upstream@.len() == sc.upstream.len()
            &&& forall|k: int| 0 <= k < sc.upstream.len() ==> #[trigger] r.upstream@[k]@ == sc.upstream[k]
            &&& r.state == sc.state
        }),
{
    let ls = trimmed_lines_exec(config);
    let ghost tl = trimmed_lines(config@);
    let close = chars_of("}");
    let kw_upstream = chars_of("upstream");
    let kw_server_name = chars_of("server_name");
    let kw_proxy_pass = chars_of("proxy_pass");
    let empty = chars_of("");
    let sep = chars_of("://");
    proof {
        reveal_strlit("://");
        reveal_strlit("proxy_pass");
    }
    let mut st = ProxyScanExec {
        server_name: Vec::new(),
        protocol: Vec::new(),
        upstream: Vec::new(),
        state: None,
    };
    let mut i: usize = 0;
    assert(tl.take(0) =~= Seq::<Seq<char>>::empty());
    while i < ls.len()
        invariant
            0 <= i <= ls@.len() == tl.len(),
            tl == trimmed_lines(config@),
            forall|k: int| 0 <= k < ls@.len() ==> #[trigger] ls@[k]@ == tl[k],
            close@ == "}"@,
            kw_upstream@ == "upstream"@,
            kw_server_name@ == "server_name"@,
            kw_proxy_pass@ == "proxy_pass"@,
            empty@ == ""@,
            sep@ == "://"@,
            kw_proxy_pass@.len() > 0,
            sep@.len() > 0,
            ({
                let sc = proxy_scan(tl.take(i as int));
                &&& st.server_name@ == sc.server_name
                &&& st.protocol@ == sc.protocol
                &&& st.upstream@.len() == sc.upstream.len()
                &&& forall|k: int|
                    0 <= k < sc.upstream.len() ==> #[trigger] st.upstream@[k]@ == sc.upstream[k]
                &&& st.state == sc.state
            }),
        decreases ls.len() - i,
    {
        let line = &ls[i];
        assert(tl.take(i + 1).drop_last() =~= tl.take(i as int));
        assert(tl.take(i + 1).last() == line@);
        if st.state == Some(true) {
            if eq_chars(line.as_slice(), close.as_slice()) {
                st.state = Some(false);
            } else {
                let w = last_word_chars(line.as_slice(), true);
                let u = strip_semicolons_exec(w.as_slice());
                st.upstream.push(u);
            }
        }
        if st.state.is_none() {
            if starts_with_chars(line.as_slice(), kw_upstream.as_slice()) {
                st.state = Some(true);
            }
        } else if starts_with_chars(line.as_slice(), kw_server_name.as_slice()) {
            let w = last_word_chars(line.as_slice(), false);
            st.server_name = strip_semicolons_exec(w.as_slice());
        } else if starts_with_chars(line.as_slice(), kw_proxy_pass.as_slice()) {
            let rest = replace_chars(line.as_slice(), kw_proxy_pass.as_slice(), empty.as_slice());
            let t = trim_chars(rest.as_slice());
            st.protocol = before_first_chars(t.as_slice(), sep.as_slice());
        }
        i = i + 1;
    }
    assert(tl.take(i as int) =~= tl);
    st
}

/// Whether a proxy configuration can be read (see `proxy_config_ok`).
pub fn proxy_config_readable(config: &str) -> (b: bool)
    ensures
        b == proxy_config_ok(config@),
{
    let ls = trimmed_lines_exec(config);
    let ghost tl = trimmed_lines(config@);
    let close = chars_of("}");
    let kw_upstream = chars_of("upstream");
    let mut state: Option<bool> = None;
    let mut ok = true;
    let mut i: usize = 0;
    assert(tl.take(0) =~= Seq::<Seq<char>>::empty());
    while i < ls.len()
        invariant
            0 <= i <= ls@.len() == tl.len(),
            tl == trimmed_lines(config@),
            forall|k: int| 0 <= k < ls@.len() ==> #[trigger] ls@[k]@ == tl[k],
            close@ == "}"@,
            kw_upstream@ == "upstream"@,
            state == proxy_scan(tl.take(i as int)).state,
            ok == proxy_scan(tl.take(i as int)).ok,
        decreases ls.len() - i,
    {
        let line = &ls[i];
        assert(tl.take(i + 1).drop_last() =~= tl.take(i as int));
        assert(tl.take(i + 1).last() == line@);
        if state == Some(true) {
            if eq_chars(line.as_slice(), close.as_slice()) {
                state = Some(false);
            } else {
                let w = last_word_chars(line.as_slice(), true);
                proof {
                    lemma_has_word_iff_last_word(line@, true);
                }
                ok = ok && w.len() > 0;
            }
        }
        if state.is_none() {
            if starts_with_chars(line.as_slice(), kw_upstream.as_slice()) {
                state = Some(true);
            }
        }
        i = i + 1;
    }
    assert(tl.take(i as int) =~= tl);
    ok
}

/// A string holds a word exactly when its last word is not empty.
pub proof fn lemma_has_word_iff_last_word(s: Seq<char>, ascii: bool)
    ensures
        has_word(s, ascii) <==> last_word(s, ascii).len() > 0,
{
    let t = strip_end(s, ascii);
    lemma_strip_end_last(s, ascii);
    if t.len() > 0 {
        assert(!is_sep(t.last(), ascii));
        assert(word_suffix(t, ascii) == word_suffix(t.drop_last(), ascii).push(t.last()));
    }
}

/// The result of `strip_end` does not end in a separator.
pub proof fn lemma_strip_end_last(s: Seq<char>, ascii: bool)
    ensures
        strip_end(s, ascii).len() > 0 ==> !is_sep(strip_end(s, ascii).last(), ascii),
    decreases s.len(),
{
    if s.len() > 0 && is_sep(s.last(), ascii) {
        lemma_strip_end_last(s.drop_last(), ascii);
    }
}

/// Reads a proxy configuration: the server name (from `server_name` lines
/// after the first `upstream` line), the protocol of `proxy_pass`, and the
/// servers of the upstream block, which become the targets.
pub fn extract_nginx_proxy(config: &str) -> (r: NginxObj)
    requires
        proxy_config_ok(config@),
    ensures
        r@ == proxy_site(config@),
{
    let st = scan_proxy(config);
    let ghost sc = proxy_scan(trimmed_lines(config@));
    let sep = chars_of("://");
    let mut targets: Vec<String> = Vec::new();
    let mut i: usize = 0;
    while i < st.upstream.len()
        invariant
            0 <= i <= st.upstream@.len(),
            st.upstream@.len() == sc.upstream.len(),
            forall|k: int| 0 <= k < sc.upstream.len() ==> #[trigger] st.upstream@[k]@ == sc.upstream[k],
            st.protocol@ == sc.protocol,
            sep@ == "://"@,
            targets@.len() == i,
            forall|k: int|
                0 <= k < i ==> #[trigger] targets@[k]@ == sc.protocol + "://"@ + sc.upstream[k],
        decreases st.upstream.len() - i,
    {
        let mut t: Vec<char> = Vec::new();
        push_all(&mut t, st.protocol.as_slice());
        push_all(&mut t, sep.as_slice());
        push_all(&mut t, st.upstream[i].as_slice());
        targets.push(string_from_chars(t.as_slice()));
        i = i + 1;
    }
    assert(targets.deep_view() =~= proxy_targets(sc));
    let target_site = TargetSite::from_list(targets);
    NginxObj::new_unchecked(string_from_chars(st.server_name.as_slice()), target_site, NginxFeatures::Proxy)
}

/// Reads a redirect configuration: the target from the `rewrite` line and
/// the server name from the `server_name` line (the last of each wins).
pub fn extract_nginx_redirect(config: &str) -> (r: NginxObj)
    ensures
        r@ == redirect_site(config@),
{
    let ls = trimmed_lines_exec(config);
    let ghost tl = trimmed_lines(config@);
    let kw_rewrite = chars_of("rewrite");
    let kw_server_name = chars_of("server_name");
    let head = chars_of("rewrite ^/(.*)$ ");
    let tail = chars_of("/$1 permanent;");
    let empty = chars_of("");
    proof {
        reveal_strlit("rewrite ^/(.*)$ ");
        reveal_strlit("/$1 permanent;");
    }
    let mut target: Vec<char> = Vec::new();
    let mut server_name: Vec<char> = Vec::new();
    let mut i: usize = 0;
    assert(tl.take(0) =~= Seq::<Seq<char>>::empty());
    while i < ls.len()
        invariant
            0 <= i <= ls@.len() == tl.len(),
            tl == trimmed_lines(config@),
            forall|k: int| 0 <= k < ls@.len() ==> #[trigger] ls@[k]@ == tl[k],
            kw_rewrite@ == "rewrite"@,
            kw_server_name@ == "server_name"@,
            head@ == "rewrite ^/(.*)$ "@,
            tail@ == "/$1 permanent;"@,
            empty@ == ""@,
            head@.len() > 0,
            tail@.len() > 0,
            (target@, server_name@) == redirect_scan(tl.take(i as int)),
        decreases ls.len() - i,
    {
        let line = &ls[i];
        assert(tl.take(i + 1).drop_last() =~= tl.take(i as int));
        assert(tl.take(i + 1).last() == line@);
        if contains_chars(line.as_slice(), kw_rewrite.as_slice()) {
            let t = trim_chars(line.as_slice());
            let a = replace_chars(t.as_slice(), head.as_slice(), empty.as_slice());
            target = replace_chars(a.as_slice(), tail.as_slice(), empty.as_slice());
        } else if contains_chars(line.as_slice(), kw_server_name.as_slice()) {
            let w = last_word_chars(line.as_slice(), false);
            server_name = strip_semicolons_exec(w.as_slice());
        }
        i = i + 1;
    }
    assert(tl.take(i as int) =~= tl);
    NginxObj::new_unchecked(
        string_from_chars(server_name.as_slice()),
        TargetSite::Single(string_from_chars(target.as_slice())),
        NginxFeatures::Redirect,
    )
}

/// Reads a file-hosting or single-page-app configuration: the target from
/// the `root` line and the server name from the `server_name` line.
pub fn extract_nginx_filehost_and_spa(config: &str, feature: NginxFeatures) -> (r: NginxObj)
    ensures
        r@ == root_site(config@, feature),
{
    let ls = trimmed_lines_exec(config);
    let ghost tl = trimmed_lines(config@);
    let kw_root = chars_of("root");
    let kw_server_name = chars_of("server_name");
    let mut target: Vec<char> = Vec::new();
    let mut server_name: Vec<char> = Vec::new();
    let mut i: usize = 0;
    assert(tl.take(0) =~= Seq::<Seq<char>>::empty());
    while i < ls.len()
        invariant
            0 <= i <= ls@.len() == tl.len(),
            tl == trimmed_lines(config@),
            forall|k: int| 0 <= k < ls@.len() ==> #[trigger] ls@[k]@ == tl[k],
            kw_root@ == "root"@,
            kw_server_name@ == "server_name"@,
            (target@, server_name@) == root_scan(tl.take(i as int)),
        decreases ls.len() - i,
    {
        let line = &ls[i];
        assert(tl.take(i + 1).drop_last() =~= tl.take(i as int));
        assert(tl.take(i + 1).last() == line@);
        if contains_chars(line.as_slice(), kw_root.as_slice()) {
            let w = last_word_chars(line.as_slice(), false);
            target = strip_semicolons_exec(w.as_slice());
        } else if contains_chars(line.as_slice(), kw_server_name.as_slice()) {
            let w = last_word_chars(line.as_slice(), false);
            server_name = strip_semicolons_exec(w.as_slice());
        }
        i = i + 1;
    }
    assert(tl.take(i as int) =~= tl);
    NginxObj::new_unchecked(
        string_from_chars(server_name.as_slice()),
        TargetSite::Single(string_from_chars(target.as_slice())),
        feature,
    )
}

/// Reads a configuration file of the given feature (the per-file step of
/// reading the site directories).
pub fn extract_nginx_config(config: &str, feature: NginxFeatures) -> (r: NginxObj)
    requires
        feature != NginxFeatures::NoFeature,
        feature == NginxFeatures::Proxy ==> proxy_config_ok(config@),
    ensures
        r@ == config_site(config@, feature),
{
    match feature {
        NginxFeatures::Proxy => extract_nginx_proxy(config),
        NginxFeatures::Redirect => extract_nginx_redirect(config),
        _ => extract_nginx_filehost_and_spa(config, feature),
    }
}

} // verus!
