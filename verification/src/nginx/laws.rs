//! Laws of the nginx sites: what the configuration files the library writes
//! read back as, which sites validation refuses, and what a lookup finds.
use super::features::{feature_from_name, feature_name, lemma_feature_name_roundtrip, lemma_none_has_no_name, NginxFeatures};
use super::obj::{first_off_scheme, scheme_of, verify_result, verify_stops, NginxObjView, ReplySpec, UrlOutcome};
use super::table::{
    all_readable, all_sites, feature_sites, first_selected, none_selected, row_selected, row_site, selected_site, RowText,
};
use super::ops::config_path_of;
use super::parse::{config_site, root_scan, root_site, redirect_scan, redirect_site, rewrite_target, server_name_of, strip_semicolons, trimmed_lines};
use super::target_site::{target_text, TargetSpec};
use crate::bindings::json_plain_char;
use super::templates::{redirect_template, SiteDirsView, REDIRECT_0, REDIRECT_1, REDIRECT_2};
use crate::text::{
    contains, is_ws, lacks, last_word, lemma_framed_not_contains, lemma_lines_cons, lemma_lines_single,
    lemma_not_contains_lacking, lemma_replace_prefix, lemma_replace_suffix, lemma_strip_end_at,
    lemma_trim_start_at, lemma_word_suffix_at, lines, occurs_at, strip_cr, strip_end, trim, trim_start,
    word_suffix,
};
use vstd::prelude::*;

verus! {

/// Trimming a line indented by `k` spaces, whose last character is not
/// whitespace, drops the indentation.
proof fn lemma_trim_indent(s: Seq<char>, k: int)
    requires
        0 <= k < s.len(),
        forall|j: int| 0 <= j < k ==> s[j] == ' ',
        !is_ws(s[k]),
        !is_ws(s.last()),
    ensures
        trim(s) == s.skip(k),
{
    assert forall|j: int| 0 <= j < k implies is_ws(#[trigger] s[j]) by {
        assert(s[j] == ' ');
    }
    lemma_trim_start_at(s, k);
    let u = s.skip(k);
    assert(u.last() == s.last());
    lemma_strip_end_at(u, false, u.len() as int);
    assert(u.take(u.len() as int) =~= u);
}

/// The lines of a redirect configuration, trimmed.
proof fn lemma_redirect_trimmed_lines(target_site: Seq<char>, server_name: Seq<char>)
    requires
        lacks(target_site, '\n'),
        lacks(server_name, '\n'),
    ensures
        trimmed_lines(redirect_template(target_site, server_name)) == seq![
            Seq::<char>::empty(),
            "server {"@,
            "server_name "@ + server_name + ";"@,
            "location / {"@,
            "rewrite ^/(.*)$ "@ + target_site + "/$1 permanent;"@,
            "}"@,
            Seq::<char>::empty(),
            "listen [::]:80;"@,
            "listen 80;"@,
            Seq::<char>::empty(),
            "}"@,
        ],
{
    reveal_strlit("\nserver {\n    server_name ");
    reveal_strlit(";\n    location / {\n        rewrite ^/(.*)$ ");
    reveal_strlit("/$1 permanent;\n    }\n\n    listen [::]:80;\n    listen 80;\n\n}");
    reveal_strlit("server {");
    reveal_strlit("    server_name ");
    reveal_strlit("server_name ");
    reveal_strlit(";");
    reveal_strlit("    location / {");
    reveal_strlit("location / {");
    reveal_strlit("        rewrite ^/(.*)$ ");
    reveal_strlit("rewrite ^/(.*)$ ");
    reveal_strlit("/$1 permanent;");
    reveal_strlit("    }");
    reveal_strlit("}");
    reveal_strlit("    listen [::]:80;");
    reveal_strlit("listen [::]:80;");
    reveal_strlit("    listen 80;");
    reveal_strlit("listen 80;");
    let e = Seq::<char>::empty();
    let nl = seq!['\n'];
    let r1 = "server {"@;
    let r2 = "    server_name "@ + server_name + ";"@;
    let r3 = "    location / {"@;
    let r4 = "        rewrite ^/(.*)$ "@ + target_site + "/$1 permanent;"@;
    let r5 = "    }"@;
    let r7 = "    listen [::]:80;"@;
    let r8 = "    listen 80;"@;
    let r10 = "}"@;
    let x10 = r10;
    let x9 = e + nl + x10;
    let x8 = r8 + nl + x9;
    let x7 = r7 + nl + x8;
    let x6 = e + nl + x7;
    let x5 = r5 + nl + x6;
    let x4 = r4 + nl + x5;
    let x3 = r3 + nl + x4;
    let x2 = r2 + nl + x3;
    let x1 = r1 + nl + x2;
    let x0 = e + nl + x1;
    assert(REDIRECT_0@ =~= e + nl + r1 + nl + "    server_name "@);
    assert(REDIRECT_1@ =~= ";"@ + nl + r3 + nl + "        rewrite ^/(.*)$ "@);
    assert(REDIRECT_2@ =~= "/$1 permanent;"@ + nl + x5);
    assert(redirect_template(target_site, server_name) =~= x0);
    assert(lacks(r2, '\n')) by {
        assert forall|i: int| 0 <= i < r2.len() implies r2[i] != '\n' by {
            if 16 <= i < 16 + server_name.len() {
                assert(r2[i] == server_name[i - 16]);
            }
        }
    }
    assert(lacks(r4, '\n')) by {
        assert forall|i: int| 0 <= i < r4.len() implies r4[i] != '\n' by {
            if 24 <= i < 24 + target_site.len() {
                assert(r4[i] == target_site[i - 24]);
            }
        }
    }
    lemma_lines_single(x10);
    lemma_lines_cons(e, x10);
    lemma_lines_cons(r8, x9);
    lemma_lines_cons(r7, x8);
    lemma_lines_cons(e, x7);
    lemma_lines_cons(r5, x6);
    lemma_lines_cons(r4, x5);
    lemma_lines_cons(r3, x4);
    lemma_lines_cons(r2, x3);
    lemma_lines_cons(r1, x2);
    lemma_lines_cons(e, x1);
    assert(r2.last() == ';');
    assert(r4.last() == ';');
    assert(strip_cr(r2) == r2);
    assert(strip_cr(r4) == r4);
    let ls = seq![e, r1, r2, r3, r4, r5, e, r7, r8, e, r10];
    assert(lines(x0) =~= ls);
    assert(trim(e) == e);
    assert(trim_start(r1) == r1);
    assert(strip_end(r1, false) == r1);
    assert(trim(r1) == r1);
    lemma_trim_indent(r2, 4);
    assert(r2.skip(4) =~= "server_name "@ + server_name + ";"@);
    lemma_trim_indent(r3, 4);
    assert(r3.skip(4) =~= "location / {"@);
    lemma_trim_indent(r4, 8);
    assert(r4.skip(8) =~= "rewrite ^/(.*)$ "@ + target_site + "/$1 permanent;"@);
    lemma_trim_indent(r5, 4);
    assert(r5.skip(4) =~= "}"@);
    lemma_trim_indent(r7, 4);
    assert(r7.skip(4) =~= "listen [::]:80;"@);
    lemma_trim_indent(r8, 4);
    assert(r8.skip(4) =~= "listen 80;"@);
    assert(trim_start(r10) == r10);
    assert(strip_end(r10, false) == r10);
    assert(trimmed_lines(x0) =~= ls.map_values(|l: Seq<char>| trim(l)));
}

/// A line without `w` or `_` mentions neither `rewrite` nor `server_name`.
proof fn lemma_plain_line(l: Seq<char>)
    requires
        lacks(l, 'w'),
        lacks(l, '_'),
    ensures
        !contains(l, "rewrite"@),
        !contains(l, "server_name"@),
{
    reveal_strlit("rewrite");
    reveal_strlit("server_name");
    lemma_not_contains_lacking(l, "rewrite"@, 2);
    lemma_not_contains_lacking(l, "server_name"@, 6);
}

/// Scanning one more line that mentions neither keyword changes nothing.
proof fn lemma_scan_plain(ls: Seq<Seq<char>>, l: Seq<char>)
    requires
        lacks(l, 'w'),
        lacks(l, '_'),
    ensures
        redirect_scan(ls.push(l)) == redirect_scan(ls),
{
    lemma_plain_line(l);
    assert(ls.push(l).drop_last() =~= ls);
}

/// The server name read back from the `server_name` line of a redirect.
proof fn lemma_redirect_server_name(server_name: Seq<char>)
    requires
        forall|i: int| 0 <= i < server_name.len() ==> !is_ws(#[trigger] server_name[i]) && server_name[i] != ';',
    ensures
        server_name_of("server_name "@ + server_name + ";"@) == server_name,
{
    reveal_strlit("server_name ");
    reveal_strlit(";");
    let l = "server_name "@ + server_name + ";"@;
    lemma_strip_end_at(l, false, l.len() as int);
    assert(l.take(l.len() as int) =~= l);
    assert forall|j: int| 12 <= j < l.len() implies !crate::text::is_sep(#[trigger] l[j], false) by {
        if j < 12 + server_name.len() {
            assert(l[j] == server_name[j - 12]);
        }
    }
    lemma_word_suffix_at(l, false, 12);
    assert(l.skip(12) =~= server_name + ";"@);
    assert forall|i: int| occurs_at(server_name + ";"@, ";"@, i) implies i == server_name.len() by {
        assert((server_name + ";"@).subrange(i, i + 1)[0] == (server_name + ";"@)[i]);
        if i < server_name.len() {
            assert((server_name + ";"@)[i] == server_name[i]);
        }
    }
    lemma_replace_suffix(server_name, ";"@);
    reveal_strlit("");
    assert(""@ =~= Seq::<char>::empty());
    assert(last_word(l, false) == server_name + ";"@);
    assert(strip_semicolons(server_name + ";"@) == server_name);
}

/// The target read back from the `rewrite` line of a redirect.
proof fn lemma_redirect_target(target_site: Seq<char>)
    requires
        lacks(target_site, '$') || forall|i: int| 0 <= i < target_site.len() ==> !is_ws(#[trigger] target_site[i]),
    ensures
        rewrite_target("rewrite ^/(.*)$ "@ + target_site + "/$1 permanent;"@) == target_site,
{
    reveal_strlit("rewrite ^/(.*)$ ");
    reveal_strlit("/$1 permanent;");
    let head = "rewrite ^/(.*)$ "@;
    let tail = "/$1 permanent;"@;
    let l = head + target_site + tail;
    let n = target_site.len() as int;
    assert(trim_start(l) == l);
    lemma_strip_end_at(l, false, l.len() as int);
    assert(l.take(l.len() as int) =~= l);
    assert(trim(l) == l);
    let rest = target_site + tail;
    assert forall|i: int| !occurs_at(rest, head, i) by {
        if occurs_at(rest, head, i) {
            assert(rest.subrange(i, i + 16)[14] == rest[i + 14]);
            assert(rest.subrange(i, i + 16)[15] == rest[i + 15]);
            if i + 15 < n {
                assert(rest[i + 14] == target_site[i + 14]);
                assert(rest[i + 15] == target_site[i + 15]);
                assert(is_ws(rest[i + 15]));
            } else if i + 14 < n {
                assert(rest[i + 15] == tail[0]);
            } else {
                let j = i + 14 - n;
                assert(rest[i + 14] == tail[j]);
                assert(j == 1);
                assert(rest[i + 15] == tail[2]);
            }
        }
    }
    assert(l =~= head + rest);
    lemma_replace_prefix(head, rest);
    assert forall|i: int| occurs_at(rest, tail, i) implies i == n by {
        assert(rest.subrange(i, i + 14)[1] == rest[i + 1]);
        assert(rest.subrange(i, i + 14)[3] == rest[i + 3]);
        if i + 1 < n {
            assert(rest[i + 1] == target_site[i + 1]);
            if i + 3 < n {
                assert(rest[i + 3] == target_site[i + 3]);
                assert(is_ws(rest[i + 3]));
            } else {
                assert(rest[i + 3] == tail[i + 3 - n]);
            }
        } else {
            assert(rest[i + 1] == tail[i + 1 - n]);
        }
    }
    lemma_replace_suffix(target_site, tail);
    reveal_strlit("");
    assert(""@ =~= Seq::<char>::empty());
}

/// A redirect configuration written for a target and a server name reads
/// back as the redirect site with that server name and that single target,
/// where the server name holds no whitespace, no `;` and no `rewrite`, and
/// the target holds no line feed and either no `$` or no whitespace.
pub proof fn lemma_redirect_round_trip(target_site: Seq<char>, server_name: Seq<char>)
    requires
        forall|i: int| 0 <= i < server_name.len() ==> !is_ws(#[trigger] server_name[i]) && server_name[i] != ';',
        !contains(server_name, "rewrite"@),
        lacks(target_site, '\n'),
        lacks(target_site, '$') || forall|i: int| 0 <= i < target_site.len() ==> !is_ws(#[trigger] target_site[i]),
    ensures
        redirect_site(redirect_template(target_site, server_name)) == (NginxObjView {
            server_name,
            target_site: TargetSpec::Single(target_site),
            feature: NginxFeatures::Redirect,
        }),
{
    reveal_strlit("rewrite");
    reveal_strlit("server_name");
    reveal_strlit("server {");
    reveal_strlit("server_name ");
    reveal_strlit(";");
    reveal_strlit("location / {");
    reveal_strlit("rewrite ^/(.*)$ ");
    reveal_strlit("/$1 permanent;");
    reveal_strlit("}");
    reveal_strlit("listen [::]:80;");
    reveal_strlit("listen 80;");
    assert(lacks(server_name, '\n')) by {
        assert forall|i: int| 0 <= i < server_name.len() implies server_name[i] != '\n' by {
            assert(!is_ws(server_name[i]));
        }
    }
    lemma_redirect_trimmed_lines(target_site, server_name);
    let e = Seq::<char>::empty();
    let n2 = "server_name "@ + server_name + ";"@;
    let w4 = "rewrite ^/(.*)$ "@ + target_site + "/$1 permanent;"@;
    let s0 = Seq::<Seq<char>>::empty();
    let s1 = s0.push(e);
    let s2 = s1.push("server {"@);
    let s3 = s2.push(n2);
    let s4 = s3.push("location / {"@);
    let s5 = s4.push(w4);
    let s6 = s5.push("}"@);
    let s7 = s6.push(e);
    let s8 = s7.push("listen [::]:80;"@);
    let s9 = s8.push("listen 80;"@);
    let s10 = s9.push(e);
    let s11 = s10.push("}"@);
    assert(trimmed_lines(redirect_template(target_site, server_name)) =~= s11);
    lemma_scan_plain(s0, e);
    lemma_scan_plain(s1, "server {"@);
    // the server_name line
    assert(!contains(n2, "rewrite"@)) by {
        lemma_not_contains_lacking("server_name "@, "rewrite"@, 2);
        lemma_not_contains_lacking(";"@, "rewrite"@, 2);
        lemma_framed_not_contains("server_name "@, server_name, ";"@, "rewrite"@);
        assert(n2 =~= "server_name "@ + server_name + ";"@);
    }
    assert(occurs_at(n2, "server_name"@, 0)) by {
        assert(n2.subrange(0, 11) =~= "server_name"@);
    }
    assert(s3.drop_last() =~= s2);
    assert(redirect_scan(s3) == (redirect_scan(s2).0, server_name_of(n2)));
    lemma_scan_plain(s3, "location / {"@);
    // the rewrite line
    assert(occurs_at(w4, "rewrite"@, 0)) by {
        assert(w4.subrange(0, 7) =~= "rewrite"@);
    }
    assert(s5.drop_last() =~= s4);
    assert(redirect_scan(s5) == (rewrite_target(w4), server_name_of(n2)));
    lemma_scan_plain(s5, "}"@);
    lemma_scan_plain(s6, e);
    lemma_scan_plain(s7, "listen [::]:80;"@);
    lemma_scan_plain(s8, "listen 80;"@);
    lemma_scan_plain(s9, e);
    lemma_scan_plain(s10, "}"@);
    lemma_redirect_server_name(server_name);
    lemma_redirect_target(target_site);
}

/// A site whose server name is already recorded is refused, whatever it
/// points to and whatever its feature.
pub proof fn lemma_taken_name_refused(o: NginxObjView, ps: Seq<UrlOutcome>)
    ensures
        !verify_stops(o, true, ps),
        verify_result(o, true, ps) == Err::<(), ReplySpec>((400u16, "Server Name Arg Error: Already Existed"@)),
{
}

/// The site a lookup by server name (and feature) finds has that server
/// name, and that feature where one was asked for.
pub proof fn lemma_lookup_finds_named_site(
    ts: Seq<RowText>,
    server_name: Seq<char>,
    feature: Option<NginxFeatures>,
    o: NginxObjView,
)
    requires
        selected_site(ts, server_name, feature, Some(Some(o))),
        feature != Some(NginxFeatures::NoFeature),
    ensures
        o.server_name == server_name,
        feature matches Some(f) ==> o.feature == f,
{
    let i = choose|i: int| #[trigger] first_selected(ts, i, server_name, feature) && row_site(ts[i]) == Some(o);
    assert(row_selected(ts[i], server_name, feature));
    if let Some(f) = feature {
        lemma_feature_name_roundtrip(f);
        assert(ts[i].2 == feature_name(f));
        assert(feature_from_name(ts[i].2) == Ok::<NginxFeatures, ()>(f));
    }
}

/// Every row's feature column holds the name of the feature it is read as
/// (the capitalised name that `NginxFeatures::to_string` writes).
pub open spec fn canonical_features(ts: Seq<RowText>) -> bool {
    forall|i: int|
        0 <= i < ts.len() ==> (#[trigger] row_site(ts[i]) matches Some(o) ==> feature_name(o.feature) == ts[i].2)
}

/// Selecting the sites by the feature column gives the sites of all rows
/// whose feature has that name, in the same order, where every row can be
/// read and holds its feature's name.
pub proof fn lemma_feature_sites_filter(ts: Seq<RowText>, name: Seq<char>)
    requires
        all_readable(ts),
        canonical_features(ts),
    ensures
        feature_sites(ts, name) == all_sites(ts).filter(|o: NginxObjView| feature_name(o.feature) == name),
    decreases ts.len(),
{
    let pred = |o: NginxObjView| feature_name(o.feature) == name;
    if ts.len() > 0 {
        let rest = ts.drop_last();
        let t = ts.last();
        assert forall|i: int| 0 <= i < rest.len() implies (#[trigger] row_site(rest[i])) is Some by {
            assert(rest[i] == ts[i]);
        }
        assert forall|i: int|
            0 <= i < rest.len() implies (#[trigger] row_site(rest[i]) matches Some(o) ==> feature_name(o.feature)
                == rest[i].2) by {
            assert(rest[i] == ts[i]);
        }
        lemma_feature_sites_filter(rest, name);
        assert(row_site(ts[ts.len() - 1]) is Some);
        let o = row_site(t)->0;
        assert(feature_name(o.feature) == t.2);
        let xs = all_sites(rest);
        let ys = all_sites(ts);
        assert(ys == xs + seq![o]);
        assert(ys.len() > 0);
        assert(ys.drop_last() =~= xs);
        assert(ys.last() == o);
        reveal(Seq::filter);
        assert(ys.filter(pred) == (if pred(ys.last()) {
            ys.drop_last().filter(pred).push(ys.last())
        } else {
            ys.drop_last().filter(pred)
        }));
        assert(ys.filter(pred) == (if pred(o) {
            xs.filter(pred).push(o)
        } else {
            xs.filter(pred)
        }));
        assert(xs.filter(pred).push(o) =~= xs.filter(pred) + seq![o]);
    }
}

/// Distinct features have distinct names.
pub proof fn lemma_feature_names_differ(f: NginxFeatures, g: NginxFeatures)
    requires
        f != g,
    ensures
        feature_name(f) != feature_name(g),
{
    lemma_none_has_no_name();
    if f != NginxFeatures::NoFeature {
        lemma_feature_name_roundtrip(f);
    }
    if g != NginxFeatures::NoFeature {
        lemma_feature_name_roundtrip(g);
    }
}

/// A target that needs no JSON escape: no `"`, no `\` and no control
/// character.
pub open spec fn plain_target(x: Seq<char>) -> bool {
    forall|i: int| 0 <= i < x.len() ==> json_plain_char(#[trigger] x[i])
}

/// A site with one plain target and a feature that has a name.
pub open spec fn plain_single_site(o: NginxObjView) -> bool {
    &&& o.target_site matches TargetSpec::Single(x) && plain_target(x)
    &&& o.feature != NginxFeatures::NoFeature
}

/// The row the site table gets for a site: its server name, the text of its
/// target (`TargetSite::to_string`) and the name of its feature
/// (`NginxFeatures::to_string`).
pub open spec fn site_row(o: NginxObjView) -> RowText {
    (o.server_name, target_text(o.target_site), feature_name(o.feature))
}

/// The row written for a site with one plain target reads back as the site.
pub proof fn lemma_single_site_row_round_trip(o: NginxObjView)
    requires
        plain_single_site(o),
    ensures
        row_site(site_row(o)) == Some(o),
{
    reveal_strlit("[\"");
    reveal_strlit("\"]");
    let x = match o.target_site {
        TargetSpec::Single(x) => x,
        _ => Seq::empty(),
    };
    let text = "[\""@ + x + "\"]"@;
    assert(target_text(o.target_site) == text);
    let n = text.len() as int;
    assert(n == x.len() + 4);
    assert(text[0] == '[' && text[1] == '"' && text[n - 2] == '"' && text[n - 1] == ']');
    assert forall|i: int| 2 <= i < n - 2 implies json_plain_char(#[trigger] text[i]) by {
        assert(text[i] == x[i - 2]);
    }
    assert(text.subrange(2, n - 2) =~= x);
    lemma_feature_name_roundtrip(o.feature);
}

/// Selecting one site gives one outcome: the relation `selected_site`
/// fixes the result.
pub proof fn lemma_selected_site_unique(
    ts: Seq<RowText>,
    server_name: Seq<char>,
    feature: Option<NginxFeatures>,
    r1: Option<Option<NginxObjView>>,
    r2: Option<Option<NginxObjView>>,
)
    requires
        selected_site(ts, server_name, feature, r1),
        selected_site(ts, server_name, feature, r2),
    ensures
        r1 == r2,
{
    if r1 is None || r1 matches Some(Some(_)) {
        let i = choose|i: int| #[trigger] first_selected(ts, i, server_name, feature) && (match r1 {
            Some(Some(o)) => row_site(ts[i]) == Some(o),
            _ => row_site(ts[i]) is None,
        });
        if r2 is None || r2 matches Some(Some(_)) {
            let k = choose|k: int| #[trigger] first_selected(ts, k, server_name, feature) && (match r2 {
                Some(Some(o)) => row_site(ts[k]) == Some(o),
                _ => row_site(ts[k]) is None,
            });
            if i < k {
                assert(!row_selected(ts[i], server_name, feature));
            } else if k < i {
                assert(!row_selected(ts[k], server_name, feature));
            }
        } else {
            assert(!row_selected(ts[i], server_name, feature));
        }
    } else if r2 is None || r2 matches Some(Some(_)) {
        let k = choose|k: int| #[trigger] first_selected(ts, k, server_name, feature) && (match r2 {
            Some(Some(o)) => row_site(ts[k]) == Some(o),
            _ => row_site(ts[k]) is None,
        });
        assert(!row_selected(ts[k], server_name, feature));
    }
}

/// After the row of a site with one plain target is added to a table that
/// has no row for its server name, selecting by that name, with no feature
/// or with the site's feature, finds the site; selecting with another
/// feature finds no row.
pub proof fn lemma_added_site_selected(ts: Seq<RowText>, o: NginxObjView, g: NginxFeatures)
    requires
        plain_single_site(o),
        forall|j: int| 0 <= j < ts.len() ==> (#[trigger] ts[j]).0 != o.server_name,
    ensures
        selected_site(ts.push(site_row(o)), o.server_name, None, Some(Some(o))),
        selected_site(ts.push(site_row(o)), o.server_name, Some(o.feature), Some(Some(o))),
        g != o.feature ==> selected_site(ts.push(site_row(o)), o.server_name, Some(g), Some(None)),
{
    let t2 = ts.push(site_row(o));
    let n = ts.len() as int;
    lemma_single_site_row_round_trip(o);
    assert(t2[n] == site_row(o));
    assert forall|j: int| 0 <= j < n implies (#[trigger] t2[j]).0 != o.server_name by {
        assert(t2[j] == ts[j]);
    }
    assert(first_selected(t2, n, o.server_name, None));
    assert(first_selected(t2, n, o.server_name, Some(o.feature)));
    if g != o.feature {
        lemma_feature_names_differ(o.feature, g);
        assert forall|j: int| 0 <= j < t2.len() implies !(#[trigger] row_selected(t2[j], o.server_name, Some(g))) by {
            if j < n {
                assert(t2[j].0 != o.server_name);
            }
        }
        assert(none_selected(t2, o.server_name, Some(g)));
    }
}

/// Validating a site whose server name is free and that has one target: a
/// redirect or a proxy is accepted exactly when its target's URL parses
/// (`ps[0]` is that parse) and is otherwise refused with 400 and
/// "Target Site Arg Error: " followed by the parse error; a single-page app
/// or a file-hosting site is accepted exactly when its path begins with `/`
/// and is otherwise refused with 400 "Target Site Arg Error: Path not
/// Absolute".
pub proof fn lemma_single_target_validation(o: NginxObjView, ps: Seq<UrlOutcome>)
    requires
        o.target_site is Single,
        ps.len() >= 1,
    ensures
        o.feature == NginxFeatures::Redirect || o.feature == NginxFeatures::Proxy ==> match ps[0] {
            Ok(_) => verify_result(o, false, ps) == Ok::<(), ReplySpec>(()),
            Err(e) => verify_result(o, false, ps) == Err::<(), ReplySpec>((400u16, "Target Site Arg Error: "@ + e)),
        },
        o.feature == NginxFeatures::SPA || o.feature == NginxFeatures::FileHost ==> match o.target_site {
            TargetSpec::Single(t) => if t.len() > 0 && t[0] == '/' {
                verify_result(o, false, ps) == Ok::<(), ReplySpec>(())
            } else {
                verify_result(o, false, ps) == Err::<(), ReplySpec>(
                    (400u16, "Target Site Arg Error: Path not Absolute"@),
                )
            },
            _ => true,
        },
{
}

/// Two configuration files for one server name in different directories
/// are different files.
pub proof fn lemma_conf_paths_differ(d1: Seq<char>, d2: Seq<char>, server_name: Seq<char>)
    requires
        d1 != d2,
    ensures
        d1 + "/"@ + server_name + ".conf"@ != d2 + "/"@ + server_name + ".conf"@,
{
    let t = "/"@ + server_name + ".conf"@;
    assert(d1 + "/"@ + server_name + ".conf"@ =~= d1 + t);
    assert(d2 + "/"@ + server_name + ".conf"@ =~= d2 + t);
    if d1 + t == d2 + t {
        assert(d1.len() == d2.len());
        assert((d1 + t).take(d1.len() as int) =~= d1);
        assert((d2 + t).take(d2.len() as int) =~= d2);
    }
}

/// The configuration file of a site is `name.conf` in the directory of its
/// feature (redirects, proxies, single-page apps, file hosting), and a site
/// without feature has none; so sites of two features whose directories
/// differ never share a file.
pub proof fn lemma_config_path_in_feature_dir(dirs: SiteDirsView, server_name: Seq<char>)
    ensures
        config_path_of(NginxFeatures::Redirect, dirs, server_name) == Some(dirs.redirect + "/"@ + server_name + ".conf"@),
        config_path_of(NginxFeatures::Proxy, dirs, server_name) == Some(dirs.proxy + "/"@ + server_name + ".conf"@),
        config_path_of(NginxFeatures::SPA, dirs, server_name) == Some(dirs.spa + "/"@ + server_name + ".conf"@),
        config_path_of(NginxFeatures::FileHost, dirs, server_name) == Some(dirs.file + "/"@ + server_name + ".conf"@),
        config_path_of(NginxFeatures::NoFeature, dirs, server_name) is None,
        dirs.spa != dirs.file ==> config_path_of(NginxFeatures::SPA, dirs, server_name) != config_path_of(
            NginxFeatures::FileHost,
            dirs,
            server_name,
        ),
        dirs.redirect != dirs.proxy ==> config_path_of(NginxFeatures::Redirect, dirs, server_name)
            != config_path_of(NginxFeatures::Proxy, dirs, server_name),
        dirs.redirect != dirs.spa ==> config_path_of(NginxFeatures::Redirect, dirs, server_name) != config_path_of(
            NginxFeatures::SPA,
            dirs,
            server_name,
        ),
        dirs.redirect != dirs.file ==> config_path_of(NginxFeatures::Redirect, dirs, server_name)
            != config_path_of(NginxFeatures::FileHost, dirs, server_name),
        dirs.proxy != dirs.spa ==> config_path_of(NginxFeatures::Proxy, dirs, server_name) != config_path_of(
            NginxFeatures::SPA,
            dirs,
            server_name,
        ),
        dirs.proxy != dirs.file ==> config_path_of(NginxFeatures::Proxy, dirs, server_name) != config_path_of(
            NginxFeatures::FileHost,
            dirs,
            server_name,
        ),
{
    if dirs.spa != dirs.file {
        lemma_conf_paths_differ(dirs.spa, dirs.file, server_name);
    }
    if dirs.redirect != dirs.proxy {
        lemma_conf_paths_differ(dirs.redirect, dirs.proxy, server_name);
    }
    if dirs.redirect != dirs.spa {
        lemma_conf_paths_differ(dirs.redirect, dirs.spa, server_name);
    }
    if dirs.redirect != dirs.file {
        lemma_conf_paths_differ(dirs.redirect, dirs.file, server_name);
    }
    if dirs.proxy != dirs.spa {
        lemma_conf_paths_differ(dirs.proxy, dirs.spa, server_name);
    }
    if dirs.proxy != dirs.file {
        lemma_conf_paths_differ(dirs.proxy, dirs.file, server_name);
    }
}

/// A configuration read as a site of a given feature gives a site of that
/// feature: a file-hosting configuration reads back as a file-hosting site,
/// a single-page app's as a single-page app, and so on.
pub proof fn lemma_config_site_feature(config: Seq<char>, feature: NginxFeatures)
    ensures
        config_site(config, feature).feature == feature,
{
}

/// The scan for an off-scheme upstream runs to the end exactly when every
/// upstream from `j` on parses with the scheme `scheme`.
proof fn lemma_first_off_scheme_end(ps: Seq<UrlOutcome>, scheme: Seq<char>, j: int)
    requires
        0 <= j <= ps.len(),
    ensures
        first_off_scheme(ps, scheme, j) == ps.len() <==> forall|i: int|
            j <= i < ps.len() ==> #[trigger] scheme_of(ps[i]) == Some(scheme),
        first_off_scheme(ps, scheme, j) <= ps.len(),
    decreases ps.len() - j,
{
    if j < ps.len() {
        lemma_first_off_scheme_end(ps, scheme, j + 1);
    }
}

/// Validating a site whose server name is free and that has several
/// targets: a redirect, a single-page app or a file-hosting site is
/// refused with 400 "Target Site Arg Error: Too many Args"; a proxy is
/// accepted exactly when every upstream URL parses with the scheme of the
/// first, and is otherwise refused with 400 "Server Name Arg Error:
/// Mismatch Protocol in Target Site".
pub proof fn lemma_multiple_target_validation(o: NginxObjView, ps: Seq<UrlOutcome>)
    requires
        o.target_site is Multiple,
        !verify_stops(o, false, ps),
    ensures
        o.feature != NginxFeatures::Proxy ==> verify_result(o, false, ps) == Err::<(), ReplySpec>(
            (400u16, "Target Site Arg Error: Too many Args"@),
        ),
        o.feature == NginxFeatures::Proxy ==> ps.len() > 0 && if forall|i: int|
            0 <= i < ps.len() ==> #[trigger] scheme_of(ps[i]) == scheme_of(ps[0]) {
            verify_result(o, false, ps) == Ok::<(), ReplySpec>(())
        } else {
            verify_result(o, false, ps) == Err::<(), ReplySpec>(
                (400u16, "Server Name Arg Error: Mismatch Protocol in Target Site"@),
            )
        },
{
    if o.feature == NginxFeatures::Proxy {
        let sc = scheme_of(ps[0])->0;
        assert(scheme_of(ps[0]) == Some(sc));
        lemma_first_off_scheme_end(ps, sc, 0);
    }
}

/// The value read from a line made of a keyword (ending with a space), a
/// value without whitespace or `;`, and a closing `;`.
proof fn lemma_keyword_value(kw: Seq<char>, v: Seq<char>)
    requires
        kw.len() > 0,
        kw.last() == ' ',
        forall|i: int| 0 <= i < v.len() ==> !is_ws(#[trigger] v[i]) && v[i] != ';',
    ensures
        server_name_of(kw + v + ";"@) == v,
{
    reveal_strlit(";");
    let k = kw.len() as int;
    let l = kw + v + ";"@;
    lemma_strip_end_at(l, false, l.len() as int);
    assert(l.take(l.len() as int) =~= l);
    assert forall|j: int| k <= j < l.len() implies !crate::text::is_sep(#[trigger] l[j], false) by {
        if j < k + v.len() {
            assert(l[j] == v[j - k]);
        }
    }
    assert(l[k - 1] == kw.last());
    lemma_word_suffix_at(l, false, k);
    assert(l.skip(k) =~= v + ";"@);
    assert forall|i: int| occurs_at(v + ";"@, ";"@, i) implies i == v.len() by {
        assert((v + ";"@).subrange(i, i + 1)[0] == (v + ";"@)[i]);
        if i < v.len() {
            assert((v + ";"@)[i] == v[i]);
        }
    }
    lemma_replace_suffix(v, ";"@);
    reveal_strlit("");
    assert(""@ =~= Seq::<char>::empty());
    assert(last_word(l, false) == v + ";"@);
}

/// A file-hosting or single-page-app configuration made of a `server`
/// block with a `server_name` line and a `root` line reads back as the site
/// of that server name, whose one target is that root, with the feature it
/// is read as; where the server name and the root hold no whitespace and
/// no `;`, and the server name does not mention `root`.
pub proof fn lemma_root_config_read(
    config: Seq<char>,
    server_name: Seq<char>,
    root: Seq<char>,
    feature: NginxFeatures,
)
    requires
        forall|i: int| 0 <= i < server_name.len() ==> !is_ws(#[trigger] server_name[i]) && server_name[i] != ';',
        forall|i: int| 0 <= i < root.len() ==> !is_ws(#[trigger] root[i]) && root[i] != ';',
        !contains(server_name, "root"@),
        trimmed_lines(config) == seq![
            "server {"@,
            "server_name "@ + server_name + ";"@,
            "root "@ + root + ";"@,
            "}"@,
        ],
    ensures
        root_site(config, feature) == (NginxObjView {
            server_name,
            target_site: TargetSpec::Single(root),
            feature,
        }),
{
    reveal_strlit("root");
    reveal_strlit("server_name");
    reveal_strlit("server {");
    reveal_strlit("server_name ");
    reveal_strlit("root ");
    reveal_strlit(";");
    reveal_strlit("}");
    let l0 = "server {"@;
    let l1 = "server_name "@ + server_name + ";"@;
    let l2 = "root "@ + root + ";"@;
    let l3 = "}"@;
    let s0 = Seq::<Seq<char>>::empty();
    let s1 = s0.push(l0);
    let s2 = s1.push(l1);
    let s3 = s2.push(l2);
    let s4 = s3.push(l3);
    assert(trimmed_lines(config) =~= s4);
    lemma_not_contains_lacking(l0, "root"@, 1);
    lemma_not_contains_lacking(l0, "server_name"@, 6);
    lemma_not_contains_lacking(l3, "root"@, 0);
    lemma_not_contains_lacking(l3, "server_name"@, 0);
    assert(!contains(l1, "root"@)) by {
        lemma_not_contains_lacking("server_name "@, "root"@, 1);
        lemma_not_contains_lacking(";"@, "root"@, 0);
        lemma_framed_not_contains("server_name "@, server_name, ";"@, "root"@);
    }
    assert(occurs_at(l1, "server_name"@, 0)) by {
        assert(l1.subrange(0, 11) =~= "server_name"@);
    }
    assert(occurs_at(l2, "root"@, 0)) by {
        assert(l2.subrange(0, 4) =~= "root"@);
    }
    assert(s1.drop_last() =~= s0);
    assert(s2.drop_last() =~= s1);
    assert(s3.drop_last() =~= s2);
    assert(s4.drop_last() =~= s3);
    assert(root_scan(s1) == root_scan(s0));
    assert(root_scan(s2) == (root_scan(s1).0, server_name_of(l1)));
    assert(root_scan(s3) == (server_name_of(l2), root_scan(s2).1));
    assert(root_scan(s4) == root_scan(s3));
    lemma_keyword_value("server_name "@, server_name);
    lemma_keyword_value("root "@, root);
}

} // verus!
