//! The site table: its rows as read from the database, and the selections
//! made on them.
use super::features::{feature_from_name, feature_name, NginxFeatures};
use super::obj::{NginxObj, NginxObjView};
use super::target_site::{target_from_list, TargetSite};
use crate::bindings::{json_string_list, parse_json_string_list, single_json_item};
use crate::text::str_eq;
use vstd::prelude::*;

verus! {

/// The columns `ServerName,Target,Feature` of one row of the site table:
/// the server name, the JSON list of targets and the feature's name.
pub type NginxRow = (String, String, String);

/// The text of a row's columns.
pub type RowText = (Seq<char>, Seq<char>, Seq<char>);

/// The text of a row.
pub open spec fn row_text(r: NginxRow) -> RowText {
    (r.0@, r.1@, r.2@)
}

/// The text of the rows, in order.
pub open spec fn rows_text(rows: Seq<NginxRow>) -> Seq<RowText> {
    rows.map_values(|r: NginxRow| row_text(r))
}

/// The site a row holds: the targets are a JSON list of strings (one target
/// is `Single`, any other number `Multiple`) and the feature is read from
/// its name. `None` where either column cannot be read.
pub open spec fn row_site(t: RowText) -> Option<NginxObjView> {
    match (stored_targets(t.1), feature_from_name(t.2)) {
        (Some(targets), Ok(feature)) => Some(
            NginxObjView { server_name: t.0, target_site: target_from_list(targets), feature },
        ),
        _ => None,
    }
}

/// The targets a row's target column reads as with
/// `serde_json::from_str::<Vec<String>>` (`json_string_list`): a text
/// `["x"]` whose `x` needs no JSON escape reads as the one target `x`.
pub open spec fn stored_targets(text: Seq<char>) -> Option<Seq<Seq<char>>> {
    match single_json_item(text) {
        Some(x) => Some(seq![x]),
        None => json_string_list(text),
    }
}

/// The values of a list of sites.
pub open spec fn site_views(v: Seq<NginxObj>) -> Seq<NginxObjView> {
    v.map_values(|o: NginxObj| o@)
}

/// Every row can be read.
pub open spec fn all_readable(ts: Seq<RowText>) -> bool {
    forall|i: int| 0 <= i < ts.len() ==> (#[trigger] row_site(ts[i])) is Some
}

/// The sites of the rows, in order.
pub open spec fn all_sites(ts: Seq<RowText>) -> Seq<NginxObjView> {
    ts.filter_map(|t: RowText| row_site(t))
}

/// A row's feature column holds exactly `feature`.
pub open spec fn has_feature(t: RowText, feature: Seq<char>) -> bool {
    t.2 == feature
}

/// Every row whose feature column holds `feature` can be read.
pub open spec fn feature_readable(ts: Seq<RowText>, feature: Seq<char>) -> bool {
    forall|i: int| 0 <= i < ts.len() && has_feature(ts[i], feature) ==> (#[trigger] row_site(ts[i])) is Some
}

/// The sites of the rows whose feature column holds `feature`, in order.
pub open spec fn feature_sites(ts: Seq<RowText>, feature: Seq<char>) -> Seq<NginxObjView> {
    ts.filter_map(|t: RowText| if has_feature(t, feature) { row_site(t) } else { None })
}

/// A row is selected by a server name and, where one is given, a feature
/// (compared with the feature's name).
pub open spec fn row_selected(t: RowText, server_name: Seq<char>, feature: Option<NginxFeatures>) -> bool {
    t.0 == server_name && match feature {
        Some(f) => t.2 == feature_name(f),
        None => true,
    }
}

/// `i` is the first selected row.
pub open spec fn first_selected(ts: Seq<RowText>, i: int, server_name: Seq<char>, feature: Option<NginxFeatures>) -> bool {
    &&& 0 <= i < ts.len()
    &&& row_selected(ts[i], server_name, feature)
    &&& forall|j: int| 0 <= j < i ==> !(#[trigger] row_selected(ts[j], server_name, feature))
}

/// No row is selected.
pub open spec fn none_selected(ts: Seq<RowText>, server_name: Seq<char>, feature: Option<NginxFeatures>) -> bool {
    forall|j: int| 0 <= j < ts.len() ==> !(#[trigger] row_selected(ts[j], server_name, feature))
}

/// Some row holds the server name.
pub open spec fn name_taken(ts: Seq<RowText>, server_name: Seq<char>) -> bool {
    exists|j: int| 0 <= j < ts.len() && (#[trigger] ts[j]).0 == server_name
}

proof fn lemma_filter_map_step<A, B>(s: Seq<A>, f: spec_fn(A) -> Option<B>, i: int)
    requires
        0 <= i < s.len(),
    ensures
        s.take(i + 1).filter_map(f) == s.take(i).filter_map(f) + match f(s[i]) {
            Some(b) => seq![b],
            None => Seq::<B>::empty(),
        },
{
    s.lemma_filter_map_take_succ(f, i);
}

/// Reads the site a row holds (see `row_site`); `None` where the stored
/// targets are not a JSON list of strings or the feature has no name.
pub fn extract_single_nginxobj(row: &NginxRow) -> (r: Option<NginxObj>)
    ensures
        match r {
            Some(o) => row_site(row_text(*row)) == Some(o@),
            None => row_site(row_text(*row)) is None,
        },
{
    let targets = match parse_json_string_list(row.1.as_str()) {
        Some(t) => t,
        None => {
            return None;
        },
    };
    let feature = match NginxFeatures::from_str(row.2.as_str()) {
        Ok(f) => f,
        Err(()) => {
            return None;
        },
    };
    let server_name = row.0.clone();
    let target_site = TargetSite::from_list(targets);
    Some(NginxObj::new_unchecked(server_name, target_site, feature))
}

/// All sites of the table, in order; `None` where a row cannot be read.
pub fn select_all_from_tbl_nginxconf(rows: &Vec<NginxRow>) -> (r: Option<Vec<NginxObj>>)
    ensures
        match r {
            Some(v) => all_readable(rows_text(rows@)) && site_views(v@) == all_sites(rows_text(rows@)),
            None => !all_readable(rows_text(rows@)),
        },
{
    let ghost ts = rows_text(rows@);
    let ghost f = |t: RowText| row_site(t);
    let mut out: Vec<NginxObj> = Vec::new();
    let mut i: usize = 0;
    while i < rows.len()
        invariant
            0 <= i <= rows@.len(),
            ts == rows_text(rows@),
            f == (|t: RowText| row_site(t)),
            forall|k: int| 0 <= k < i ==> (#[trigger] row_site(ts[k])) is Some,
            site_views(out@) == ts.take(i as int).filter_map(f),
        decreases rows.len() - i,
    {
        proof {
            lemma_filter_map_step(ts, f, i as int);
        }
        match extract_single_nginxobj(&rows[i]) {
            Some(o) => {
                let ghost before = out@;
                out.push(o);
                assert(site_views(out@) == site_views(before).push(o@));
            },
            None => {
                assert(row_site(ts[i as int]) is None);
                return None;
            },
        }
        i = i + 1;
    }
    assert(ts.take(rows@.len() as int) == ts);
    Some(out)
}

/// The sites whose feature column holds `feature`, in order; `None` where
/// such a row cannot be read.
pub fn select_all_by_feature_from_tbl_nginxconf(rows: &Vec<NginxRow>, feature: &str) -> (r: Option<
    Vec<NginxObj>,
>)
    ensures
        match r {
            Some(v) => feature_readable(rows_text(rows@), feature@) && site_views(v@) == feature_sites(
                rows_text(rows@),
                feature@,
            ),
            None => !feature_readable(rows_text(rows@), feature@),
        },
{
    let ghost ts = rows_text(rows@);
    let ghost fv = feature@;
    let ghost f = |t: RowText| if has_feature(t, fv) { row_site(t) } else { None };
    let mut out: Vec<NginxObj> = Vec::new();
    let mut i: usize = 0;
    while i < rows.len()
        invariant
            0 <= i <= rows@.len(),
            ts == rows_text(rows@),
            fv == feature@,
            f == (|t: RowText| if has_feature(t, fv) { row_site(t) } else { None }),
            forall|k: int| 0 <= k < i && has_feature(ts[k], fv) ==> (#[trigger] row_site(ts[k])) is Some,
            site_views(out@) == ts.take(i as int).filter_map(f),
        decreases rows.len() - i,
    {
        proof {
            lemma_filter_map_step(ts, f, i as int);
        }
        if str_eq(rows[i].2.as_str(), feature) {
            match extract_single_nginxobj(&rows[i]) {
                Some(o) => {
                    let ghost before = out@;
                    out.push(o);
                    assert(site_views(out@) == site_views(before).push(o@));
                },
                None => {
                    assert(has_feature(ts[i as int], fv) && row_site(ts[i as int]) is None);
                    return None;
                },
            }
        }
        i = i + 1;
    }
    assert(ts.take(rows@.len() as int) == ts);
    Some(out)
}

/// The feature a reference option points to.
pub open spec fn feature_of(feature: Option<&NginxFeatures>) -> Option<NginxFeatures> {
    match feature {
        Some(x) => Some(*x),
        None => None,
    }
}

/// What selecting one site gives: the site of the first selected row,
/// `Some(None)` where no row is selected, `None` where the first selected
/// row cannot be read.
pub open spec fn selected_site(ts: Seq<RowText>, server_name: Seq<char>, feature: Option<NginxFeatures>, r: Option<
    Option<NginxObjView>,
>) -> bool {
    match r {
        Some(Some(o)) => exists|i: int| #[trigger] first_selected(ts, i, server_name, feature) && row_site(ts[i]) == Some(o),
        Some(None) => none_selected(ts, server_name, feature),
        None => exists|i: int| #[trigger] first_selected(ts, i, server_name, feature) && row_site(ts[i]) is None,
    }
}

/// The value of an optional site.
pub open spec fn opt_view(r: Option<Option<NginxObj>>) -> Option<Option<NginxObjView>> {
    match r {
        Some(Some(o)) => Some(Some(o@)),
        Some(None) => Some(None),
        None => None,
    }
}

/// The site of the first row with the server name (and, where one is given,
/// the feature): `Some(None)` where no row is selected, `None` where the
/// selected row cannot be read.
pub fn select_one_from_tbl_nginxconf(rows: &Vec<NginxRow>, server_name: &str, feature: Option<&NginxFeatures>) -> (r:
    Option<Option<NginxObj>>)
    ensures
        selected_site(rows_text(rows@), server_name@, feature_of(feature), opt_view(r)),
{
    let ghost ts = rows_text(rows@);
    let ghost f = feature_of(feature);
    let wanted: Option<String> = match feature {
        Some(x) => Some(x.to_string()),
        None => None,
    };
    let mut i: usize = 0;
    while i < rows.len()
        invariant
            0 <= i <= rows@.len(),
            ts == rows_text(rows@),
            f == feature_of(feature),
            wanted.is_some() == f.is_some(),
            wanted.is_some() ==> wanted->0@ == feature_name(f->0),
            forall|j: int| 0 <= j < i ==> !(#[trigger] row_selected(ts[j], server_name@, f)),
        decreases rows.len() - i,
    {
        let name_matches = str_eq(rows[i].0.as_str(), server_name);
        let feature_matches = match &wanted {
            Some(w) => str_eq(rows[i].2.as_str(), w.as_str()),
            None => true,
        };
        assert(ts[i as int] == row_text(rows@[i as int]));
        if name_matches && feature_matches {
            assert(first_selected(ts, i as int, server_name@, f));
            let found = extract_single_nginxobj(&rows[i]);
            let r = match found {
                Some(o) => Some(Some(o)),
                None => None,
            };
            assert(selected_site(ts, server_name@, f, opt_view(r)));
            return r;
        }
        i = i + 1;
    }
    Some(None)
}

/// Whether some row holds the server name.
pub fn query_existence_from_tbl_nginxconf(rows: &Vec<NginxRow>, server_name: &str) -> (b: bool)
    ensures
        b == name_taken(rows_text(rows@), server_name@),
{
    let ghost ts = rows_text(rows@);
    let mut i: usize = 0;
    while i < rows.len()
        invariant
            0 <= i <= rows@.len(),
            ts == rows_text(rows@),
            forall|j: int| 0 <= j < i ==> (#[trigger] ts[j]).0 != server_name@,
        decreases rows.len() - i,
    {
        assert(ts[i as int] == row_text(rows@[i as int]));
        if str_eq(rows[i].0.as_str(), server_name) {
            return true;
        }
        i = i + 1;
    }
    false
}

} // verus!
