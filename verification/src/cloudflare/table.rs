//! The zone tables: active zones and zones waiting for their name servers.
use super::filtered::{pending_row, CloudflareData, CloudflarePending, PendingView};
use crate::text::str_eq;
use vstd::prelude::*;

verus! {

/// The columns `ServerName,ZoneID` of one row of the active-zone table.
pub type ZoneDataRow = (String, String);

/// The columns `ServerName,NewDNS,OldDNS,Registra,LastCheck` of one row of
/// the pending-zone table.
pub type PendingRow = (String, String, String, Option<String>, String);

/// `i` is the first active-zone row holding the server name.
pub open spec fn first_zone(rows: Seq<ZoneDataRow>, i: int, server_name: Seq<char>) -> bool {
    &&& 0 <= i < rows.len()
    &&& rows[i].0@ == server_name
    &&& forall|j: int| 0 <= j < i ==> (#[trigger] rows[j]).0@ != server_name
}

/// `i` is the first pending-zone row holding the server name.
pub open spec fn first_pending(rows: Seq<PendingRow>, i: int, server_name: Seq<char>) -> bool {
    &&& 0 <= i < rows.len()
    &&& rows[i].0@ == server_name
    &&& forall|j: int| 0 <= j < i ==> (#[trigger] rows[j]).0@ != server_name
}

/// The pending zone a row holds (see `pending_row`).
pub open spec fn pending_of_row(row: PendingRow) -> Option<PendingView> {
    pending_row(row.0@, row.1@, row.2@, row.3.deep_view(), row.4@)
}

/// The active zone of the first row holding the server name, if any.
pub fn query_from_tbl_cloudflare_data(rows: &Vec<ZoneDataRow>, server_name: &str) -> (r: Option<CloudflareData>)
    ensures
        match r {
            Some(d) => exists|i: int| #[trigger] first_zone(rows@, i, server_name@)
                && d.server_name_view() == rows@[i].0@ && d.zone_id_view() == rows@[i].1@,
            None => forall|j: int| 0 <= j < rows@.len() ==> (#[trigger] rows@[j]).0@ != server_name@,
        },
{
    let mut i: usize = 0;
    while i < rows.len()
        invariant
            0 <= i <= rows@.len(),
            forall|j: int| 0 <= j < i ==> (#[trigger] rows@[j]).0@ != server_name@,
        decreases rows.len() - i,
    {
        if str_eq(rows[i].0.as_str(), server_name) {
            let d = CloudflareData::new(rows[i].0.clone(), rows[i].1.clone());
            assert(first_zone(rows@, i as int, server_name@));
            return Some(d);
        }
        i = i + 1;
    }
    None
}

/// The pending zone of the first row holding the server name:
/// `Some(None)` where no row holds it, `None` where that row cannot be read.
pub fn query_from_tbl_cloudflare_pending(rows: &Vec<PendingRow>, server_name: &str) -> (r: Option<
    Option<CloudflarePending>,
>)
    ensures
        match r {
            Some(Some(p)) => exists|i: int| #[trigger] first_pending(rows@, i, server_name@)
                && pending_of_row(rows@[i]) == Some(p@),
            Some(None) => forall|j: int| 0 <= j < rows@.len() ==> (#[trigger] rows@[j]).0@ != server_name@,
            None => exists|i: int| #[trigger] first_pending(rows@, i, server_name@)
                && pending_of_row(rows@[i]) is None,
        },
{
    let mut i: usize = 0;
    while i < rows.len()
        invariant
            0 <= i <= rows@.len(),
            forall|j: int| 0 <= j < i ==> (#[trigger] rows@[j]).0@ != server_name@,
        decreases rows.len() - i,
    {
        if str_eq(rows[i].0.as_str(), server_name) {
            let row = &rows[i];
            let p = CloudflarePending::from_row(
                row.0.clone(),
                row.1.as_str(),
                row.2.as_str(),
                row.3.clone(),
                row.4.as_str(),
            );
            assert(first_pending(rows@, i as int, server_name@));
            return match p {
                Some(p) => Some(Some(p)),
                None => None,
            };
        }
        i = i + 1;
    }
    Some(None)
}

/// After a row is added for a server name that no pending row held, the
/// added row is the first (and only) one for it, so a query for the name
/// reads that row (`pending_of_row` of it).
pub proof fn lemma_added_pending_row_selected(rows: Seq<PendingRow>, row: PendingRow)
    requires
        forall|j: int| 0 <= j < rows.len() ==> (#[trigger] rows[j]).0@ != row.0@,
    ensures
        first_pending(rows.push(row), rows.len() as int, row.0@),
        forall|i: int| #[trigger] first_pending(rows.push(row), i, row.0@) ==> i == rows.len(),
{
    let r2 = rows.push(row);
    assert(r2[rows.len() as int] == row);
    assert forall|j: int| 0 <= j < rows.len() implies (#[trigger] r2[j]).0@ != row.0@ by {
        assert(r2[j] == rows[j]);
    }
}

} // verus!
