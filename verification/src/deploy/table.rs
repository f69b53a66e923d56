//! The deployment table: one row per deployed site, with the port it
//! listens on and the directory of its theme.
use crate::text::str_eq;
use vstd::prelude::*;

verus! {

/// The columns `PortNumber,ThemePath,ServerName` of one row of the
/// deployment table.
pub type DeployRow = (usize, String, String);

/// Some row holds the server name.
pub open spec fn deployed(rows: Seq<DeployRow>, server_name: Seq<char>) -> bool {
    exists|j: int| 0 <= j < rows.len() && (#[trigger] rows[j]).2@ == server_name
}

/// `i` is the first row holding the server name.
pub open spec fn first_deployed(rows: Seq<DeployRow>, i: int, server_name: Seq<char>) -> bool {
    &&& 0 <= i < rows.len()
    &&& rows[i].2@ == server_name
    &&& forall|j: int| 0 <= j < i ==> (#[trigger] rows[j]).2@ != server_name
}

/// Whether some row holds the server name.
pub fn query_existence_from_tbl_deploydata(rows: &Vec<DeployRow>, server_name: &str) -> (b: bool)
    ensures
        b == deployed(rows@, server_name@),
{
    let mut i: usize = 0;
    while i < rows.len()
        invariant
            0 <= i <= rows@.len(),
            forall|j: int| 0 <= j < i ==> (#[trigger] rows@[j]).2@ != server_name@,
        decreases rows.len() - i,
    {
        if str_eq(rows[i].2.as_str(), server_name) {
            return true;
        }
        i = i + 1;
    }
    false
}

/// The port numbers of all rows, in order, each cut to 16 bits as the
/// column is read as a `usize` and stored in a `u16`.
pub fn select_all_ports_from_tbl_deploydata(rows: &Vec<DeployRow>) -> (r: Vec<u16>)
    ensures
        r@.len() == rows@.len(),
        forall|i: int| 0 <= i < rows@.len() ==> #[trigger] r@[i] == (rows@[i].0 as u16),
{
    let mut out: Vec<u16> = Vec::new();
    let mut i: usize = 0;
    while i < rows.len()
        invariant
            0 <= i <= rows@.len(),
            out@.len() == i,
            forall|k: int| 0 <= k < i ==> #[trigger] out@[k] == (rows@[k].0 as u16),
        decreases rows.len() - i,
    {
        let p: u16 = #[verifier::truncate] (rows[i].0 as u16);
        out.push(p);
        i = i + 1;
    }
    out
}

/// The theme directory of the first row holding the server name.
pub fn select_themedata_from_tbl_deploydata(rows: &Vec<DeployRow>, server_name: &str) -> (r: String)
    requires
        deployed(rows@, server_name@),
    ensures
        exists|i: int| first_deployed(rows@, i, server_name@) && r@ == (#[trigger] rows@[i]).1@,
{
    let mut i: usize = 0;
    while i < rows.len()
        invariant
            0 <= i <= rows@.len(),
            deployed(rows@, server_name@),
            forall|j: int| 0 <= j < i ==> (#[trigger] rows@[j]).2@ != server_name@,
        decreases rows.len() - i,
    {
        if str_eq(rows[i].2.as_str(), server_name) {
            let r = rows[i].1.clone();
            assert(first_deployed(rows@, i as int, server_name@) && r@ == rows@[i as int].1@);
            return r;
        }
        i = i + 1;
    }
    unreached()
}

} // verus!
