//! The listing of sites.
use super::query::ListNginxQueryString;
use super::response::{ActixCustomResponse, BodyView};
use crate::bindings::no_rows_text;
use crate::nginx::features::{feature_name, NginxFeatures};
use crate::nginx::table::{
    all_readable, all_sites, feature_readable, feature_sites, none_selected, rows_text,
    select_all_by_feature_from_tbl_nginxconf, select_all_from_tbl_nginxconf,
    select_one_from_tbl_nginxconf, selected_site, NginxRow, RowText,
};
use vstd::prelude::*;

verus! {

/// The value of a reply that is either a success or an error.
pub open spec fn reply_view(r: Option<Result<ActixCustomResponse, ActixCustomResponse>>) -> Option<
    Result<(u16, BodyView), (u16, BodyView)>,
> {
    match r {
        Some(Ok(a)) => Some(Ok(a@)),
        Some(Err(e)) => Some(Err(e@)),
        None => None,
    }
}

/// The reply to a listing over the site table's rows. With a server name:
/// the first row with it (and with the feature, if one is given) as one
/// site, or an error 500 with the database's no-row message. Without: every
/// site (with the feature, if one is given) as a list. `None` where a row
/// that the listing reads cannot be read.
pub open spec fn list_reply(
    ts: Seq<RowText>,
    feature: Option<NginxFeatures>,
    server_name: Option<Seq<char>>,
    r: Option<Result<(u16, BodyView), (u16, BodyView)>>,
) -> bool {
    match server_name {
        Some(n) => match r {
            Some(Ok((c, BodyView::NginxObj(o)))) => c == 200 && selected_site(ts, n, feature, Some(Some(o))),
            Some(Ok(_)) => false,
            Some(Err(e)) => e == (500u16, BodyView::Text("Query returned no rows"@)) && none_selected(ts, n, feature),
            None => selected_site(ts, n, feature, None),
        },
        None => match feature {
            Some(f) => if feature_readable(ts, feature_name(f)) {
                r == Some(Ok::<(u16, BodyView), (u16, BodyView)>((200u16, BodyView::HostingObj(feature_sites(ts, feature_name(f))))))
            } else {
                r is None
            },
            None => if all_readable(ts) {
                r == Some(Ok::<(u16, BodyView), (u16, BodyView)>((200u16, BodyView::HostingObj(all_sites(ts)))))
            } else {
                r is None
            },
        },
    }
}

/// Answers a listing of sites from the rows of the site table.
pub fn get_nginx_list(rows: &Vec<NginxRow>, query: &ListNginxQueryString) -> (r: Option<
    Result<ActixCustomResponse, ActixCustomResponse>,
>)
    ensures
        list_reply(rows_text(rows@), query@.0, query@.1, reply_view(r)),
{
    let feature = query.get_feature();
    match query.get_server_name() {
        Some(server_name) => {
            let wanted: Option<&NginxFeatures> = match feature {
                Some(f) => Some(f),
                None => None,
            };
            match select_one_from_tbl_nginxconf(rows, server_name.as_str(), wanted) {
                Some(Some(o)) => Some(Ok(ActixCustomResponse::new_nginx_obj(200, o))),
                Some(None) => Some(Err(ActixCustomResponse::new_text(500, no_rows_text()))),
                None => None,
            }
        },
        None => {
            let sites = match feature {
                Some(f) => {
                    let name = f.to_string();
                    select_all_by_feature_from_tbl_nginxconf(rows, name.as_str())
                },
                None => select_all_from_tbl_nginxconf(rows),
            };
            match sites {
                Some(v) => Some(Ok(ActixCustomResponse::new_vec_obj(200, v))),
                None => None,
            }
        },
    }
}

} // verus!
