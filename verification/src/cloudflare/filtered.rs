//! The zones kept in the database: active ones and pending ones.
use super::time::{elapsed_minutes, rfc3339_time_of_day, chrono_rfc3339_time, TimeOfDay};
use crate::bindings::{
    json_optional_string_list, json_string_list, parse_json_optional_string_list,
    parse_json_string_list,
};
use crate::text::{chars_of, join, join_chars, push_all, string_from_chars, views};
use vstd::prelude::*;

verus! {

/// An active zone: a domain and its Cloudflare zone id.
pub struct CloudflareData {
    server_name: String,
    zone_id: String,
}

impl CloudflareData {
    pub closed spec fn server_name_view(&self) -> Seq<char> {
        self.server_name@
    }

    pub closed spec fn zone_id_view(&self) -> Seq<char> {
        self.zone_id@
    }

    pub fn new(server_name: String, zone_id: String) -> (r: Self)
        ensures
            r.server_name_view() == server_name@,
            r.zone_id_view() == zone_id@,
    {
        Self { server_name, zone_id }
    }

    pub fn get_server_name(&self) -> (r: &str)
        ensures
            r@ == self.server_name_view(),
    {
        self.server_name.as_str()
    }

    pub fn get_zone_id(&self) -> (r: &str)
        ensures
            r@ == self.zone_id_view(),
    {
        self.zone_id.as_str()
    }
}

/// The value of a pending zone.
pub struct PendingView {
    pub server_name: Seq<char>,
    pub new_dns: Seq<Seq<char>>,
    pub old_dns: Option<Seq<Seq<char>>>,
    pub registra: Option<Seq<char>>,
    pub last_check: (u32, u32),
}

/// A zone that waits for its domain's name servers to be changed at the
/// registrar.
pub struct CloudflarePending {
    server_name: String,
    new_dns: Vec<String>,
    old_dns: Option<Vec<String>>,
    registra: Option<String>,
    last_check: TimeOfDay,
}

impl View for CloudflarePending {
    type V = PendingView;

    closed spec fn view(&self) -> PendingView {
        PendingView {
            server_name: self.server_name@,
            new_dns: self.new_dns.deep_view(),
            old_dns: self.old_dns.deep_view(),
            registra: self.registra.deep_view(),
            last_check: self.last_check.parts(),
        }
    }
}

/// The lines listing name servers: one `\tNameserver: <name>` line each.
pub open spec fn dns_list_text(dns: Seq<Seq<char>>) -> Seq<char> {
    join(dns.map_values(|d: Seq<char>| "\tNameserver: "@ + d), "\n"@)
}

/// The pending zone stored in a database row, where the row can be read:
/// the name-server columns hold JSON lists (the old one possibly `null`)
/// and the last check is an RFC 3339 date-time with a valid time of day.
pub open spec fn pending_row(
    server_name: Seq<char>,
    new_dns_json: Seq<char>,
    old_dns_json: Seq<char>,
    registra: Option<Seq<char>>,
    last_check: Seq<char>,
) -> Option<PendingView> {
    match (json_string_list(new_dns_json), json_optional_string_list(old_dns_json), chrono_rfc3339_time(last_check)) {
        (Some(n), Some(o), Some((s, ns))) => Some(
            PendingView { server_name, new_dns: n, old_dns: o, registra, last_check: (s, ns) },
        ),
        _ => None,
    }
}

impl CloudflarePending {
    pub fn new(
        server_name: String,
        new_dns: Vec<String>,
        old_dns: Option<Vec<String>>,
        registra: Option<String>,
        last_check: TimeOfDay,
    ) -> (r: Self)
        ensures
            r@ == (PendingView {
                server_name: server_name@,
                new_dns: new_dns.deep_view(),
                old_dns: old_dns.deep_view(),
                registra: registra.deep_view(),
                last_check: last_check.parts(),
            }),
    {
        Self { server_name, new_dns, old_dns, registra, last_check }
    }

    pub fn get_server_name(&self) -> (r: &str)
        ensures
            r@ == self@.server_name,
    {
        self.server_name.as_str()
    }

    pub fn get_new_dns(&self) -> (r: &Vec<String>)
        ensures
            r.deep_view() == self@.new_dns,
    {
        &self.new_dns
    }

    pub fn get_old_dns(&self) -> (r: &Option<Vec<String>>)
        ensures
            r.deep_view() == self@.old_dns,
    {
        &self.old_dns
    }

    pub fn get_registra(&self) -> (r: &Option<String>)
        ensures
            r.deep_view() == self@.registra,
    {
        &self.registra
    }

    pub fn get_last_check(&self) -> (r: TimeOfDay)
        ensures
            r.parts() == self@.last_check,
    {
        self.last_check.clone()
    }

    /// The name servers, one `\tNameserver: <name>` line each.
    pub fn format_dns_vec(dns: &Vec<String>) -> (r: String)
        ensures
            r@ == dns_list_text(dns.deep_view()),
    {
        let prefix = chars_of("\tNameserver: ");
        let mut lines: Vec<Vec<char>> = Vec::new();
        let ghost target = dns.deep_view().map_values(|d: Seq<char>| "\tNameserver: "@ + d);
        let mut i: usize = 0;
        while i < dns.len()
            invariant
                0 <= i <= dns@.len(),
                prefix@ == "\tNameserver: "@,
                target == dns.deep_view().map_values(|d: Seq<char>| "\tNameserver: "@ + d),
                lines@.len() == i,
                forall|k: int| 0 <= k < i ==> #[trigger] lines@[k]@ == target[k],
            decreases dns.len() - i,
        {
            let mut l: Vec<char> = Vec::new();
            push_all(&mut l, prefix.as_slice());
            let d = chars_of(dns[i].as_str());
            push_all(&mut l, d.as_slice());
            lines.push(l);
            i = i + 1;
        }
        assert(views(lines@) =~= target);
        let nl = chars_of("\n");
        let joined = join_chars(&lines, nl.as_slice());
        string_from_chars(joined.as_slice())
    }

    /// Whether the last check is at least `limit_minutes` whole minutes
    /// before `now` (both as times of day).
    pub fn is_expired(&self, now: &TimeOfDay, limit_minutes: i64) -> (b: bool)
        ensures
            b == (elapsed_minutes(now.parts().0, now.parts().1, self@.last_check.0, self@.last_check.1) >= limit_minutes),
    {
        now.minutes_since(&self.last_check) >= limit_minutes
    }

    /// Reads a pending zone from the columns of its database row
    /// (see `pending_row`); `None` where the row cannot be read.
    pub fn from_row(
        server_name: String,
        new_dns_json: &str,
        old_dns_json: &str,
        registra: Option<String>,
        last_check: &str,
    ) -> (r: Option<CloudflarePending>)
        ensures
            match r {
                Some(p) => pending_row(server_name@, new_dns_json@, old_dns_json@, registra.deep_view(), last_check@) == Some(p@),
                None => pending_row(server_name@, new_dns_json@, old_dns_json@, registra.deep_view(), last_check@) is None,
            },
    {
        let new_dns = match parse_json_string_list(new_dns_json) {
            Some(v) => v,
            None => {
                return None;
            },
        };
        let old_dns = match parse_json_optional_string_list(old_dns_json) {
            Some(v) => v,
            None => {
                return None;
            },
        };
        let t = match rfc3339_time_of_day(last_check) {
            Some(t) => t,
            None => {
                return None;
            },
        };
        Some(CloudflarePending::new(server_name, new_dns, old_dns, registra, t))
    }
}

} // verus!
