//! The decisions of setting up a domain on Cloudflare, of removing its
//! record, and of importing zones into the database.
use super::datatype::{response_check, response_empty, ObjResponse, ObjResult};
use super::filtered::{dns_list_text, pending_row, CloudflarePending, PendingView};
use super::time::chrono_rfc3339_time;
use super::records::RecordsRes;
use super::zones::ZoneRes;
use crate::bindings::{json_optional_string_list, json_string_list, json_text_of_list, list_to_json};
use crate::nginx::obj::{reply_result, Reply, ReplySpec};
use crate::text::{before_first, before_first_chars, chars_of, join, join_chars, str_eq, string_from_chars, views};
use vstd::prelude::*;

verus! {

/// The record name and the zone of a domain split by a public-suffix
/// lookup: the subdomain (`@` for the apex) and `domain.suffix`.
pub open spec fn zone_names_of(subdomain: Option<Seq<char>>, domain: Seq<char>, suffix: Seq<char>) -> (Seq<char>, Seq<char>) {
    (
        match subdomain {
            Some(s) => s,
            None => "@"@,
        },
        domain + "."@ + suffix,
    )
}

/// The record name and the zone of a domain (see `zone_names_of`).
pub fn zone_names(subdomain: Option<String>, domain: &str, suffix: &str) -> (r: (String, String))
    ensures
        (r.0@, r.1@) == zone_names_of(subdomain.deep_view(), domain@, suffix@),
{
    let sub = match subdomain {
        Some(s) => s,
        None => String::from_str("@"),
    };
    let mut tld = String::from_str(domain);
    tld.append(".");
    tld.append(suffix);
    (sub, tld)
}

/// What to do about a pending zone of the domain.
pub enum PendingStep {
    /// No zone is pending: go on.
    Proceed,
    /// The last check is old enough: ask Cloudflare again.
    Recheck,
    /// The zone is still pending: stop with this reply.
    Fail(Reply),
}

/// The reply for a zone whose name servers are not yet configured.
pub open spec fn not_configured_reply(new_dns: Seq<Seq<char>>) -> ReplySpec {
    (503u16, "\n"@ + dns_list_text(new_dns) + "\nfor your domain has not yet been configured yet"@)
}

/// The reply for a zone whose name servers are not yet pointed to Cloudflare.
pub open spec fn not_directed_reply(new_dns: Seq<Seq<char>>) -> ReplySpec {
    (503u16, "\n"@ + dns_list_text(new_dns) + "\nfor your domain has not yet been directed to our server"@)
}

fn dns_reply(new_dns: &Vec<String>, tail: &str) -> (r: Reply)
    ensures
        r.0 == 503,
        r.1@ == "\n"@ + dns_list_text(new_dns.deep_view()) + tail@,
{
    let mut m = String::from_str("\n");
    let l = CloudflarePending::format_dns_vec(new_dns);
    m.append(l.as_str());
    m.append(tail);
    (503, m)
}

/// Decides on a pending zone found for the domain: none lets the setup go
/// on, an expired one is checked again, any other stops the setup.
pub fn pending_step(pending: Option<&CloudflarePending>, expired: bool) -> (r: PendingStep)
    ensures
        match pending {
            None => r is Proceed,
            Some(p) => if expired {
                r is Recheck
            } else {
                r matches PendingStep::Fail((c, m)) && (c, m@) == not_configured_reply(p@.new_dns)
            },
        },
{
    match pending {
        None => PendingStep::Proceed,
        Some(p) => if expired {
            PendingStep::Recheck
        } else {
            PendingStep::Fail(dns_reply(p.get_new_dns(), "\nfor your domain has not yet been configured yet"))
        },
    }
}

/// The outcome of checking a pending zone again: gone means active, still
/// pending stops the setup.
pub fn recheck_outcome(r: Result<Option<CloudflarePending>, Reply>) -> (out: Result<(), Reply>)
    ensures
        match r {
            Ok(None) => out is Ok,
            Ok(Some(p)) => reply_result(out) == Err::<(), ReplySpec>(not_directed_reply(p@.new_dns)),
            Err((c, m)) => reply_result(out) == Err::<(), ReplySpec>((c, m@)),
        },
{
    match r {
        Ok(None) => Ok(()),
        Ok(Some(p)) => Err(dns_reply(p.get_new_dns(), "\nfor your domain has not yet been directed to our server")),
        Err(e) => Err(e),
    }
}

/// What to do with the records found for the domain.
pub enum RecordsStep {
    /// The request failed with this reply.
    Fail(Reply),
    /// No record exists: create one.
    Create,
    /// Records exist: inspect them.
    Inspect,
}

/// Decides on the response to the record lookup of the domain.
pub fn records_step(response: &ObjResponse) -> (r: RecordsStep)
    requires
        !(response.result matches Some(ObjResult::NoResult)),
    ensures
        match response_check(response) {
            Err(e) => r matches RecordsStep::Fail((c, m)) && (c, m@) == e,
            Ok(_) => if response_empty(response) {
                r is Create
            } else {
                r is Inspect
            },
        },
{
    match response.unwrap() {
        Err(e) => RecordsStep::Fail(e),
        Ok(()) => if response.is_empty() {
            RecordsStep::Create
        } else {
            RecordsStep::Inspect
        },
    }
}

/// A record of type `CNAME` or `A`.
pub open spec fn is_address_record(r: RecordsRes) -> bool {
    r.record_type@ == "CNAME"@ || r.record_type@ == "A"@
}

/// The index of the first `CNAME` or `A` record.
pub fn first_address_record(records: &Vec<RecordsRes>) -> (r: Option<usize>)
    ensures
        match r {
            Some(i) => i < records@.len() && is_address_record(records@[i as int]) && forall|j: int|
                0 <= j < i ==> !is_address_record(#[trigger] records@[j]),
            None => forall|j: int| 0 <= j < records@.len() ==> !is_address_record(#[trigger] records@[j]),
        },
{
    let mut i: usize = 0;
    while i < records.len()
        invariant
            0 <= i <= records@.len(),
            forall|j: int| 0 <= j < i ==> !is_address_record(#[trigger] records@[j]),
        decreases records.len() - i,
    {
        let t = records[i].record_type.as_str();
        if str_eq(t, "CNAME") || str_eq(t, "A") {
            return Some(i);
        }
        i = i + 1;
    }
    None
}

/// A record is a `CNAME` record.
pub fn is_cname(record: &RecordsRes) -> (b: bool)
    ensures
        b == (record.record_type@ == "CNAME"@),
{
    str_eq(record.record_type.as_str(), "CNAME")
}

/// The content of the first record of a record lookup: the reply where the
/// lookup failed, `None` where it found no record.
pub fn first_record_content(response: &ObjResponse) -> (r: Result<Option<String>, Reply>)
    ensures
        match response_check(response) {
            Err(e) => r matches Err((c, m)) && (c, m@) == e,
            Ok(_) => match response.result {
                Some(ObjResult::DNSRecords(v)) if v@.len() > 0 => r matches Ok(Some(s)) && s@ == v@[0].content@,
                _ => r matches Ok(None),
            },
        },
{
    match response.unwrap() {
        Err(e) => Err(e),
        Ok(()) => match &response.result {
            Some(ObjResult::DNSRecords(v)) => if v.len() > 0 {
                Ok(Some(String::from_str(v[0].content.as_str())))
            } else {
                Ok(None)
            },
            _ => Ok(None),
        },
    }
}

/// What to do with a domain's existing address record.
#[derive(Debug, PartialEq, Eq, Structural)]
pub enum AddressStep {
    /// Point the record at the server's address.
    Update,
    /// The record already resolves to the server's address.
    Keep,
}

/// The record is updated exactly when the address it resolves to differs
/// from the server's public address.
pub fn address_step(public_ip: &str, actual_ip: &str) -> (r: AddressStep)
    ensures
        (r == AddressStep::Update) <==> (public_ip@ != actual_ip@),
{
    if str_eq(public_ip, actual_ip) {
        AddressStep::Keep
    } else {
        AddressStep::Update
    }
}

/// A zone row to store: pending (waiting for its name servers) or active.
pub enum ZoneRow {
    Pending {
        server_name: String,
        new_dns: String,
        old_dns: Option<String>,
        registra: Option<String>,
        last_check: String,
    },
    Data { server_name: String, zone_id: String },
}

/// The registrar as stored: the part before its first comma.
pub open spec fn registrar_name(r: Option<Seq<char>>) -> Option<Seq<char>> {
    match r {
        Some(s) => Some(before_first(s, ","@)),
        None => None,
    }
}

/// The pending row of a zone, checked at `now`: its name servers and the
/// original ones as JSON lists, and its registrar's name.
pub open spec fn pending_row_of(zone: ZoneRes, now: Seq<char>) -> (Seq<char>, Seq<char>, Option<Seq<char>>, Option<Seq<char>>, Seq<char>) {
    (
        zone.name@,
        json_text_of_list(zone.name_servers.deep_view()),
        match zone.original_name_servers {
            Some(v) => Some(json_text_of_list(v.deep_view())),
            None => None,
        },
        registrar_name(zone.original_registrar.deep_view()),
        now,
    )
}

/// What the pending row of a zone, checked at `now`, reads back as: the
/// zone's name, its name servers and original ones, its registrar's name,
/// and the time of day of `now` (nothing where `now` is no RFC 3339
/// date-time).
pub open spec fn pending_read_back(zone: ZoneRes, now: Seq<char>) -> Option<PendingView> {
    zone_read_back(zone.name@, zone, registrar_name(zone.original_registrar.deep_view()), now)
}

/// A pending zone read back under a server name with a zone's name servers
/// and original ones, a registrar, and the time of day of `now` (nothing
/// where `now` is no RFC 3339 date-time).
pub open spec fn zone_read_back(server_name: Seq<char>, zone: ZoneRes, registra: Option<Seq<char>>, now: Seq<char>) -> Option<
    PendingView,
> {
    match chrono_rfc3339_time(now) {
        Some((s, n)) => Some(
            PendingView {
                server_name,
                new_dns: zone.name_servers.deep_view(),
                old_dns: zone.original_name_servers.deep_view(),
                registra,
                last_check: (s, n),
            },
        ),
        None => None,
    }
}

/// A pending row whose `OldDNS` column was written reads back as the zone
/// it was written for.
pub open spec fn reads_back(r: ZoneRow, zone: ZoneRes, now: Seq<char>) -> bool {
    r matches ZoneRow::Pending { server_name, new_dns, old_dns: Some(o), registra, last_check } ==> pending_row(
        server_name@,
        new_dns@,
        o@,
        registra.deep_view(),
        last_check@,
    ) == pending_read_back(zone, now)
}

/// The value of a pending `ZoneRow`.
pub open spec fn pending_fields(r: ZoneRow) -> (Seq<char>, Seq<char>, Option<Seq<char>>, Option<Seq<char>>, Seq<char>) {
    match r {
        ZoneRow::Pending { server_name, new_dns, old_dns, registra, last_check } => (
            server_name@,
            new_dns@,
            old_dns.deep_view(),
            registra.deep_view(),
            last_check@,
        ),
        _ => arbitrary(),
    }
}

fn pending_row_for(zone: &ZoneRes, now: &str) -> (r: ZoneRow)
    ensures
        r is Pending,
        pending_fields(r) == pending_row_of(*zone, now@),
        reads_back(r, *zone, now@),
{
    let new_dns = list_to_json(&zone.name_servers);
    let old_dns = match &zone.original_name_servers {
        Some(v) => Some(list_to_json(v)),
        None => None,
    };
    let registra = match &zone.original_registrar {
        Some(s) => {
            let cs = chars_of(s.as_str());
            let comma = chars_of(",");
            proof {
                reveal_strlit(",");
            }
            let first = before_first_chars(cs.as_slice(), comma.as_slice());
            Some(string_from_chars(first.as_slice()))
        },
        None => None,
    };
    ZoneRow::Pending {
        server_name: String::from_str(zone.name.as_str()),
        new_dns,
        old_dns,
        registra,
        last_check: String::from_str(now),
    }
}

/// The row of a zone read from Cloudflare: pending zones are stored with
/// their name servers, the others with their zone id.
pub fn zone_row(zone: &ZoneRes, now: &str) -> (r: ZoneRow)
    ensures
        if zone.status@ == "pending"@ {
            r is Pending && pending_fields(r) == pending_row_of(*zone, now@) && reads_back(r, *zone, now@)
        } else {
            r matches ZoneRow::Data { server_name, zone_id } && server_name@ == zone.name@
                && zone_id@ == zone.id@
        },
{
    if str_eq(zone.status.as_str(), "pending") {
        pending_row_for(zone, now)
    } else {
        ZoneRow::Data {
            server_name: String::from_str(zone.name.as_str()),
            zone_id: String::from_str(zone.id.as_str()),
        }
    }
}

/// The instructions for moving a new zone's name servers to Cloudflare.
pub open spec fn nameserver_instructions(zone: ZoneRes) -> Seq<char> {
    let registrar = match zone.original_registrar {
        Some(r) => r@,
        None => Seq::empty(),
    };
    let new_list = join(zone.name_servers.deep_view(), "\n"@);
    match zone.original_name_servers {
        Some(old) => "Please remove these \n"@ + join(old.deep_view(), "\n"@) + " at your Registra "@
            + registrar + " \nand replace with these \n"@ + new_list,
        None => "Please replace your Nameserver at your Registra "@ + registrar + " with \n"@ + new_list,
    }
}

fn join_strings(list: &Vec<String>, sep: &str) -> (r: String)
    ensures
        r@ == join(list.deep_view(), sep@),
{
    let mut v: Vec<Vec<char>> = Vec::new();
    let mut i: usize = 0;
    while i < list.len()
        invariant
            0 <= i <= list@.len(),
            v@.len() == i,
            forall|k: int| 0 <= k < i ==> #[trigger] v@[k]@ == list@[k]@,
        decreases list.len() - i,
    {
        v.push(chars_of(list[i].as_str()));
        i = i + 1;
    }
    assert(views(v@) =~= list.deep_view());
    let s = chars_of(sep);
    let j = join_chars(&v, s.as_slice());
    string_from_chars(j.as_slice())
}

/// The instructions for a new zone (see `nameserver_instructions`).
pub fn zone_instructions(zone: &ZoneRes) -> (r: String)
    ensures
        r@ == nameserver_instructions(*zone),
{
    let registrar = match &zone.original_registrar {
        Some(r) => String::from_str(r.as_str()),
        None => String::new(),
    };
    let new_list = join_strings(&zone.name_servers, "\n");
    match &zone.original_name_servers {
        Some(old) => {
            let mut m = String::from_str("Please remove these \n");
            let old_list = join_strings(old, "\n");
            m.append(old_list.as_str());
            m.append(" at your Registra ");
            m.append(registrar.as_str());
            m.append(" \nand replace with these \n");
            m.append(new_list.as_str());
            m
        },
        None => {
            let mut m = String::from_str("Please replace your Nameserver at your Registra ");
            m.append(registrar.as_str());
            m.append(" with \n");
            m.append(new_list.as_str());
            m
        },
    }
}

/// The end of a domain setup.
pub enum FinishStep {
    /// Nothing was created: the domain is set up.
    Done,
    /// A record was created or updated: wait for it, then the domain is set up.
    Wait,
    /// A new zone was created: store it as pending and stop with a 503
    /// reply that tells how to move the name servers.
    PendingZone(ZoneRow, Reply),
    /// The response holds neither a new zone nor a new record.
    Unexpected,
}

/// Decides how a domain setup ends from the last response (`now` is the
/// time of the check, as RFC 3339 text).
pub fn finish_step(result: &ObjResponse, now: &str) -> (r: FinishStep)
    requires
        !(result.result matches Some(ObjResult::NoResult)),
    ensures
        if response_empty(result) {
            r is Done
        } else {
            match result.result {
                Some(ObjResult::ZoneData(z)) => r matches FinishStep::PendingZone(row, (c, m)) && row is Pending
                    && pending_fields(row) == pending_row_of(z, now@) && reads_back(row, z, now@) && c == 503
                    && m@ == nameserver_instructions(z),
                Some(ObjResult::DNSRecord(_)) => r is Wait,
                _ => r is Unexpected,
            }
        },
{
    if result.is_empty() {
        return FinishStep::Done;
    }
    match &result.result {
        Some(ObjResult::ZoneData(zone)) => {
            let row = pending_row_for(zone, now);
            FinishStep::PendingZone(row, (503, zone_instructions(zone)))
        },
        Some(ObjResult::DNSRecord(_)) => FinishStep::Wait,
        _ => FinishStep::Unexpected,
    }
}

/// What to do after asking Cloudflare again about a pending zone.
pub enum RecheckStep {
    /// The request failed with this reply.
    Fail(Reply),
    /// The zone is no longer pending: drop its row.
    DeletePending,
    /// The zone is still pending: update its row with these values
    /// (new name servers, old ones, registrar, time of the check).
    UpdatePending(String, Option<String>, Option<String>, String),
    /// The response holds no zone list.
    Unexpected,
}

/// Decides on the response to a pending-zone recheck.
pub fn recheck_step(response: &ObjResponse, now: &str) -> (r: RecheckStep)
    requires
        !(response.result matches Some(ObjResult::NoResult)),
    ensures
        match response_check(response) {
            Err(e) => r matches RecheckStep::Fail((c, m)) && (c, m@) == e,
            Ok(_) => if response_empty(response) {
                r is DeletePending
            } else {
                match response.result {
                    Some(ObjResult::ZonesData(v)) => r matches RecheckStep::UpdatePending(n, o, g, t)
                        && n@ == json_text_of_list(v@[0].name_servers.deep_view())
                        && o.deep_view() == (match v@[0].original_name_servers {
                            Some(x) => Some(json_text_of_list(x.deep_view())),
                            None => None,
                        })
                        && g.deep_view() == v@[0].original_registrar.deep_view()
                        && t@ == now@
                        && json_string_list(n@) == Some(v@[0].name_servers.deep_view())
                        && (o matches Some(x) ==> json_optional_string_list(x@) == Some(
                            v@[0].original_name_servers.deep_view(),
                        ) && forall|name: Seq<char>|
                            #[trigger] pending_row(name, n@, x@, g.deep_view(), t@) == zone_read_back(
                                name,
                                v@[0],
                                v@[0].original_registrar.deep_view(),
                                now@,
                            )),
                    _ => r is Unexpected,
                }
            },
        },
{
    match response.unwrap() {
        Err(e) => RecheckStep::Fail(e),
        Ok(()) => {
            if response.is_empty() {
                return RecheckStep::DeletePending;
            }
            match &response.result {
                Some(ObjResult::ZonesData(v)) => {
                    let z = &v[0];
                    let n = list_to_json(&z.name_servers);
                    let o = match &z.original_name_servers {
                        Some(x) => Some(list_to_json(x)),
                        None => None,
                    };
                    let g = match &z.original_registrar {
                        Some(s) => Some(String::from_str(s.as_str())),
                        None => None,
                    };
                    RecheckStep::UpdatePending(n, o, g, String::from_str(now))
                },
                _ => RecheckStep::Unexpected,
            }
        },
    }
}

/// The id of the record to delete: the first record of the lookup.
pub open spec fn delete_target_of(response: &ObjResponse) -> Result<Seq<char>, ReplySpec> {
    match response_check(response) {
        Err(e) => Err(e),
        Ok(_) => match response.result {
            Some(ObjResult::DNSRecords(v)) => if v@.len() > 0 {
                Ok(v@[0].id@)
            } else {
                Err((500u16, "Vec Empty"@))
            },
            Some(_) => Err((500u16, "Unexpected Response"@)),
            None => Err((500u16, "Item doesn't exist!"@)),
        },
    }
}

/// Finds the record to delete (see `delete_target_of`).
pub fn delete_target(response: &ObjResponse) -> (r: Result<String, Reply>)
    ensures
        match r {
            Ok(id) => delete_target_of(response) == Ok::<Seq<char>, ReplySpec>(id@),
            Err((c, m)) => delete_target_of(response) == Err::<Seq<char>, ReplySpec>((c, m@)),
        },
{
    match response.unwrap() {
        Err(e) => Err(e),
        Ok(()) => match &response.result {
            Some(ObjResult::DNSRecords(v)) => if v.len() > 0 {
                Ok(String::from_str(v[0].id.as_str()))
            } else {
                Err((500, String::from_str("Vec Empty")))
            },
            Some(_) => Err((500, String::from_str("Unexpected Response"))),
            None => Err((500, String::from_str("Item doesn't exist!"))),
        },
    }
}

/// The reply to a record deletion, by whether the API answered 200 OK.
pub fn delete_reply(status_ok: bool) -> (r: Result<(), Reply>)
    ensures
        reply_result(r) == (if status_ok {
            Ok::<(), ReplySpec>(())
        } else {
            Err((500u16, "Delete has failed. please try again.."@))
        }),
{
    if status_ok {
        Ok(())
    } else {
        Err((500, String::from_str("Delete has failed. please try again..")))
    }
}

/// The reply when the domain's zone is not stored.
pub fn missing_zone_reply() -> (r: Reply)
    ensures
        r.0 == 500,
        r.1@ == "Doesn't exist!"@,
{
    (500, String::from_str("Doesn't exist!"))
}

} // verus!
