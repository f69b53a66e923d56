//! The addresses of the Cloudflare API and of the DNS lookup.
use vstd::prelude::*;

verus! {

/// The zones endpoint of the Cloudflare API.
pub const ZONES_URL: &'static str = "https://api.cloudflare.com/client/v4/zones";

/// The address that lists zones: the zone with the domain name, or as many
/// zones as the query limit allows; in name order, and only pending ones
/// when asked.
pub open spec fn zones_query(domain_name: Option<Seq<char>>, query_limit: Seq<char>, pending_status: bool) -> Seq<char> {
    let base = match domain_name {
        Some(zone) => "https://api.cloudflare.com/client/v4/zones?order=name&name="@ + zone,
        None => "https://api.cloudflare.com/client/v4/zones?order=name&per_page="@ + query_limit,
    };
    if pending_status {
        base + "&status=pending"@
    } else {
        base
    }
}

/// Builds the address that lists zones (see `zones_query`).
pub fn zones_url(domain_name: Option<&str>, query_limit: &str, pending_status: bool) -> (r: String)
    ensures
        r@ == zones_query(
            match domain_name {
                Some(d) => Some(d@),
                None => None,
            },
            query_limit@,
            pending_status,
        ),
{
    let mut s = match domain_name {
        Some(zone) => {
            let mut s = String::from_str("https://api.cloudflare.com/client/v4/zones?order=name&name=");
            s.append(zone);
            s
        },
        None => {
            let mut s = String::from_str("https://api.cloudflare.com/client/v4/zones?order=name&per_page=");
            s.append(query_limit);
            s
        },
    };
    if pending_status {
        s.append("&status=pending");
    }
    s
}

/// The address of a zone's DNS records, only those with the full domain
/// name when one is given.
pub open spec fn records_query(zone_id: Seq<char>, full_domain_name: Option<Seq<char>>) -> Seq<char> {
    match full_domain_name {
        Some(n) => "https://api.cloudflare.com/client/v4/zones/"@ + zone_id + "/dns_records?name="@ + n,
        None => "https://api.cloudflare.com/client/v4/zones/"@ + zone_id + "/dns_records"@,
    }
}

/// Builds the address of a zone's DNS records (see `records_query`).
pub fn records_url(zone_id: &str, full_domain_name: Option<&str>) -> (r: String)
    ensures
        r@ == records_query(
            zone_id@,
            match full_domain_name {
                Some(d) => Some(d@),
                None => None,
            },
        ),
{
    let mut s = String::from_str("https://api.cloudflare.com/client/v4/zones/");
    s.append(zone_id);
    match full_domain_name {
        Some(n) => {
            s.append("/dns_records?name=");
            s.append(n);
        },
        None => {
            s.append("/dns_records");
        },
    }
    s
}

/// Builds the address of one DNS record of a zone.
pub fn record_url(zone_id: &str, record_id: &str) -> (r: String)
    ensures
        r@ == "https://api.cloudflare.com/client/v4/zones/"@ + zone_id@ + "/dns_records/"@ + record_id@,
{
    let mut s = String::from_str("https://api.cloudflare.com/client/v4/zones/");
    s.append(zone_id);
    s.append("/dns_records/");
    s.append(record_id);
    s
}

/// Builds the DNS-over-HTTPS query for the address records of a domain.
pub fn dns_query_url(domain: &str) -> (r: String)
    ensures
        r@ == "https://1.1.1.1/dns-query?name="@ + domain@,
{
    let mut s = String::from_str("https://1.1.1.1/dns-query?name=");
    s.append(domain);
    s
}

} // verus!
