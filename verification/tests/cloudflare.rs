use hosting_helper::cloudflare::datatype::{ObjErr, ObjMsg, ObjResponse, ObjResult};
use hosting_helper::cloudflare::filtered::{CloudflareData, CloudflarePending};
use hosting_helper::cloudflare::records::{ObjMeta as RecordMeta, RecordsRes};
use hosting_helper::cloudflare::requests::{dns_query_url, record_url, records_url, zones_url, ZONES_URL};
use hosting_helper::cloudflare::public_ip::{address_of_answer, ip_from_dns_answer, ip_from_echo};
use hosting_helper::cloudflare::setup::{
    address_step, delete_reply, delete_target, finish_step, first_address_record, first_record_content, is_cname,
    missing_zone_reply, pending_step, recheck_outcome, recheck_step, records_step, zone_instructions, zone_names,
    zone_row, AddressStep, FinishStep, PendingStep, RecheckStep, RecordsStep, ZoneRow,
};
use hosting_helper::cloudflare::table::{query_from_tbl_cloudflare_data, query_from_tbl_cloudflare_pending, PendingRow};
use hosting_helper::cloudflare::time::{rfc3339_time_of_day, TimeOfDay};
use hosting_helper::cloudflare::zones::{ObjAcc, ObjMeta, ObjOwner, ObjPlan, ObjTenant, ObjTenantUnit, ZoneRes};

fn record(id: &str, kind: &str, content: &str) -> RecordsRes {
    RecordsRes {
        id: String::from(id),
        zone_id: String::from("z"),
        zone_name: String::from("a.com"),
        name: String::from("www.a.com"),
        record_type: String::from(kind),
        content: String::from(content),
        proxied: false,
        proxiable: true,
        ttl: 1,
        locked: false,
        meta: RecordMeta {
            auto_added: false,
            managed_by_argo_tunnel: false,
            managed_by_apps: false,
            source: String::from("primary"),
        },
        comment: None,
        tags: Vec::new(),
        created_on: String::new(),
        modified_on: String::new(),
    }
}

fn zone(status: &str, old: Option<Vec<&str>>, registrar: Option<&str>) -> ZoneRes {
    ZoneRes {
        id: String::from("zone-id"),
        name: String::from("a.com"),
        status: String::from(status),
        paused: false,
        zone_type: String::from("full"),
        development_mode: 0,
        name_servers: vec![String::from("ns1.cf.com"), String::from("ns2.cf.com")],
        original_name_servers: old.map(|v| v.into_iter().map(String::from).collect()),
        original_registrar: registrar.map(String::from),
        original_dnshost: None,
        modified_on: String::new(),
        created_on: String::new(),
        activated_on: None,
        meta: ObjMeta {
            cdn_only: None,
            custom_certificate_quota: 0,
            dns_only: None,
            foundation_dns: None,
            page_rule_quota: 3,
            phishing_detected: false,
            step: 4,
        },
        owner: ObjOwner { id: None, name: None, owner_type: Some(String::from("user")), email: None },
        account: Some(ObjAcc { id: Some(String::from("acc")), name: None }),
        tenant: ObjTenant(ObjAcc { id: None, name: None }),
        tenant_unit: ObjTenantUnit { id: None },
        permissions: Vec::new(),
        plan: ObjPlan {
            id: String::new(),
            name: String::from("Free"),
            price: 0,
            currency: String::from("USD"),
            frequency: String::new(),
            is_subscribed: false,
            can_subscribe: false,
            legacy_id: String::from("free"),
            legacy_discount: false,
            externally_managed: false,
        },
        vanity_name_servers: None,
    }
}

fn response(success: bool, result: Option<ObjResult>) -> ObjResponse {
    ObjResponse {
        errors: if success {
            Vec::new()
        } else {
            vec![
                ObjErr(ObjMsg { code: 1000, message: String::from("first") }),
                ObjErr(ObjMsg { code: 1001, message: String::from("second") }),
            ]
        },
        messages: Vec::new(),
        success,
        result_info: None,
        result,
    }
}

#[test]
fn response_check_joins_errors() {
    assert_eq!(response(true, None).unwrap(), Ok(()));
    assert_eq!(response(false, None).unwrap(), Err((500, String::from("first\nsecond"))));
    assert!(response(true, None).is_empty());
    assert!(response(true, Some(ObjResult::DNSRecords(Vec::new()))).is_empty());
    assert!(!response(true, Some(ObjResult::DNSRecord(record("r", "A", "1.1.1.1")))).is_empty());
    assert!(ObjResponse::default().result.is_none());
}

#[test]
fn zone_names_split() {
    assert_eq!(
        zone_names(Some(String::from("www")), "a", "co.uk"),
        (String::from("www"), String::from("a.co.uk"))
    );
    assert_eq!(zone_names(None, "a", "com"), (String::from("@"), String::from("a.com")));
}

fn pending() -> CloudflarePending {
    CloudflarePending::new(
        String::from("a.com"),
        vec![String::from("ns1.cf.com"), String::from("ns2.cf.com")],
        None,
        Some(String::from("Registrar")),
        TimeOfDay::new(3600, 0).unwrap(),
    )
}

#[test]
fn pending_zone_steps() {
    assert!(matches!(pending_step(None, false), PendingStep::Proceed));
    let p = pending();
    assert!(matches!(pending_step(Some(&p), true), PendingStep::Recheck));
    match pending_step(Some(&p), false) {
        PendingStep::Fail((c, m)) => {
            assert_eq!(c, 503);
            assert_eq!(
                m,
                "\n\tNameserver: ns1.cf.com\n\tNameserver: ns2.cf.com\nfor your domain has not yet been configured yet"
            );
        },
        _ => panic!("a fresh pending zone stops the setup"),
    }
    assert_eq!(recheck_outcome(Ok(None)), Ok(()));
    assert_eq!(
        recheck_outcome(Ok(Some(pending()))),
        Err((
            503,
            String::from(
                "\n\tNameserver: ns1.cf.com\n\tNameserver: ns2.cf.com\nfor your domain has not yet been directed to our server"
            )
        ))
    );
    assert_eq!(recheck_outcome(Err((500, String::from("x")))), Err((500, String::from("x"))));
}

#[test]
fn pending_zone_fields_and_time() {
    let p = pending();
    assert_eq!(p.get_server_name(), "a.com");
    assert_eq!(p.get_new_dns().len(), 2);
    assert!(p.get_old_dns().is_none());
    assert_eq!(p.get_registra().as_deref(), Some("Registrar"));
    assert_eq!(p.get_last_check().secs(), 3600);
    assert_eq!(CloudflarePending::format_dns_vec(&vec![String::from("x")]), "\tNameserver: x");
    let later = TimeOfDay::new(3600 + 16 * 60, 0).unwrap();
    assert!(p.is_expired(&later, 15));
    assert!(!p.is_expired(&later, 17));
    assert!(TimeOfDay::new(86400, 0).is_none());
    assert!(TimeOfDay::new(59, 1_500_000_000).is_some());
    assert!(TimeOfDay::new(58, 1_500_000_000).is_none());
    let t = rfc3339_time_of_day("2024-05-01T10:20:30.5+07:00").unwrap();
    assert_eq!(t.secs(), 10 * 3600 + 20 * 60 + 30);
    assert_eq!(t.nanos(), 500_000_000);
    assert!(rfc3339_time_of_day("yesterday").is_none());
}

#[test]
fn record_steps() {
    match records_step(&response(false, None)) {
        RecordsStep::Fail((c, m)) => assert_eq!((c, m), (500, String::from("first\nsecond"))),
        _ => panic!("a failed lookup fails"),
    }
    assert!(matches!(records_step(&response(true, Some(ObjResult::DNSRecords(Vec::new())))), RecordsStep::Create));
    assert!(matches!(
        records_step(&response(true, Some(ObjResult::DNSRecords(vec![record("r", "A", "1.1.1.1")])))),
        RecordsStep::Inspect
    ));
    let rs = vec![record("t", "TXT", "v"), record("c", "CNAME", "x.com"), record("a", "A", "1.1.1.1")];
    assert_eq!(first_address_record(&rs), Some(1));
    assert_eq!(first_address_record(&vec![record("t", "TXT", "v")]), None);
    assert!(is_cname(&rs[1]));
    assert!(!is_cname(&rs[2]));
    assert_eq!(
        first_record_content(&response(true, Some(ObjResult::DNSRecords(vec![record("a", "A", "9.9.9.9")])))),
        Ok(Some(String::from("9.9.9.9")))
    );
    assert_eq!(first_record_content(&response(true, None)), Ok(None));
}

#[test]
fn zone_rows() {
    match zone_row(&zone("pending", Some(vec!["old1.net", "old2.net"]), Some("Reg, Inc.")), "2024-01-01T00:00:00Z") {
        ZoneRow::Pending { server_name, new_dns, old_dns, registra, last_check } => {
            assert_eq!(server_name, "a.com");
            assert_eq!(new_dns, "[\"ns1.cf.com\",\"ns2.cf.com\"]");
            assert_eq!(old_dns, Some(String::from("[\"old1.net\",\"old2.net\"]")));
            assert_eq!(registra, Some(String::from("Reg")));
            assert_eq!(last_check, "2024-01-01T00:00:00Z");
        },
        _ => panic!("a pending zone"),
    }
    match zone_row(&zone("active", None, None), "now") {
        ZoneRow::Data { server_name, zone_id } => {
            assert_eq!(server_name, "a.com");
            assert_eq!(zone_id, "zone-id");
        },
        _ => panic!("an active zone"),
    }
}

#[test]
fn instructions_for_name_servers() {
    assert_eq!(
        zone_instructions(&zone("pending", Some(vec!["old1.net"]), Some("Reg"))),
        "Please remove these \nold1.net at your Registra Reg \nand replace with these \nns1.cf.com\nns2.cf.com"
    );
    assert_eq!(
        zone_instructions(&zone("pending", None, None)),
        "Please replace your Nameserver at your Registra  with \nns1.cf.com\nns2.cf.com"
    );
}

#[test]
fn finish_and_recheck_steps() {
    assert!(matches!(finish_step(&response(true, None), "t"), FinishStep::Done));
    assert!(matches!(
        finish_step(&response(true, Some(ObjResult::DNSRecord(record("r", "A", "1.1.1.1")))), "t"),
        FinishStep::Wait
    ));
    match finish_step(&response(true, Some(ObjResult::ZoneData(zone("pending", None, None)))), "t") {
        FinishStep::PendingZone(ZoneRow::Pending { .. }, (c, _)) => assert_eq!(c, 503),
        _ => panic!("a new zone waits for its name servers"),
    }
    assert!(matches!(
        finish_step(&response(true, Some(ObjResult::DNSRecords(vec![record("r", "A", "1")]))), "t"),
        FinishStep::Unexpected
    ));
    assert!(matches!(recheck_step(&response(true, None), "t"), RecheckStep::DeletePending));
    match recheck_step(&response(true, Some(ObjResult::ZonesData(vec![zone("pending", None, Some("R"))]))), "t") {
        RecheckStep::UpdatePending(n, o, g, t) => {
            assert_eq!(n, "[\"ns1.cf.com\",\"ns2.cf.com\"]");
            assert_eq!(o, None);
            assert_eq!(g, Some(String::from("R")));
            assert_eq!(t, "t");
        },
        _ => panic!("a zone still pending is updated"),
    }
    assert!(matches!(recheck_step(&response(false, None), "t"), RecheckStep::Fail(_)));
    assert!(matches!(
        recheck_step(&response(true, Some(ObjResult::ZoneData(zone("pending", None, None)))), "t"),
        RecheckStep::Unexpected
    ));
}

#[test]
fn record_deletion() {
    assert_eq!(
        delete_target(&response(true, Some(ObjResult::DNSRecords(vec![record("rid", "A", "1")])))),
        Ok(String::from("rid"))
    );
    assert_eq!(
        delete_target(&response(true, Some(ObjResult::DNSRecords(Vec::new())))),
        Err((500, String::from("Vec Empty")))
    );
    assert_eq!(
        delete_target(&response(true, Some(ObjResult::ZonesData(Vec::new())))),
        Err((500, String::from("Unexpected Response")))
    );
    assert_eq!(delete_target(&response(true, None)), Err((500, String::from("Item doesn't exist!"))));
    assert_eq!(delete_reply(true), Ok(()));
    assert_eq!(delete_reply(false), Err((500, String::from("Delete has failed. please try again.."))));
    assert_eq!(missing_zone_reply(), (500, String::from("Doesn't exist!")));
}

#[test]
fn zone_tables() {
    let rows = vec![(String::from("a.com"), String::from("z1")), (String::from("b.com"), String::from("z2"))];
    let d = query_from_tbl_cloudflare_data(&rows, "b.com").unwrap();
    assert_eq!(d.get_server_name(), "b.com");
    assert_eq!(d.get_zone_id(), "z2");
    assert!(query_from_tbl_cloudflare_data(&rows, "c.com").is_none());
    let c = CloudflareData::new(String::from("x"), String::from("y"));
    assert_eq!(c.get_zone_id(), "y");
    let prow: PendingRow = (
        String::from("a.com"),
        String::from("[\"ns1\",\"ns2\"]"),
        String::from("null"),
        None,
        String::from("2024-01-01T01:02:03Z"),
    );
    let p = query_from_tbl_cloudflare_pending(&vec![prow.clone()], "a.com").unwrap().unwrap();
    assert_eq!(p.get_new_dns(), &vec![String::from("ns1"), String::from("ns2")]);
    assert!(p.get_old_dns().is_none());
    assert_eq!(p.get_last_check().secs(), 3723);
    assert!(query_from_tbl_cloudflare_pending(&vec![prow.clone()], "b.com").unwrap().is_none());
    let bad: PendingRow = (String::from("a.com"), String::from("["), String::from("null"), None, String::from("x"));
    assert!(query_from_tbl_cloudflare_pending(&vec![bad], "a.com").is_none());
}

#[test]
fn api_addresses() {
    assert_eq!(ZONES_URL, "https://api.cloudflare.com/client/v4/zones");
    assert_eq!(
        zones_url(Some("a.com"), "50", true),
        "https://api.cloudflare.com/client/v4/zones?order=name&name=a.com&status=pending"
    );
    assert_eq!(zones_url(None, "50", false), "https://api.cloudflare.com/client/v4/zones?order=name&per_page=50");
    assert_eq!(
        records_url("z1", Some("www.a.com")),
        "https://api.cloudflare.com/client/v4/zones/z1/dns_records?name=www.a.com"
    );
    assert_eq!(records_url("z1", None), "https://api.cloudflare.com/client/v4/zones/z1/dns_records");
    assert_eq!(record_url("z1", "r1"), "https://api.cloudflare.com/client/v4/zones/z1/dns_records/r1");
    assert_eq!(dns_query_url("a.com"), "https://1.1.1.1/dns-query?name=a.com");
}

#[test]
fn public_address_from_dns_answer() {
    let body = "{\"Status\":0,\"Answer\":[{\"name\":\"a.com\",\"type\":1,\"data\":\"1.2.3.4\"},{\"data\":\"5.6.7.8\"}]}";
    assert_eq!(ip_from_dns_answer(body), Some(String::from("1.2.3.4")));
    assert_eq!(ip_from_dns_answer("{\"Status\":3}"), Some(String::new()));
    assert_eq!(ip_from_dns_answer("not json"), None);
    assert_eq!(ip_from_dns_answer("{\"Answer\":[]}"), None);
    assert_eq!(ip_from_dns_answer("{\"Answer\":[{\"data\":7}]}"), None);
    assert_eq!(ip_from_dns_answer("{\"Answer\":{\"data\":\"1.2.3.4\"}}"), None);
    assert_eq!(address_of_answer(Some(Some(Some(String::from("9.9.9.9"))))), Some(String::from("9.9.9.9")));
    assert_eq!(address_of_answer(Some(None)), Some(String::new()));
    assert_eq!(address_of_answer(Some(Some(None))), None);
    assert_eq!(address_of_answer(None), None);
}

#[test]
fn public_address_from_echo() {
    assert_eq!(ip_from_echo("  203.0.113.7\n"), "203.0.113.7");
    assert_eq!(ip_from_echo("203.0.113.7"), "203.0.113.7");
    assert_eq!(ip_from_echo(" \t\n"), "");
}

#[test]
fn address_record_update() {
    assert_eq!(address_step("1.2.3.4", "1.2.3.4"), AddressStep::Keep);
    assert_eq!(address_step("1.2.3.4", "5.6.7.8"), AddressStep::Update);
    assert_eq!(address_step("1.2.3.4", ""), AddressStep::Update);
}

#[test]
fn minutes_between_times_of_day() {
    let t = |s: u32, n: u32| TimeOfDay::new(s, n).unwrap();
    assert_eq!(t(3600, 0).minutes_since(&t(0, 0)), 60);
    assert_eq!(t(0, 0).minutes_since(&t(3600, 0)), -60);
    assert_eq!(t(119, 999_999_999).minutes_since(&t(0, 0)), 1);
    assert_eq!(t(0, 0).minutes_since(&t(120, 500_000_000)), -2);
    assert_eq!(t(0, 0).minutes_since(&t(59, 0)), 0);
    assert_eq!(t(120, 0).minutes_since(&t(59, 1_500_000_000)), 1);
    assert_eq!(t(119, 0).minutes_since(&t(59, 1_000_000_000)), 1);
    assert_eq!(t(118, 0).minutes_since(&t(59, 1_000_000_000)), 0);
}

#[test]
fn pending_row_reads_back() {
    let z = zone("pending", Some(vec!["old1.net", "old \"2\".net"]), Some("Reg, Inc."));
    match zone_row(&z, "2024-01-01T10:00:30Z") {
        ZoneRow::Pending { server_name, new_dns, old_dns, registra, last_check } => {
            let rows: Vec<PendingRow> = vec![(server_name, new_dns, old_dns.unwrap(), registra, last_check)];
            let p = query_from_tbl_cloudflare_pending(&rows, "a.com").unwrap().unwrap();
            assert_eq!(p.get_server_name(), "a.com");
            assert_eq!(*p.get_new_dns(), vec![String::from("ns1.cf.com"), String::from("ns2.cf.com")]);
            assert_eq!(*p.get_old_dns(), Some(vec![String::from("old1.net"), String::from("old \"2\".net")]));
            assert_eq!(p.get_registra().as_deref(), Some("Reg"));
            assert_eq!(p.get_last_check().secs(), 10 * 3600 + 30);
            assert_eq!(p.get_last_check().nanos(), 0);
        },
        _ => panic!("a pending zone"),
    }
}

#[test]
fn rechecked_row_reads_back() {
    let z = zone("pending", Some(vec!["old1.net"]), Some("Reg, Inc."));
    match recheck_step(&response(true, Some(ObjResult::ZonesData(vec![z]))), "2024-01-01T00:16:00Z") {
        RecheckStep::UpdatePending(n, o, g, t) => {
            let rows: Vec<PendingRow> = vec![(String::from("a.com"), n, o.unwrap(), g, t)];
            let p = query_from_tbl_cloudflare_pending(&rows, "a.com").unwrap().unwrap();
            assert_eq!(*p.get_new_dns(), vec![String::from("ns1.cf.com"), String::from("ns2.cf.com")]);
            assert_eq!(*p.get_old_dns(), Some(vec![String::from("old1.net")]));
            assert_eq!(p.get_registra().as_deref(), Some("Reg, Inc."));
            assert_eq!(p.get_last_check().secs(), 16 * 60);
        },
        _ => panic!("a zone still pending is updated"),
    }
}

#[test]
fn leap_second_time_of_day() {
    let t = rfc3339_time_of_day("2016-12-31T23:59:60Z").unwrap();
    assert_eq!(t.secs(), 86399);
    assert_eq!(t.nanos(), 1_000_000_000);
    let u = rfc3339_time_of_day("2016-12-31T23:59:60.5+01:00").unwrap();
    assert_eq!(u.secs(), 86399);
    assert_eq!(u.nanos(), 1_500_000_000);
}
