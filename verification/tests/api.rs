use hosting_helper::api::access::{check_credentials, forward_url, origin_allowed};
use hosting_helper::api::list::get_nginx_list;
use hosting_helper::api::query::{def_bool, AddNginxQueryString, ListNginxQueryString, UpdateNginxQueryString};
use hosting_helper::api::response::{
    dns_record_reply, ActixCustomError, ActixCustomResponse, BodyMessage, CustomDnsStruct,
};
use hosting_helper::nginx::features::NginxFeatures;
use hosting_helper::nginx::obj::NginxObj;
use hosting_helper::nginx::table::{
    extract_single_nginxobj, query_existence_from_tbl_nginxconf, select_all_by_feature_from_tbl_nginxconf,
    select_all_from_tbl_nginxconf, select_one_from_tbl_nginxconf, NginxRow,
};
use hosting_helper::nginx::target_site::TargetSite;

fn row(name: &str, target: &str, feature: &str) -> NginxRow {
    (String::from(name), String::from(target), String::from(feature))
}

fn table() -> Vec<NginxRow> {
    vec![
        row("a.com", "[\"https://b.com\"]", "Redirect"),
        row("p.com", "[\"http://10.0.0.1:80\", \"http://10.0.0.2:80\"]", "Proxy"),
        row("s.com", "[\"/srv/s\"]", "SPA"),
        row("a.com", "[\"/srv/a\"]", "FileHost"),
    ]
}

fn text_of(r: &ActixCustomResponse) -> (u16, String) {
    match &r.message {
        BodyMessage::Text(t) => (r.code, t.clone()),
        _ => panic!("a text reply"),
    }
}

#[test]
fn responses_hold_their_parts() {
    let t = ActixCustomResponse::new_text(404, String::from("gone"));
    assert_eq!(text_of(&t), (404, String::from("gone")));
    let v = ActixCustomResponse::new_vec_obj(200, vec![NginxObj::default()]);
    match v.message {
        BodyMessage::HostingObj(list) => assert_eq!(list.len(), 1),
        _ => panic!("a list reply"),
    }
    let o = ActixCustomResponse::new_nginx_obj(201, NginxObj::default());
    assert_eq!(o.code, 201);
    assert!(matches!(o.message, BodyMessage::NginxObj(_)));
    let e = ActixCustomError::new(418, String::from("teapot"));
    assert_eq!(e.error_code, 418);
    assert_eq!(e.message, "teapot");
}

#[test]
fn dns_reply_is_an_a_record() {
    let r = dns_record_reply(String::from("a.com"), String::from("1.2.3.4"));
    assert_eq!(r.code, 200);
    match r.message {
        BodyMessage::DnsObj(d) => {
            let (name, kind, content, proxy, ttl) = d.into_parts();
            assert_eq!(name, "a.com");
            assert_eq!(kind, "A");
            assert_eq!(content, "1.2.3.4");
            assert!(!proxy);
            assert_eq!(ttl, "Auto");
        },
        _ => panic!("a DNS reply"),
    }
    let d = ActixCustomResponse::new_dns_obj(
        200,
        CustomDnsStruct::new(String::from("n"), String::from("CNAME"), String::from("c"), true, String::from("1")),
    );
    assert!(matches!(d.message, BodyMessage::DnsObj(_)));
}

#[test]
fn query_defaults_are_true() {
    assert!(def_bool::<true>());
    assert!(!def_bool::<false>());
    let q = AddNginxQueryString::default();
    assert!(*q.get_cloudflare_bool() && *q.get_ssl_bool() && *q.get_enom_bool() && *q.get_ipcheck_bool());
    let q = AddNginxQueryString::new(false, true, false, true);
    assert!(!*q.get_cloudflare_bool());
    assert!(*q.get_ssl_bool());
    assert!(!*q.get_enom_bool());
    assert!(*q.get_ipcheck_bool());
    assert!(*UpdateNginxQueryString::default().get_ssl());
    assert!(!*UpdateNginxQueryString::new(false).get_ssl());
    let l = ListNginxQueryString::new(Some(NginxFeatures::SPA), None);
    assert_eq!(*l.get_feature(), Some(NginxFeatures::SPA));
    assert_eq!(*l.get_server_name(), None);
}

#[test]
fn credentials() {
    assert!(check_credentials(Some("u"), Some("p"), "u", "p").is_ok());
    let e = check_credentials(None, Some("p"), "u", "p").unwrap_err();
    assert_eq!(text_of(&e), (400, String::from("Missing X-Auth-User")));
    let e = check_credentials(Some("u"), None, "u", "p").unwrap_err();
    assert_eq!(text_of(&e), (400, String::from("Missing X-Auth-Pass")));
    let e = check_credentials(Some("u"), Some("x"), "u", "p").unwrap_err();
    assert_eq!(text_of(&e), (401, String::from("Incorrect Authenticaton")));
}

#[test]
fn origins() {
    assert!(origin_allowed(false, "", "http://any.where"));
    assert!(origin_allowed(true, "http://a.com,http://b.com", "http://b.com"));
    assert!(!origin_allowed(true, "http://a.com,http://b.com", "http://c.com"));
    assert!(!origin_allowed(true, "http://a.com", "http://a.com/"));
}

#[test]
fn forwarded_addresses() {
    assert_eq!(forward_url("http://deploy:9000", "/hosting/add", ""), "http://deploy:9000/hosting/add");
    assert_eq!(
        forward_url("http://deploy:9000", "/hosting/get_log/a.com", "x=1&y=2"),
        "http://deploy:9000/hosting/get_log/a.com?x=1&y=2"
    );
}

#[test]
fn rows_are_read() {
    let o = extract_single_nginxobj(&row("p.com", "[\"http://a:1\",\"http://b:2\"]", "proxy")).unwrap();
    assert_eq!(o.get_server_name(), "p.com");
    assert_eq!(*o.get_feature(), NginxFeatures::Proxy);
    assert!(matches!(o.get_target_site(), TargetSite::Multiple(v) if v.len() == 2));
    assert!(extract_single_nginxobj(&row("x", "not json", "Proxy")).is_none());
    assert!(extract_single_nginxobj(&row("x", "[]", "None")).is_none());
}

#[test]
fn selections() {
    let all = select_all_from_tbl_nginxconf(&table()).unwrap();
    assert_eq!(all.len(), 4);
    let spa = select_all_by_feature_from_tbl_nginxconf(&table(), "SPA").unwrap();
    assert_eq!(spa.len(), 1);
    assert_eq!(spa[0].get_server_name(), "s.com");
    assert!(select_all_by_feature_from_tbl_nginxconf(&table(), "spa").unwrap().is_empty());
    let one = select_one_from_tbl_nginxconf(&table(), "a.com", None).unwrap().unwrap();
    assert_eq!(*one.get_feature(), NginxFeatures::Redirect);
    let file = select_one_from_tbl_nginxconf(&table(), "a.com", Some(&NginxFeatures::FileHost)).unwrap().unwrap();
    assert_eq!(*file.get_feature(), NginxFeatures::FileHost);
    assert!(select_one_from_tbl_nginxconf(&table(), "z.com", None).unwrap().is_none());
    assert!(query_existence_from_tbl_nginxconf(&table(), "s.com"));
    assert!(!query_existence_from_tbl_nginxconf(&table(), "t.com"));
    let mut broken = table();
    broken.push(row("b.com", "{", "Proxy"));
    assert!(select_all_from_tbl_nginxconf(&broken).is_none());
    assert!(select_all_by_feature_from_tbl_nginxconf(&broken, "SPA").is_some());
    assert!(select_one_from_tbl_nginxconf(&broken, "b.com", None).is_none());
}

#[test]
fn listing_replies() {
    let q = ListNginxQueryString::new(None, None);
    match get_nginx_list(&table(), &q) {
        Some(Ok(r)) => {
            assert_eq!(r.code, 200);
            assert!(matches!(r.message, BodyMessage::HostingObj(v) if v.len() == 4));
        },
        _ => panic!("every site is listed"),
    }
    let q = ListNginxQueryString::new(Some(NginxFeatures::Proxy), None);
    match get_nginx_list(&table(), &q) {
        Some(Ok(r)) => assert!(matches!(r.message, BodyMessage::HostingObj(v) if v.len() == 1)),
        _ => panic!("the proxies are listed"),
    }
    let q = ListNginxQueryString::new(None, Some(String::from("s.com")));
    match get_nginx_list(&table(), &q) {
        Some(Ok(r)) => assert!(matches!(r.message, BodyMessage::NginxObj(o) if o.get_server_name() == "s.com")),
        _ => panic!("one site is found"),
    }
    let q = ListNginxQueryString::new(Some(NginxFeatures::Proxy), Some(String::from("s.com")));
    match get_nginx_list(&table(), &q) {
        Some(Err(e)) => assert_eq!(text_of(&e), (500, String::from("Query returned no rows"))),
        _ => panic!("a missing site is an error"),
    }
}

#[test]
fn feature_selection_filters_all_sites() {
    let all = select_all_from_tbl_nginxconf(&table()).unwrap();
    for name in ["Redirect", "Proxy", "SPA", "FileHost", "None"] {
        let by_feature = select_all_by_feature_from_tbl_nginxconf(&table(), name).unwrap();
        let filtered: Vec<&NginxObj> = all.iter().filter(|o| o.get_feature().to_string() == name).collect();
        assert_eq!(by_feature.len(), filtered.len());
        for (a, b) in by_feature.iter().zip(filtered.iter()) {
            assert_eq!(a.get_server_name(), b.get_server_name());
            assert_eq!(a.get_feature(), b.get_feature());
        }
    }
}

#[test]
fn written_site_row_reads_back() {
    let target = TargetSite::Single(String::from("https://b.example.com/x y"));
    let feature = NginxFeatures::Redirect;
    let mut rows = table();
    rows.push(row("new.com", &target.to_string(), &feature.to_string()));
    let o = select_one_from_tbl_nginxconf(&rows, "new.com", None).unwrap().unwrap();
    assert_eq!(o.get_server_name(), "new.com");
    assert!(matches!(o.get_target_site(), TargetSite::Single(x) if x == "https://b.example.com/x y"));
    assert_eq!(*o.get_feature(), feature);
    let o2 = select_one_from_tbl_nginxconf(&rows, "new.com", Some(&feature)).unwrap().unwrap();
    assert!(matches!(o2.get_target_site(), TargetSite::Single(x) if x == "https://b.example.com/x y"));
    assert!(select_one_from_tbl_nginxconf(&rows, "new.com", Some(&NginxFeatures::Proxy)).unwrap().is_none());
    let many = TargetSite::Multiple(vec![String::from("http://10.0.0.1:80"), String::from("http://10.0.0.2:80")]);
    rows.push(row("many.com", &many.to_string(), &NginxFeatures::Proxy.to_string()));
    let m = select_one_from_tbl_nginxconf(&rows, "many.com", Some(&NginxFeatures::Proxy)).unwrap().unwrap();
    assert!(matches!(m.get_target_site(), TargetSite::Multiple(v) if v.len() == 2 && v[0] == "http://10.0.0.1:80" && v[1] == "http://10.0.0.2:80"));
}
