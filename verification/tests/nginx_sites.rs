use hosting_helper::command::CommandOutput;
use hosting_helper::nginx::features::NginxFeatures;
use hosting_helper::nginx::obj::NginxObj;
use hosting_helper::nginx::ops::{
    certbot_reply, certbot_step, existence_check, ip_check, removal_outcome, site_config_path, CertbotStep,
    RemovalOutcome,
};
use hosting_helper::nginx::parse::{
    extract_nginx_config, extract_nginx_filehost_and_spa, extract_nginx_proxy, extract_nginx_redirect,
    proxy_config_readable,
};
use hosting_helper::nginx::target_site::TargetSite;
use hosting_helper::nginx::templates::{gen_proxy_templ, gen_redirect_templ, gen_service_template, gen_templ, gen_timer_template, SiteDirs};

fn dirs() -> SiteDirs {
    SiteDirs {
        redirect: String::from("/etc/hh/redirect"),
        proxy: String::from("/etc/hh/proxy"),
        spa: String::from("/etc/hh/spa"),
        file: String::from("/etc/hh/file"),
    }
}

fn single(name: &str, target: &str, feature: NginxFeatures) -> NginxObj {
    NginxObj::new_unchecked(String::from(name), TargetSite::Single(String::from(target)), feature)
}

fn multiple(name: &str, targets: &[&str], feature: NginxFeatures) -> NginxObj {
    NginxObj::new_unchecked(
        String::from(name),
        TargetSite::Multiple(targets.iter().map(|t| t.to_string()).collect()),
        feature,
    )
}

#[test]
fn feature_text_and_parsing() {
    assert_eq!(NginxFeatures::Proxy.to_string(), "Proxy");
    assert_eq!(NginxFeatures::NoFeature.to_string(), "None");
    assert_eq!(NginxFeatures::from_str("spa"), Ok(NginxFeatures::SPA));
    assert_eq!(NginxFeatures::from_str("FileHost"), Ok(NginxFeatures::FileHost));
    assert_eq!(NginxFeatures::from_str("None"), Err(()));
    assert_eq!(NginxFeatures::from_str("PROXY"), Err(()));
}

#[test]
fn target_site_text() {
    assert_eq!(TargetSite::Single(String::from("http://a.com")).to_string(), "[\"http://a.com\"]");
    assert_eq!(TargetSite::NoTarget.to_string(), "[]");
    let m = TargetSite::Multiple(vec![String::from("http://a:1"), String::from("http://b:2")]);
    assert_eq!(m.to_string(), "[\"http://a:1\", \"http://b:2\"]");
    match TargetSite::from_list(vec![String::from("x")]) {
        TargetSite::Single(s) => assert_eq!(s, "x"),
        _ => panic!("one target is a single site"),
    }
    match TargetSite::from_list(vec![]) {
        TargetSite::Multiple(v) => assert!(v.is_empty()),
        _ => panic!("no target is an empty list"),
    }
    assert_eq!(TargetSite::Single(String::from("y")).get_single_site(), "y");
}

#[test]
fn verify_accepts_valid_redirect() {
    let o = single("a.example.com", "https://b.example.com", NginxFeatures::Redirect);
    assert_eq!(o.verify(false), Some(Ok(())));
}

#[test]
fn verify_rejects_taken_name() {
    let o = single("a.example.com", "https://b.example.com", NginxFeatures::Redirect);
    assert_eq!(o.verify(true), Some(Err((400, String::from("Server Name Arg Error: Already Existed")))));
}

#[test]
fn verify_rejects_bad_url() {
    let o = single("a.example.com", "not a url", NginxFeatures::Proxy);
    assert_eq!(
        o.verify(false),
        Some(Err((400, String::from("Target Site Arg Error: relative URL without a base"))))
    );
}

#[test]
fn verify_rejects_redirect_to_many() {
    let o = multiple("a.example.com", &["https://b.com", "https://c.com"], NginxFeatures::Redirect);
    assert_eq!(o.verify(false), Some(Err((400, String::from("Target Site Arg Error: Too many Args")))));
}

#[test]
fn verify_proxy_schemes() {
    let same = multiple("a.com", &["http://10.0.0.1:80", "http://10.0.0.2:80"], NginxFeatures::Proxy);
    assert_eq!(same.verify(false), Some(Ok(())));
    let mixed = multiple("a.com", &["http://10.0.0.1:80", "https://10.0.0.2:80"], NginxFeatures::Proxy);
    assert_eq!(
        mixed.verify(false),
        Some(Err((400, String::from("Server Name Arg Error: Mismatch Protocol in Target Site"))))
    );
    let broken = multiple("a.com", &["nope", "http://10.0.0.2:80"], NginxFeatures::Proxy);
    assert_eq!(broken.verify(false), None);
}

#[test]
fn verify_paths_of_static_sites() {
    assert_eq!(single("a.com", "/srv/site", NginxFeatures::SPA).verify(false), Some(Ok(())));
    assert_eq!(
        single("a.com", "srv/site", NginxFeatures::FileHost).verify(false),
        Some(Err((400, String::from("Target Site Arg Error: Path not Absolute"))))
    );
    assert_eq!(
        multiple("a.com", &["/a", "/b"], NginxFeatures::SPA).verify(false),
        Some(Err((400, String::from("Target Site Arg Error: Too many Args"))))
    );
    let none = NginxObj::new_unchecked(String::from("a.com"), TargetSite::NoTarget, NginxFeatures::SPA);
    assert_eq!(none.verify(false), None);
}

#[test]
fn new_builds_valid_site() {
    let o = NginxObj::new(
        String::from("a.com"),
        TargetSite::Single(String::from("https://b.com")),
        NginxFeatures::Redirect,
        false,
    );
    match o {
        Some(Ok(obj)) => {
            assert_eq!(obj.get_server_name(), "a.com");
            assert_eq!(*obj.get_feature(), NginxFeatures::Redirect);
        },
        _ => panic!("a valid redirect is built"),
    }
}

#[test]
fn protocol_of_first_target() {
    let o = multiple("a.com", &["https://x.com", "https://y.com"], NginxFeatures::Proxy);
    assert_eq!(o.get_target_site_protocol(), "https");
    assert_eq!(o.try_target_site_protocol(), Some(String::from("https")));
    let n = NginxObj::new_unchecked(String::from("a.com"), TargetSite::NoTarget, NginxFeatures::Proxy);
    assert_eq!(n.try_target_site_protocol(), None);
}

#[test]
fn redirect_template_text() {
    let t = gen_redirect_templ("https://b.com", "a.com");
    assert_eq!(
        t,
        "\nserver {\n    server_name a.com;\n    location / {\n        rewrite ^/(.*)$ https://b.com/$1 permanent;\n    }\n\n    listen [::]:80;\n    listen 80;\n\n}"
    );
}

#[test]
fn redirect_round_trip_concrete() {
    let t = gen_redirect_templ("https://b.example.com", "a.example.com");
    let o = extract_nginx_redirect(t.as_str());
    assert_eq!(o.get_server_name(), "a.example.com");
    assert_eq!(*o.get_feature(), NginxFeatures::Redirect);
    match o.get_target_site() {
        TargetSite::Single(s) => assert_eq!(s, "https://b.example.com"),
        _ => panic!("a redirect has one target"),
    }
}

#[test]
fn proxy_template_uses_domain_as_host() {
    let t = gen_proxy_templ("http://backend.local:3000", "a.com");
    assert!(t.contains("proxy_pass http://backend.local:3000;"));
    assert!(t.contains("proxy_set_header Host backend.local;"));
    assert!(t.contains("server_name a.com;"));
}

#[test]
fn proxy_config_with_upstreams() {
    let conf = "upstream a_com {\n    server 10.0.0.1:80;\n    server 10.0.0.2:80;\n}\nserver {\n    server_name a.com;\n    location / {\n        proxy_pass http://a_com;\n    }\n}\n";
    assert!(proxy_config_readable(conf));
    let o = extract_nginx_proxy(conf);
    assert_eq!(o.get_server_name(), "a.com");
    match o.get_target_site() {
        TargetSite::Multiple(v) => {
            assert_eq!(v, &vec![String::from("http://10.0.0.1:80"), String::from("http://10.0.0.2:80")])
        },
        _ => panic!("two upstreams"),
    }
    let one = "upstream a {\n server 10.0.0.1:80;\n}\nserver_name b.com;\nproxy_pass https://a;\n";
    match extract_nginx_config(one, NginxFeatures::Proxy).get_target_site() {
        TargetSite::Single(s) => assert_eq!(s, "https://10.0.0.1:80"),
        _ => panic!("one upstream"),
    }
    assert!(!proxy_config_readable("upstream a {\n   \n}\n"));
}

#[test]
fn static_site_config() {
    let conf = "server {\n    server_name s.com;\n    root /srv/s;\n}\n";
    let o = extract_nginx_filehost_and_spa(conf, NginxFeatures::SPA);
    assert_eq!(o.get_server_name(), "s.com");
    match o.get_target_site() {
        TargetSite::Single(s) => assert_eq!(s, "/srv/s"),
        _ => panic!("one root"),
    }
}

#[test]
fn config_paths() {
    assert_eq!(
        site_config_path(NginxFeatures::Proxy, &dirs(), "a.com"),
        Some(String::from("/etc/hh/proxy/a.com.conf"))
    );
    assert_eq!(
        site_config_path(NginxFeatures::FileHost, &dirs(), "a.com"),
        Some(String::from("/etc/hh/file/a.com.conf"))
    );
    assert_eq!(site_config_path(NginxFeatures::NoFeature, &dirs(), "a.com"), None);
    let o = single("a.com", "https://b.com", NginxFeatures::Redirect);
    let (text, path) = o.config_file(&dirs()).unwrap();
    assert_eq!(path, "/etc/hh/redirect/a.com.conf");
    assert_eq!(text, gen_redirect_templ("https://b.com", "a.com"));
    assert!(single("a.com", "/srv", NginxFeatures::SPA).config_file(&dirs()).is_none());
}

fn output(code: Option<i32>, stderr: &str) -> CommandOutput {
    CommandOutput { code, stdout: Vec::new(), stderr: stderr.as_bytes().to_vec() }
}

#[test]
fn certbot_steps() {
    assert!(matches!(certbot_step(&output(Some(0), "")), CertbotStep::Done));
    assert!(matches!(
        certbot_step(&output(Some(1), "Another instance of Certbot is already running.\n")),
        CertbotStep::Retry
    ));
    match certbot_step(&output(Some(1), "bad domain")) {
        CertbotStep::Failed((c, m)) => {
            assert_eq!(c, 500);
            assert_eq!(m, "bad domain");
        },
        _ => panic!("other errors fail"),
    }
    match certbot_step(&output(None, "")) {
        CertbotStep::Failed((c, m)) => {
            assert_eq!(c, 500);
            assert_eq!(m, "Terminated by a Signal");
        },
        _ => panic!("a signal fails"),
    }
}

#[test]
fn certbot_replies() {
    assert_eq!(certbot_reply(&Ok(output(Some(0), ""))), Ok(()));
    assert_eq!(certbot_reply(&Ok(output(Some(2), "no"))), Err((500, String::from("no"))));
    assert_eq!(certbot_reply(&Err(String::from("not found"))), Err((500, String::from("not found"))));
    assert_eq!(existence_check(true), Ok(()));
    assert_eq!(existence_check(false), Err((400, String::from("Item doesn't exist"))));
}

#[test]
fn removal_outcomes() {
    assert!(matches!(removal_outcome(None), RemovalOutcome::Removed));
    assert!(matches!(
        removal_outcome(Some(String::from("No such file or directory (os error 2)"))),
        RemovalOutcome::Remigrate
    ));
    match removal_outcome(Some(String::from("Permission denied (os error 13)"))) {
        RemovalOutcome::Failed((c, m)) => {
            assert_eq!(c, 500);
            assert_eq!(m, "Permission denied (os error 13)");
        },
        _ => panic!("other errors fail"),
    }
}

#[test]
fn ip_checks() {
    assert_eq!(ip_check("1.2.3.4", "1.2.3.4", "a.com"), Ok(()));
    assert_eq!(
        ip_check("1.2.3.4", "5.6.7.8", "a.com"),
        Err((
            500,
            String::from("The Public IP 5.6.7.8 of the Domain a.com does not match Server Public IP 1.2.3.4")
        ))
    );
}

#[test]
fn main_configuration() {
    let conf = gen_templ("hh", "/etc/hh/cert", "/etc/hh/stream", &dirs());
    assert!(conf.starts_with("user root;\n"));
    assert!(conf.contains("pid /run/hh.pid;"));
    assert!(conf.contains("include /etc/hh/proxy/*.conf;"));
    assert!(conf.contains("ssl_certificate /etc/hh/cert/hh.crt;"));
    assert!(conf.ends_with("include /etc/hh/stream/*.conf;\n}"));
    assert!(gen_timer_template().contains("OnCalendar=*-*-* 00:00:00"));
    assert!(gen_service_template().ends_with("ExecStart=certbot --nginx renew"));
}

#[test]
fn redirect_round_trip_with_dollar_target() {
    let t = gen_redirect_templ("https://b.example.com/$path", "a.example.com");
    let o = extract_nginx_redirect(t.as_str());
    assert_eq!(o.get_server_name(), "a.example.com");
    assert_eq!(*o.get_feature(), NginxFeatures::Redirect);
    match o.get_target_site() {
        TargetSite::Single(s) => assert_eq!(s, "https://b.example.com/$path"),
        _ => panic!("a redirect has one target"),
    }
}
