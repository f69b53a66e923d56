//! The text of the configuration files that the library writes.
use crate::bindings::url_parse_outcome;
use vstd::prelude::*;

verus! {

/// The directories that hold each kind of site configuration.
pub struct SiteDirs {
    pub redirect: String,
    pub proxy: String,
    pub spa: String,
    pub file: String,
}

/// The mathematical value of `SiteDirs`.
pub struct SiteDirsView {
    pub redirect: Seq<char>,
    pub proxy: Seq<char>,
    pub spa: Seq<char>,
    pub file: Seq<char>,
}

impl View for SiteDirs {
    type V = SiteDirsView;

    open spec fn view(&self) -> SiteDirsView {
        SiteDirsView {
            redirect: self.redirect@,
            proxy: self.proxy@,
            spa: self.spa@,
            file: self.file@,
        }
    }
}

pub const REDIRECT_0: &'static str = "\nserver {\n    server_name ";
pub const REDIRECT_1: &'static str = ";\n    location / {\n        rewrite ^/(.*)$ ";
pub const REDIRECT_2: &'static str = "/$1 permanent;\n    }\n\n    listen [::]:80;\n    listen 80;\n\n}";

/// The configuration of a site that redirects every path to `target_site`.
pub open spec fn redirect_template(target_site: Seq<char>, server_name: Seq<char>) -> Seq<char> {
    REDIRECT_0@ + server_name + REDIRECT_1@ + target_site + REDIRECT_2@
}

/// The configuration of a redirect site.
pub fn gen_redirect_templ(target_site: &str, server_name: &str) -> (r: String)
    ensures
        r@ == redirect_template(target_site@, server_name@),
{
    let mut s = String::from_str(REDIRECT_0);
    s.append(server_name);
    s.append(REDIRECT_1);
    s.append(target_site);
    s.append(REDIRECT_2);
    s
}

pub const PROXY_0: &'static str = "\nserver {\n    server_name ";
pub const PROXY_1: &'static str = ";\n    location / {\n        proxy_pass ";
pub const PROXY_2: &'static str = ";\n        proxy_http_version 1.1;\n        proxy_set_header Upgrade $http_upgrade;\n        proxy_set_header Connection \"upgrade\";\n        proxy_set_header Host ";
pub const PROXY_3: &'static str = ";\n        proxy_set_header X-Real-IP $remote_addr;\n        proxy_set_header X-Forwarded-Host $host;\n        proxy_set_header X-Forwarded-Port $server_port;\n        proxy_set_header X-Forwarded-For $proxy_add_x_forwarded_for;\n    }\n\n    listen [::]:80;\n    listen 80;\n\n}";

/// The configuration of a site that proxies to `proxy_pass`, whose host
/// header is `proxy_host`.
pub open spec fn proxy_template(proxy_pass: Seq<char>, server_name: Seq<char>, proxy_host: Seq<char>) -> Seq<char> {
    PROXY_0@ + server_name + PROXY_1@ + proxy_pass + PROXY_2@ + proxy_host + PROXY_3@
}

/// The domain of a URL whose parse succeeded with a domain.
pub open spec fn url_domain(u: Seq<char>) -> Seq<char> {
    match url_parse_outcome(u) {
        Ok((_, Some(d))) => d,
        _ => Seq::empty(),
    }
}

/// A URL parses and has a domain.
pub open spec fn url_has_domain(u: Seq<char>) -> bool {
    url_parse_outcome(u) matches Ok((_, Some(_)))
}

/// The configuration of a proxy site; the host header is the domain of
/// `proxy_pass`.
pub fn gen_proxy_templ(proxy_pass: &str, server_name: &str) -> (r: String)
    requires
        url_has_domain(proxy_pass@),
    ensures
        r@ == proxy_template(proxy_pass@, server_name@, url_domain(proxy_pass@)),
{
    let host = match crate::bindings::parse_url(proxy_pass) {
        Ok(p) => match p.domain {
            Some(d) => d,
            None => unreached(),
        },
        Err(_) => unreached(),
    };
    let mut s = String::from_str(PROXY_0);
    s.append(server_name);
    s.append(PROXY_1);
    s.append(proxy_pass);
    s.append(PROXY_2);
    s.append(host.as_str());
    s.append(PROXY_3);
    s
}

pub const CONF_0: &'static str = "user root;\nworker_cpu_affinity auto;\nworker_processes auto;\npid /run/";
pub const CONF_1: &'static str = ".pid;\ninclude /etc/";
pub const CONF_2: &'static str = "/modules-enabled/*.conf;\n\nevents {\n    worker_connections 1024;\n    multi_accept on;\n}\n\nhttp {\n\n    ##\n    # Basic Settings\n    ##\n\n    charset utf-8;\n    sendfile on;\n    tcp_nopush on;\n    tcp_nodelay on;\n    types_hash_max_size 4096;\n    client_max_body_size 1024M;\n    server_tokens off;\n\n    # server_names_hash_bucket_size 64;\n    # server_name_in_redirect off;\n\n    include /etc/";
pub const CONF_3: &'static str = "/mime.types;\n    default_type application/octet-stream;\n\n    ##\n    # SSL Settings\n    ##\n\n    ssl_protocols TLSv1 TLSv1.1 TLSv1.2 TLSv1.3; # Dropping SSLv3, ref: POODLE\n    ssl_prefer_server_ciphers on;\n\n    ##\n    # Logging Settings\n    ##\n\n    access_log /var/log/";
pub const CONF_4: &'static str = "/access.log;\n    error_log /var/log/";
pub const CONF_5: &'static str = "/error.log;\n\n    ##\n    # Gzip Settings\n    ##\n\n    gzip on;\n\n    # gzip_vary on;\n    # gzip_proxied any;\n    # gzip_comp_level 6;\n    # gzip_buffers 16 8k;\n    # gzip_http_version 1.1;\n    # gzip_types text/plain text/css application/json application/javascript text/xml application/xml application/xml+rss text/javascript;\n\n    ##\n    # Virtual Host Configs\n    ##\n    include /etc/";
pub const CONF_6: &'static str = "/conf.d/*.conf;\n    include ";
pub const CONF_7: &'static str = "/*.conf;\n    include ";
pub const CONF_8: &'static str = "/*.conf;\n    include ";
pub const CONF_9: &'static str = "/*.conf;\n    include ";
pub const CONF_10: &'static str = "/*.conf;\n    server {\n        listen      80 default_server;\n        server_name _;\n        return      444;\n    }\n    server {\n        listen 443 ssl;\n        server_name _;\n        ssl_certificate ";
pub const CONF_11: &'static str = "/";
pub const CONF_12: &'static str = ".crt;\n        ssl_certificate_key ";
pub const CONF_13: &'static str = "/";
pub const CONF_14: &'static str = ".key;\n        return       444;\n    }\n\n}\n\nstream {\n    log_format basic '$remote_addr [$time_local] '\n                     '$protocol $status $bytes_sent $bytes_received '\n                     '$session_time';\n\n    access_log  /var/log/";
pub const CONF_15: &'static str = "/access.log basic;\n    error_log  /var/log/";
pub const CONF_16: &'static str = "/error.log debug;\n    \n    include ";
pub const CONF_17: &'static str = "/*.conf;\n}";

/// The main nginx configuration: it includes the module, configuration and
/// site directories, and declines requests for unknown names on ports 80
/// and 443 (the latter with the default certificate).
pub open spec fn nginx_conf_template(
    base: Seq<char>,
    cert: Seq<char>,
    stream: Seq<char>,
    dirs: SiteDirsView,
) -> Seq<char> {
    CONF_0@ + base + CONF_1@ + base + CONF_2@ + base + CONF_3@ + base + CONF_4@ + base + CONF_5@ + base + CONF_6@ + dirs.proxy + CONF_7@ + dirs.redirect + CONF_8@ + dirs.file + CONF_9@ + dirs.spa + CONF_10@ + cert + CONF_11@ + base + CONF_12@ + cert + CONF_13@ + base + CONF_14@ + base + CONF_15@ + base + CONF_16@ + stream + CONF_17@
}

/// The main nginx configuration for the program `program_base_name`.
pub fn gen_templ(program_base_name: &str, cert_path: &str, stream_sites_path: &str, dirs: &SiteDirs) -> (r: String)
    ensures
        r@ == nginx_conf_template(program_base_name@, cert_path@, stream_sites_path@, dirs@),
{
    let mut s = String::from_str(CONF_0);
    s.append(program_base_name);
    s.append(CONF_1);
    s.append(program_base_name);
    s.append(CONF_2);
    s.append(program_base_name);
    s.append(CONF_3);
    s.append(program_base_name);
    s.append(CONF_4);
    s.append(program_base_name);
    s.append(CONF_5);
    s.append(program_base_name);
    s.append(CONF_6);
    s.append(dirs.proxy.as_str());
    s.append(CONF_7);
    s.append(dirs.redirect.as_str());
    s.append(CONF_8);
    s.append(dirs.file.as_str());
    s.append(CONF_9);
    s.append(dirs.spa.as_str());
    s.append(CONF_10);
    s.append(cert_path);
    s.append(CONF_11);
    s.append(program_base_name);
    s.append(CONF_12);
    s.append(cert_path);
    s.append(CONF_13);
    s.append(program_base_name);
    s.append(CONF_14);
    s.append(program_base_name);
    s.append(CONF_15);
    s.append(program_base_name);
    s.append(CONF_16);
    s.append(stream_sites_path);
    s.append(CONF_17);
    s
}

pub const TIMER: &'static str = "[Unit]\nDescription=Timer for maintenance unifi\n    \n[Timer]\nOnCalendar=*-*-* 00:00:00\nUnit=%i.service\n    \n[Install]\nWantedBy=timers.target";

pub const SERVICE: &'static str = "[Unit]\nDescription=Sync Mirror Archlinux Repo for upgrade speedup\n        \n[Service]\nType=simple\nExecStart=certbot --nginx renew";

/// The systemd timer that runs the certificate renewal daily.
pub fn gen_timer_template() -> (r: String)
    ensures
        r@ == TIMER@,
{
    String::from_str(TIMER)
}

/// The systemd service that renews the certificates.
pub fn gen_service_template() -> (r: String)
    ensures
        r@ == SERVICE@,
{
    String::from_str(SERVICE)
}

} // verus!
