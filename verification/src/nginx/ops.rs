//! Decisions taken around the system work of installing and removing sites.
use super::features::NginxFeatures;
use super::obj::{
    first_target, has_first_target, scheme_of, NginxObj, NginxObjView, Reply, ReplySpec,
};
use super::target_site::{TargetSite, TargetSpec};
use super::templates::{
    gen_proxy_templ, gen_redirect_templ, proxy_template, redirect_template, url_domain,
    url_has_domain, SiteDirs, SiteDirsView,
};
use crate::bindings::{parse_url, url_parse_outcome, utf8_lossy, utf8_lossy_text};
use crate::command::CommandOutput;
use crate::text::{chars_of, starts_with, starts_with_chars, contains, contains_chars};
use vstd::prelude::*;

verus! {

/// The configuration file of a site in a directory: `dir/server_name.conf`.
pub open spec fn site_conf_path(dir: Seq<char>, server_name: Seq<char>) -> Seq<char> {
    dir + "/"@ + server_name + ".conf"@
}

/// Where the configuration of a site of the given feature lives; a site
/// without feature has no file.
pub open spec fn config_path_of(feature: NginxFeatures, dirs: SiteDirsView, server_name: Seq<char>) -> Option<Seq<char>> {
    match feature {
        NginxFeatures::Proxy => Some(site_conf_path(dirs.proxy, server_name)),
        NginxFeatures::Redirect => Some(site_conf_path(dirs.redirect, server_name)),
        NginxFeatures::SPA => Some(site_conf_path(dirs.spa, server_name)),
        NginxFeatures::FileHost => Some(site_conf_path(dirs.file, server_name)),
        NginxFeatures::NoFeature => None,
    }
}

/// The path of a site's configuration file.
pub fn site_config_path(feature: NginxFeatures, dirs: &SiteDirs, server_name: &str) -> (r: Option<String>)
    ensures
        r.deep_view() == config_path_of(feature, dirs@, server_name@),
{
    let dir: &String = match feature {
        NginxFeatures::Proxy => &dirs.proxy,
        NginxFeatures::Redirect => &dirs.redirect,
        NginxFeatures::SPA => &dirs.spa,
        NginxFeatures::FileHost => &dirs.file,
        NginxFeatures::NoFeature => {
            return None;
        },
    };
    let mut s = String::from_str(dir.as_str());
    s.append("/");
    s.append(server_name);
    s.append(".conf");
    Some(s)
}

/// The configuration text of a site, where the library has a template for
/// it: a redirect to its single target, or a proxy to a single target URL
/// that has a domain. There is no template for single-page apps, for file
/// hosting, or for proxies to several upstreams: such sites render as
/// nothing, and the service stops (panics) when asked to write one.
pub open spec fn rendered_config(o: NginxObjView) -> Option<Seq<char>> {
    match o.target_site {
        TargetSpec::Single(t) => match o.feature {
            NginxFeatures::Redirect => Some(redirect_template(t, o.server_name)),
            NginxFeatures::Proxy => if url_has_domain(t) {
                Some(proxy_template(t, o.server_name, url_domain(t)))
            } else {
                None
            },
            _ => None,
        },
        _ => None,
    }
}

impl NginxObj {
    /// The configuration text of the site (see `rendered_config`).
    pub fn render_config(&self) -> (r: Option<String>)
        ensures
            r.deep_view() == rendered_config(self@),
    {
        let t = match self.get_target_site() {
            TargetSite::Single(t) => t,
            _ => {
                return None;
            },
        };
        match self.get_feature() {
            NginxFeatures::Redirect => Some(gen_redirect_templ(t.as_str(), self.get_server_name())),
            NginxFeatures::Proxy => {
                let has_domain = match parse_url(t.as_str()) {
                    Ok(p) => p.domain.is_some(),
                    Err(_) => false,
                };
                if has_domain {
                    Some(gen_proxy_templ(t.as_str(), self.get_server_name()))
                } else {
                    None
                }
            },
            _ => None,
        }
    }

    /// The text and the destination path of the site's configuration file.
    pub fn config_file(&self, dirs: &SiteDirs) -> (r: Option<(String, String)>)
        ensures
            match r {
                Some((text, path)) => rendered_config(self@) == Some(text@) && config_path_of(
                    self@.feature,
                    dirs@,
                    self@.server_name,
                ) == Some(path@),
                None => rendered_config(self@) is None || config_path_of(
                    self@.feature,
                    dirs@,
                    self@.server_name,
                ) is None,
            },
    {
        let text = match self.render_config() {
            Some(t) => t,
            None => {
                return None;
            },
        };
        match site_config_path(*self.get_feature(), dirs, self.get_server_name()) {
            Some(path) => Some((text, path)),
            None => None,
        }
    }

    /// The scheme of the first target's URL, where there is a first target
    /// and it parses.
    pub fn try_target_site_protocol(&self) -> (r: Option<String>)
        ensures
            match r {
                Some(s) => has_first_target(self@.target_site) && Some(s@) == scheme_of(
                    url_parse_outcome(first_target(self@.target_site)),
                ),
                None => !has_first_target(self@.target_site) || url_parse_outcome(
                    first_target(self@.target_site),
                ) is Err,
            },
    {
        let first: &String = match self.get_target_site() {
            TargetSite::Single(s) => s,
            TargetSite::Multiple(m) => {
                if m.len() == 0 {
                    return None;
                }
                proof {
                    assert(self@.target_site == TargetSpec::Multiple(m.deep_view()));
                }
                &m[0]
            },
            TargetSite::NoTarget => {
                return None;
            },
        };
        match parse_url(first.as_str()) {
            Ok(_) => Some(self.get_target_site_protocol()),
            Err(_) => None,
        }
    }
}

/// What certbot reports when another instance holds its lock.
pub const CERTBOT_BUSY: &'static str = "Another instance of Certbot is already running.";

/// The next step after a certbot run.
pub enum CertbotStep {
    /// Certbot succeeded.
    Done,
    /// Another certbot instance was running: wait briefly and run again.
    Retry,
    /// Certbot failed with this reply.
    Failed(Reply),
}

/// The value of a `CertbotStep`.
pub enum CertbotStepSpec {
    Done,
    Retry,
    Failed(ReplySpec),
}

impl View for CertbotStep {
    type V = CertbotStepSpec;

    open spec fn view(&self) -> CertbotStepSpec {
        match self {
            CertbotStep::Done => CertbotStepSpec::Done,
            CertbotStep::Retry => CertbotStepSpec::Retry,
            CertbotStep::Failed((c, m)) => CertbotStepSpec::Failed((*c, m@)),
        }
    }
}

/// Certbot succeeded on exit code 0; a failure whose error text begins
/// with the lock message is retried; any other exit code fails with the
/// error text, and an end by signal fails as such.
pub open spec fn certbot_step_of(code: Option<i32>, stderr: Seq<u8>) -> CertbotStepSpec {
    match code {
        Some(c) => if c == 0 {
            CertbotStepSpec::Done
        } else if starts_with(utf8_lossy_text(stderr), CERTBOT_BUSY@) {
            CertbotStepSpec::Retry
        } else {
            CertbotStepSpec::Failed((500u16, utf8_lossy_text(stderr)))
        },
        None => CertbotStepSpec::Failed((500u16, "Terminated by a Signal"@)),
    }
}

/// Decides the next step after a certbot run.
pub fn certbot_step(out: &CommandOutput) -> (r: CertbotStep)
    ensures
        r@ == certbot_step_of(out.code, out.stderr@),
{
    match out.code {
        Some(c) => {
            if c == 0 {
                CertbotStep::Done
            } else {
                let text = utf8_lossy(out.stderr.as_slice());
                let t = chars_of(text.as_str());
                let busy = chars_of(CERTBOT_BUSY);
                if starts_with_chars(t.as_slice(), busy.as_slice()) {
                    CertbotStep::Retry
                } else {
                    CertbotStep::Failed((500, text))
                }
            }
        },
        None => CertbotStep::Failed((500, String::from_str("Terminated by a Signal"))),
    }
}

/// The reply for a site that must already exist.
pub open spec fn existence_reply(exists: bool) -> Result<(), ReplySpec> {
    if exists {
        Ok(())
    } else {
        Err((400u16, "Item doesn't exist"@))
    }
}

/// Fails with 400 unless the site exists.
pub fn existence_check(exists: bool) -> (r: Result<(), Reply>)
    ensures
        super::obj::reply_result(r) == existence_reply(exists),
{
    if exists {
        Ok(())
    } else {
        Err((400, String::from_str("Item doesn't exist")))
    }
}

/// The reply to a certbot run that is not retried: success on exit code 0,
/// the error text on another code, a signal end as such, and the text of
/// the error where the program could not be started.
pub open spec fn certbot_reply_of(run: Result<(Option<i32>, Seq<u8>), Seq<char>>) -> Result<(), ReplySpec> {
    match run {
        Ok((Some(c), err)) => if c == 0 {
            Ok(())
        } else {
            Err((500u16, utf8_lossy_text(err)))
        },
        Ok((None, _)) => Err((500u16, "Terminated by a Signal"@)),
        Err(e) => Err((500u16, e)),
    }
}

/// The value of a program run as its exit code and error bytes, or the
/// text of the error that kept it from starting.
pub open spec fn run_of(run: &Result<CommandOutput, String>) -> Result<(Option<i32>, Seq<u8>), Seq<char>> {
    match run {
        Ok(o) => Ok((o.code, o.stderr@)),
        Err(e) => Err(e@),
    }
}

/// The reply to a certbot run for reinstalling a certificate.
pub fn certbot_reply(run: &Result<CommandOutput, String>) -> (r: Result<(), Reply>)
    ensures
        super::obj::reply_result(r) == certbot_reply_of(run_of(run)),
{
    match run {
        Ok(out) => match out.code {
            Some(c) => if c == 0 {
                Ok(())
            } else {
                Err((500, utf8_lossy(out.stderr.as_slice())))
            },
            None => Err((500, String::from_str("Terminated by a Signal"))),
        },
        Err(e) => Err((500, String::from_str(e.as_str()))),
    }
}

/// What removing a site's configuration file leads to.
pub enum RemovalOutcome {
    /// The file is gone.
    Removed,
    /// The file did not exist: the site table is rebuilt from the directories.
    Remigrate,
    /// Removal failed with this reply.
    Failed(Reply),
}

/// The error text of a missing file.
pub const NO_SUCH_FILE: &'static str = "No such file or directory (os error 2)";

/// Decides on the result of removing a site's configuration file, given
/// the text of the error if there was one.
pub fn removal_outcome(error: Option<String>) -> (r: RemovalOutcome)
    ensures
        match error {
            None => r is Removed,
            Some(e) => if contains(e@, NO_SUCH_FILE@) {
                r is Remigrate
            } else {
                r matches RemovalOutcome::Failed((c, m)) && c == 500 && m@ == e@
            },
        },
{
    match error {
        None => RemovalOutcome::Removed,
        Some(e) => {
            let t = chars_of(e.as_str());
            let p = chars_of(NO_SUCH_FILE);
            if contains_chars(t.as_slice(), p.as_slice()) {
                RemovalOutcome::Remigrate
            } else {
                RemovalOutcome::Failed((500, e))
            }
        },
    }
}

/// The reply to an IP check: the domain must resolve to this server's
/// public IP.
pub open spec fn ip_check_reply(our_ip: Seq<char>, domain_ip: Seq<char>, server_name: Seq<char>) -> Result<(), ReplySpec> {
    if our_ip != domain_ip {
        Err((500u16, "The Public IP "@ + domain_ip + " of the Domain "@ + server_name
            + " does not match Server Public IP "@ + our_ip))
    } else {
        Ok(())
    }
}

/// Compares the server's public IP with the one the domain resolves to.
pub fn ip_check(our_ip: &str, domain_ip: &str, server_name: &str) -> (r: Result<(), Reply>)
    ensures
        super::obj::reply_result(r) == ip_check_reply(our_ip@, domain_ip@, server_name@),
{
    if !crate::text::str_eq(our_ip, domain_ip) {
        let mut m = String::from_str("The Public IP ");
        m.append(domain_ip);
        m.append(" of the Domain ");
        m.append(server_name);
        m.append(" does not match Server Public IP ");
        m.append(our_ip);
        Err((500, m))
    } else {
        Ok(())
    }
}

} // verus!
