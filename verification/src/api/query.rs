//! The query strings of the site endpoints.
use crate::nginx::features::NginxFeatures;
use vstd::prelude::*;

verus! {

/// The value a boolean query parameter takes when it is absent.
pub fn def_bool<const V: bool>() -> (r: bool)
    ensures
        r == V,
{
    V
}

/// The query of a target update: whether to reinstall the certificate.
pub struct UpdateNginxQueryString {
    ssl: bool,
}

impl UpdateNginxQueryString {
    pub closed spec fn ssl_view(&self) -> bool {
        self.ssl
    }

    pub fn new(ssl: bool) -> (r: Self)
        ensures
            r.ssl_view() == ssl,
    {
        Self { ssl }
    }

    pub fn get_ssl(&self) -> (r: &bool)
        ensures
            *r == self.ssl_view(),
    {
        &self.ssl
    }
}

impl Default for UpdateNginxQueryString {
    /// Every parameter defaults to `true`.
    fn default() -> (r: Self)
        ensures
            r.ssl_view(),
    {
        Self { ssl: def_bool::<true>() }
    }
}

/// The query of a site creation: whether to set up Cloudflare, install a
/// certificate, use Enom, and check the domain's IP.
pub struct AddNginxQueryString {
    cloudflare: bool,
    ssl: bool,
    enom: bool,
    ipcheck: bool,
}

/// The value of an `AddNginxQueryString`: cloudflare, ssl, enom, ipcheck.
pub type AddFlags = (bool, bool, bool, bool);

impl View for AddNginxQueryString {
    type V = AddFlags;

    closed spec fn view(&self) -> AddFlags {
        (self.cloudflare, self.ssl, self.enom, self.ipcheck)
    }
}

impl AddNginxQueryString {
    pub fn new(cloudflare: bool, ssl: bool, enom: bool, ipcheck: bool) -> (r: Self)
        ensures
            r@ == (cloudflare, ssl, enom, ipcheck),
    {
        Self { cloudflare, ssl, enom, ipcheck }
    }

    pub fn get_cloudflare_bool(&self) -> (r: &bool)
        ensures
            *r == self@.0,
    {
        &self.cloudflare
    }

    pub fn get_ssl_bool(&self) -> (r: &bool)
        ensures
            *r == self@.1,
    {
        &self.ssl
    }

    pub fn get_enom_bool(&self) -> (r: &bool)
        ensures
            *r == self@.2,
    {
        &self.enom
    }

    pub fn get_ipcheck_bool(&self) -> (r: &bool)
        ensures
            *r == self@.3,
    {
        &self.ipcheck
    }
}

impl Default for AddNginxQueryString {
    /// Every parameter defaults to `true`.
    fn default() -> (r: Self)
        ensures
            r@ == (true, true, true, true),
    {
        Self {
            cloudflare: def_bool::<true>(),
            ssl: def_bool::<true>(),
            enom: def_bool::<true>(),
            ipcheck: def_bool::<true>(),
        }
    }
}

/// The query of a site listing: an optional feature and server name.
pub struct ListNginxQueryString {
    feature: Option<NginxFeatures>,
    server_name: Option<String>,
}

impl View for ListNginxQueryString {
    type V = (Option<NginxFeatures>, Option<Seq<char>>);

    closed spec fn view(&self) -> (Option<NginxFeatures>, Option<Seq<char>>) {
        (self.feature, self.server_name.deep_view())
    }
}

impl ListNginxQueryString {
    pub fn new(feature: Option<NginxFeatures>, server_name: Option<String>) -> (r: Self)
        ensures
            r@ == (feature, server_name.deep_view()),
    {
        Self { feature, server_name }
    }

    pub fn get_feature(&self) -> (r: &Option<NginxFeatures>)
        ensures
            *r == self@.0,
    {
        &self.feature
    }

    pub fn get_server_name(&self) -> (r: &Option<String>)
        ensures
            r.deep_view() == self@.1,
    {
        &self.server_name
    }
}

} // verus!
