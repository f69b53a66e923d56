//! The bodies of the HTTP replies: a status code and a message that is a
//! text, a DNS record, one site or a list of sites.
use crate::nginx::obj::{NginxObj, NginxObjView};
use crate::nginx::table::site_views;
use vstd::prelude::*;

verus! {

/// A DNS record as shown to the client.
pub struct CustomDnsStruct {
    name: String,
    record_type: String,
    content: String,
    proxy: bool,
    ttl: String,
}

/// The value of a `CustomDnsStruct`.
pub struct DnsView {
    pub name: Seq<char>,
    pub record_type: Seq<char>,
    pub content: Seq<char>,
    pub proxy: bool,
    pub ttl: Seq<char>,
}

impl View for CustomDnsStruct {
    type V = DnsView;

    closed spec fn view(&self) -> DnsView {
        DnsView {
            name: self.name@,
            record_type: self.record_type@,
            content: self.content@,
            proxy: self.proxy,
            ttl: self.ttl@,
        }
    }
}

impl CustomDnsStruct {
    pub fn new(name: String, record_type: String, content: String, proxy: bool, ttl: String) -> (r: Self)
        ensures
            r@ == (DnsView {
                name: name@,
                record_type: record_type@,
                content: content@,
                proxy,
                ttl: ttl@,
            }),
    {
        Self { name, record_type, content, proxy, ttl }
    }

    /// The record's parts, in the order of `new`.
    pub fn into_parts(self) -> (r: (String, String, String, bool, String))
        ensures
            self@ == (DnsView { name: r.0@, record_type: r.1@, content: r.2@, proxy: r.3, ttl: r.4@ }),
    {
        (self.name, self.record_type, self.content, self.proxy, self.ttl)
    }
}

/// The message of a reply.
pub enum BodyMessage {
    Text(String),
    DnsObj(CustomDnsStruct),
    NginxObj(NginxObj),
    HostingObj(Vec<NginxObj>),
}

/// The value of a `BodyMessage`.
pub enum BodyView {
    Text(Seq<char>),
    DnsObj(DnsView),
    NginxObj(NginxObjView),
    HostingObj(Seq<NginxObjView>),
}

impl View for BodyMessage {
    type V = BodyView;

    open spec fn view(&self) -> BodyView {
        match self {
            BodyMessage::Text(t) => BodyView::Text(t@),
            BodyMessage::DnsObj(d) => BodyView::DnsObj(d@),
            BodyMessage::NginxObj(o) => BodyView::NginxObj(o@),
            BodyMessage::HostingObj(v) => BodyView::HostingObj(site_views(v@)),
        }
    }
}

/// A reply: its HTTP status code and its message.
pub struct ActixCustomResponse {
    pub code: u16,
    pub message: BodyMessage,
}

impl View for ActixCustomResponse {
    type V = (u16, BodyView);

    open spec fn view(&self) -> (u16, BodyView) {
        (self.code, self.message@)
    }
}

impl ActixCustomResponse {
    pub fn new_text(code: u16, message: String) -> (r: Self)
        ensures
            r@ == (code, BodyView::Text(message@)),
    {
        Self { code, message: BodyMessage::Text(message) }
    }

    pub fn new_vec_obj(code: u16, message: Vec<NginxObj>) -> (r: Self)
        ensures
            r@ == (code, BodyView::HostingObj(site_views(message@))),
    {
        Self { code, message: BodyMessage::HostingObj(message) }
    }

    pub fn new_nginx_obj(code: u16, message: NginxObj) -> (r: Self)
        ensures
            r@ == (code, BodyView::NginxObj(message@)),
    {
        Self { code, message: BodyMessage::NginxObj(message) }
    }

    pub fn new_dns_obj(code: u16, message: CustomDnsStruct) -> (r: Self)
        ensures
            r@ == (code, BodyView::DnsObj(message@)),
    {
        Self { code, message: BodyMessage::DnsObj(message) }
    }
}

/// An error reply whose message is a text.
pub struct ActixCustomError {
    pub error_code: u16,
    pub message: String,
}

impl ActixCustomError {
    pub fn new(error_code: u16, message: String) -> (r: Self)
        ensures
            r.error_code == error_code,
            r.message@ == message@,
    {
        Self { error_code, message }
    }
}

/// The reply for the DNS record a domain should get: an `A` record for the
/// server's public IP, not proxied, with automatic TTL.
pub fn dns_record_reply(server_name: String, public_ip: String) -> (r: ActixCustomResponse)
    ensures
        r@ == (200u16, BodyView::DnsObj(DnsView {
            name: server_name@,
            record_type: "A"@,
            content: public_ip@,
            proxy: false,
            ttl: "Auto"@,
        })),
{
    ActixCustomResponse::new_dns_obj(
        200,
        CustomDnsStruct::new(server_name, String::from_str("A"), public_ip, false, String::from_str("Auto")),
    )
}

} // verus!
