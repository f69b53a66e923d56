use super::records::RecordsRes;
use super::zones::ZoneRes;
use crate::nginx::obj::{reply_result, Reply, ReplySpec};
use crate::text::{chars_of, join, join_chars, views, string_from_chars};
use vstd::prelude::*;

verus! {

/// The `result` of a Cloudflare API response.
pub enum ObjResult {
    ZonesData(Vec<ZoneRes>),
    DNSRecords(Vec<RecordsRes>),
    NoResult,
    ZoneData(ZoneRes),
    DNSRecord(RecordsRes),
}

/// A message of a Cloudflare API response.
pub struct ObjMsg {
    pub code: i16,
    pub message: String,
}

/// An error of a Cloudflare API response.
pub struct ObjErr(pub ObjMsg);

/// Paging information of a Cloudflare API response.
pub struct ObjPageDetail {
    pub count: u8,
    pub page: u8,
    pub per_page: u16,
    pub total_count: u8,
}

/// A Cloudflare API response.
pub struct ObjResponse {
    pub errors: Vec<ObjErr>,
    pub messages: Vec<ObjMsg>,
    pub success: bool,
    pub result_info: Option<ObjPageDetail>,
    pub result: Option<ObjResult>,
}

/// The messages of a list of errors.
pub open spec fn error_messages(errors: Seq<ObjErr>) -> Seq<Seq<char>> {
    errors.map_values(|e: ObjErr| e.0.message@)
}

/// A response is acceptable when it reports success; otherwise its error
/// messages, one per line, form a 500 reply.
pub open spec fn response_check(r: &ObjResponse) -> Result<(), ReplySpec> {
    if r.success {
        Ok(())
    } else {
        Err((500u16, join(error_messages(r.errors@), "\n"@)))
    }
}

/// A response's result holds nothing: no result, or an empty list.
pub open spec fn response_empty(r: &ObjResponse) -> bool {
    match r.result {
        None => true,
        Some(ObjResult::ZonesData(v)) => v@.len() == 0,
        Some(ObjResult::DNSRecords(v)) => v@.len() == 0,
        Some(_) => false,
    }
}

impl ObjResponse {
    /// Checks that the response reports success (see `response_check`).
    pub fn unwrap(&self) -> (r: Result<(), Reply>)
        ensures
            reply_result(r) == response_check(self),
    {
        if self.success {
            return Ok(());
        }
        let mut msgs: Vec<Vec<char>> = Vec::new();
        let mut i: usize = 0;
        while i < self.errors.len()
            invariant
                0 <= i <= self.errors@.len(),
                msgs@.len() == i,
                forall|k: int| 0 <= k < i ==> #[trigger] msgs@[k]@ == self.errors@[k].0.message@,
            decreases self.errors.len() - i,
        {
            let m = chars_of(self.errors[i].0.message.as_str());
            msgs.push(m);
            i = i + 1;
        }
        assert(views(msgs@) =~= error_messages(self.errors@));
        let nl = chars_of("\n");
        let joined = join_chars(&msgs, nl.as_slice());
        Err((500, string_from_chars(joined.as_slice())))
    }

    /// Whether the response's result holds nothing (see `response_empty`).
    pub fn is_empty(&self) -> (b: bool)
        requires
            !(self.result matches Some(ObjResult::NoResult)),
        ensures
            b == response_empty(self),
    {
        match &self.result {
            Some(objresult) => match objresult {
                ObjResult::ZonesData(v) => v.len() == 0,
                ObjResult::DNSRecords(v) => v.len() == 0,
                ObjResult::ZoneData(_) => false,
                ObjResult::DNSRecord(_) => false,
                ObjResult::NoResult => unreached(),
            },
            None => true,
        }
    }
}

impl Default for ObjResponse {
    fn default() -> (r: Self)
        ensures
            r.errors@.len() == 0,
            r.messages@.len() == 0,
            !r.success,
            r.result_info is None,
            r.result is None,
    {
        ObjResponse {
            errors: Vec::new(),
            messages: Vec::new(),
            success: false,
            result_info: None,
            result: None,
        }
    }
}

} // verus!
