//! The server's public address: read from the reply of an address echo
//! service, or from a DNS-over-HTTPS JSON answer for a domain.
use crate::text::{chars_of, string_from_chars, trim, trim_chars};
use vstd::prelude::*;

verus! {

/// What `serde_json` reads from a DNS-over-HTTPS JSON reply: `None` when
/// the text is not JSON; `Some(None)` when the value has no `"Answer"` key;
/// `Some(Some(None))` when the answer is not an array, is empty, or its
/// first entry has no `"data"` string; `Some(Some(Some(d)))` for that
/// string `d`.
pub uninterp spec fn dns_answer_data(body: Seq<char>) -> Option<Option<Option<Seq<char>>>>;

/// Parses `body` as a `serde_json::Value`, looks up `"Answer"` with
/// `Value::get`, and reads `answer[0]["data"]` with `as_str` (indexing a
/// `Value` gives `Null` where the index does not fit, so a non-array, an
/// empty array, an entry without `"data"` or a non-string all give `None`).
/// The contract ties the result to the name `dns_answer_data` of the body
/// and states nothing more of it.
#[verifier::external_body]
pub(crate) fn read_dns_answer(body: &str) -> (r: Option<Option<Option<String>>>)
    ensures
        r.deep_view() == dns_answer_data(body@),
{
    match serde_json::from_str::<serde_json::Value>(body) {
        Ok(v) => Some(
            match v.get("Answer") {
                Some(a) => Some(a[0]["data"].as_str().map(String::from)),
                None => None,
            },
        ),
        Err(_) => None,
    }
}

/// The address a DNS answer gives: its data where there is one, the empty
/// text where the reply has no answer, and nothing where the reply cannot
/// be read that way (not JSON, or an answer without a first `"data"`
/// string).
pub open spec fn answer_address(data: Option<Option<Option<Seq<char>>>>) -> Option<Seq<char>> {
    match data {
        Some(None) => Some(Seq::empty()),
        Some(Some(Some(d))) => Some(d),
        _ => None,
    }
}

/// The address for what was read from a DNS answer.
pub fn address_of_answer(data: Option<Option<Option<String>>>) -> (r: Option<String>)
    ensures
        r.deep_view() == answer_address(data.deep_view()),
{
    match data {
        Some(None) => Some(String::new()),
        Some(Some(Some(d))) => Some(d),
        _ => None,
    }
}

/// The first address of a DNS-over-HTTPS JSON reply, `""` when the reply
/// has no answer; `None` where the reply cannot be read.
pub fn ip_from_dns_answer(body: &str) -> (r: Option<String>)
    ensures
        r.deep_view() == answer_address(dns_answer_data(body@)),
{
    let data = read_dns_answer(body);
    address_of_answer(data)
}

/// The address an echo service replies with: its body, trimmed.
pub fn ip_from_echo(body: &str) -> (r: String)
    ensures
        r@ == trim(body@),
{
    let cs = chars_of(body);
    let t = trim_chars(cs.as_slice());
    string_from_chars(t.as_slice())
}

} // verus!
