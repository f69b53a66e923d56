//! Who may call the API, and where a proxied request goes.
use super::response::{ActixCustomResponse, BodyView};
use crate::text::{chars_of, eq_chars, split_char, split_char_chars, str_eq, views};
use vstd::prelude::*;

verus! {

/// The value of a `Result` whose error is a reply.
pub open spec fn response_result(r: Result<(), ActixCustomResponse>) -> Result<(), (u16, BodyView)> {
    match r {
        Ok(()) => Ok(()),
        Err(e) => Err(e@),
    }
}

/// The answer to the credentials of a request: a missing user or password
/// header is a bad request, credentials other than the configured ones are
/// unauthorized, and the configured ones pass.
pub open spec fn auth_reply(
    user: Option<Seq<char>>,
    pass: Option<Seq<char>>,
    expected_user: Seq<char>,
    expected_pass: Seq<char>,
) -> Result<(), (u16, BodyView)> {
    match (user, pass) {
        (None, _) => Err((400u16, BodyView::Text("Missing X-Auth-User"@))),
        (Some(_), None) => Err((400u16, BodyView::Text("Missing X-Auth-Pass"@))),
        (Some(u), Some(p)) => if u == expected_user && p == expected_pass {
            Ok(())
        } else {
            Err((401u16, BodyView::Text("Incorrect Authenticaton"@)))
        },
    }
}

/// The value of an optional text.
pub open spec fn opt_text(s: Option<&str>) -> Option<Seq<char>> {
    match s {
        Some(t) => Some(t@),
        None => None,
    }
}

/// Checks the `X-Auth-User` and `X-Auth-Pass` headers of a request against
/// the configured credentials.
pub fn check_credentials(user: Option<&str>, pass: Option<&str>, expected_user: &str, expected_pass: &str) -> (r:
    Result<(), ActixCustomResponse>)
    ensures
        response_result(r) == auth_reply(opt_text(user), opt_text(pass), expected_user@, expected_pass@),
{
    let u = match user {
        Some(u) => u,
        None => {
            return Err(ActixCustomResponse::new_text(400, String::from_str("Missing X-Auth-User")));
        },
    };
    let p = match pass {
        Some(p) => p,
        None => {
            return Err(ActixCustomResponse::new_text(400, String::from_str("Missing X-Auth-Pass")));
        },
    };
    if str_eq(u, expected_user) && str_eq(p, expected_pass) {
        Ok(())
    } else {
        Err(ActixCustomResponse::new_text(401, String::from_str("Incorrect Authenticaton")))
    }
}

/// In production an origin is allowed when it is one of the comma-separated
/// allowed addresses; otherwise every origin is allowed.
pub open spec fn origin_allowed_spec(production: bool, allowed: Seq<char>, origin: Seq<char>) -> bool {
    !production || split_char(allowed, ',').contains(origin)
}

/// Whether a cross-origin request from `origin` is allowed.
pub fn origin_allowed(production: bool, allowed: &str, origin: &str) -> (b: bool)
    ensures
        b == origin_allowed_spec(production, allowed@, origin@),
{
    if !production {
        return true;
    }
    let a = chars_of(allowed);
    let o = chars_of(origin);
    let items = split_char_chars(a.as_slice(), ',');
    let ghost parts = split_char(allowed@, ',');
    let mut i: usize = 0;
    while i < items.len()
        invariant
            0 <= i <= items@.len(),
            views(items@) == parts,
            parts == split_char(allowed@, ','),
            o@ == origin@,
            forall|k: int| 0 <= k < i ==> (#[trigger] parts[k]) != origin@,
        decreases items.len() - i,
    {
        assert(views(items@)[i as int] == items@[i as int]@);
        if eq_chars(items[i].as_slice(), o.as_slice()) {
            assert(parts[i as int] == origin@);
            return true;
        }
        i = i + 1;
    }
    assert(!parts.contains(origin@)) by {
        if parts.contains(origin@) {
            let k = choose|k: int| 0 <= k < parts.len() && parts[k] == origin@;
            assert(parts[k] != origin@);
        }
    }
    false
}

/// The address a request is forwarded to: the deployment service's base
/// address and the request's path, then `?` and the query where there is one.
pub open spec fn forward_url_spec(base: Seq<char>, path: Seq<char>, query: Seq<char>) -> Seq<char> {
    if query.len() == 0 {
        base + path
    } else {
        base + path + "?"@ + query
    }
}

/// Builds the address a hosting request is forwarded to.
pub fn forward_url(base: &str, path: &str, query: &str) -> (r: String)
    ensures
        r@ == forward_url_spec(base@, path@, query@),
{
    let mut s = String::from_str(base);
    s.append(path);
    if query.unicode_len() != 0 {
        s.append("?");
        s.append(query);
    }
    s
}

} // verus!
