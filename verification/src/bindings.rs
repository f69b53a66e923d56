//! Calls into the `url`, `serde_json` and `rusqlite` crates and into std.
//! Their results are named by uninterpreted spec functions: the library's
//! contracts are stated over these names, and nothing more is claimed of them.
use vstd::prelude::*;

verus! {

/// What `url::Url::parse` gives for `input`: on success the URL's scheme and
/// its domain (`Url::domain`), on failure the text of the `ParseError`.
pub uninterp spec fn url_parse_outcome(input: Seq<char>) -> Result<
    (Seq<char>, Option<Seq<char>>),
    Seq<char>,
>;

/// The parts of a parsed URL that the library reads.
pub struct UrlParts {
    pub scheme: String,
    pub domain: Option<String>,
}

/// Calls `url::Url::parse(input)`; on success reads `scheme()` and
/// `domain()`, on failure the `Display` text of the error. The contract
/// only ties the result to the name `url_parse_outcome` of the input.
#[verifier::external_body]
pub(crate) fn parse_url(input: &str) -> (r: Result<UrlParts, String>)
    ensures
        match r {
            Ok(p) => url_parse_outcome(input@) == Ok::<
                (Seq<char>, Option<Seq<char>>),
                Seq<char>,
            >((p.scheme@, p.domain.deep_view())),
            Err(e) => url_parse_outcome(input@) == Err::<
                (Seq<char>, Option<Seq<char>>),
                Seq<char>,
            >(e@),
        },
{
    match url::Url::parse(input) {
        Ok(u) => Ok(
            UrlParts {
                scheme: u.scheme().to_string(),
                domain: match u.domain() {
                    Some(d) => Some(d.to_string()),
                    None => None,
                },
            },
        ),
        Err(e) => Err(e.to_string()),
    }
}

/// What `serde_json::from_str::<Vec<String>>` gives for `text`
/// (`None` when it returns an error).
pub uninterp spec fn json_string_list(text: Seq<char>) -> Option<Seq<Seq<char>>>;

/// A character that JSON lets stand unescaped inside a string: anything
/// but `"`, `\` and the control characters below U+0020.
pub open spec fn json_plain_char(c: char) -> bool {
    c != '"' && c != '\\' && c as int >= 0x20
}

/// The one string of a text `["x"]` whose `x` holds only plain characters.
pub open spec fn single_json_item(text: Seq<char>) -> Option<Seq<char>> {
    if text.len() >= 4 && text[0] == '[' && text[1] == '"' && text[text.len() - 2] == '"' && text[text.len() - 1]
        == ']' && forall|i: int| 2 <= i < text.len() - 2 ==> json_plain_char(#[trigger] text[i]) {
        Some(text.subrange(2, text.len() - 2))
    } else {
        None
    }
}

/// Calls `serde_json::from_str::<Vec<String>>(text)`; the error is dropped.
/// A text `["x"]`, with `x` free of `"`, `\` and control characters, is a
/// JSON array of one string literal without escapes: serde_json's string
/// parser takes such characters as they stand, so it reads back `[x]`.
#[verifier::external_body]
pub(crate) fn parse_json_string_list(text: &str) -> (r: Option<Vec<String>>)
    ensures
        r.deep_view() == json_string_list(text@),
        single_json_item(text@) matches Some(x) ==> r.deep_view() == Some(seq![x]),
{
    serde_json::from_str::<Vec<String>>(text).ok()
}

/// What `serde_json::from_str::<Option<Vec<String>>>` gives for `text`
/// (`None` when it returns an error).
pub uninterp spec fn json_optional_string_list(text: Seq<char>) -> Option<
    Option<Seq<Seq<char>>>,
>;

/// Calls `serde_json::from_str::<Option<Vec<String>>>(text)`; the error is dropped.
#[verifier::external_body]
pub(crate) fn parse_json_optional_string_list(text: &str) -> (r: Option<Option<Vec<String>>>)
    ensures
        r.deep_view() == json_optional_string_list(text@),
{
    serde_json::from_str::<Option<Vec<String>>>(text).ok()
}

/// The compact JSON text of an array of strings, as `serde_json::Value`'s
/// `Display` writes it for `Value::from(list)`.
pub uninterp spec fn json_text_of_list(list: Seq<Seq<char>>) -> Seq<char>;

/// Converts the list into a `serde_json::Value` array and writes it with
/// `to_string`. Reading that text back with `serde_json::from_str`, as a
/// `Vec<String>` or as an `Option<Vec<String>>`, gives the same strings in
/// the same order: the array's strings are written with JSON escapes, which
/// the parser undoes, and a JSON array is read as `Some` of its elements.
#[verifier::external_body]
pub(crate) fn list_to_json(list: &Vec<String>) -> (r: String)
    ensures
        r@ == json_text_of_list(list.deep_view()),
        json_string_list(r@) == Some(list.deep_view()),
        json_optional_string_list(r@) == Some(Some(list.deep_view())),
{
    serde_json::Value::from(list.clone()).to_string()
}

/// The text that std's `Debug` formatting (`{:?}`) writes for a `Vec<String>`.
pub uninterp spec fn debug_text_of_list(list: Seq<Seq<char>>) -> Seq<char>;

/// Formats the list with `{:?}`.
#[verifier::external_body]
pub(crate) fn list_debug_text(list: &Vec<String>) -> (r: String)
    ensures
        r@ == debug_text_of_list(list.deep_view()),
{
    format!("{:?}", list)
}

/// What `String::from_utf8_lossy` gives for `bytes`.
pub uninterp spec fn utf8_lossy_text(bytes: Seq<u8>) -> Seq<char>;

/// `String::from_utf8_lossy(bytes)`. Its documentation: valid UTF-8 is
/// decoded as `from_utf8` does; invalid sequences become U+FFFD.
#[verifier::external_body]
pub(crate) fn utf8_lossy(bytes: &[u8]) -> (r: String)
    ensures
        r@ == utf8_lossy_text(bytes@),
        vstd::utf8::valid_utf8(bytes@) ==> r@ == vstd::utf8::decode_utf8(bytes@),
{
    String::from_utf8_lossy(bytes).to_string()
}

/// `String::from_utf8(bytes)`, which fails exactly when the bytes are not
/// valid UTF-8 and otherwise decodes them.
#[verifier::external_body]
pub(crate) fn utf8_decode(bytes: Vec<u8>) -> (r: Option<String>)
    ensures
        r is Some <==> vstd::utf8::valid_utf8(bytes@),
        r matches Some(s) ==> s@ == vstd::utf8::decode_utf8(bytes@),
{
    String::from_utf8(bytes).ok()
}

/// The `Display` text of `rusqlite::Error::QueryReturnedNoRows`, the error a
/// single-row query gives when no row matches; the crate's source writes
/// "Query returned no rows".
#[verifier::external_body]
pub(crate) fn no_rows_text() -> (r: String)
    ensures
        r@ == "Query returned no rows"@,
{
    rusqlite::Error::QueryReturnedNoRows.to_string()
}

} // verus!
