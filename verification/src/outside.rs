//! The calls this library makes into the `url` and `serde_json` crates.
//!
//! Every function here is believed, not proved: its body is the foreign
//! call, and its contract is what the rest of the library relies on.

use vstd::prelude::*;

verus! {

#[verifier::external_type_specification]
#[verifier::external_body]
pub struct ExParseError(url::ParseError);

/// The serialization of the absolute URL that `url::Url::parse` reads
/// from `input`, or `None` where it rejects `input`.
pub uninterp spec fn parsed_url(input: Seq<char>) -> Option<Seq<char>>;

/// The `application/x-www-form-urlencoded` text that
/// `url::form_urlencoded::Serializer` writes for `pairs`.
pub uninterp spec fn form_encoded(pairs: Seq<(Seq<char>, Seq<char>)>) -> Seq<char>;

/// The JSON string literal that `serde_json::to_string` writes for the
/// text `s`.
pub uninterp spec fn json_string(s: Seq<char>) -> Seq<char>;

/// The members of the JSON object that `serde_json::from_str` reads
/// from `text` as a map from texts to texts, in the order of their
/// names, or `None` where it reports an error.
pub uninterp spec fn json_text_map(text: Seq<char>) -> Option<Seq<(Seq<char>, Seq<char>)>>;

/// The views of a list of name/value pairs.
pub open spec fn pairs_view(v: Seq<(String, String)>) -> Seq<(Seq<char>, Seq<char>)> {
    v.map_values(|p: (String, String)| (p.0@, p.1@))
}

/// Calls `url::Url::parse` and hands back the URL's serialization.
/// Trusted: success and the text returned are those named by
/// [`parsed_url`].
#[verifier::external_body]
pub(crate) fn parse_url(input: &str) -> (r: Result<String, url::ParseError>)
    ensures
        r is Ok <==> parsed_url(input@) is Some,
        r is Ok ==> r->Ok_0@ == parsed_url(input@)->Some_0,
{
    match url::Url::parse(input) {
        Ok(u) => Ok(String::from(u)),
        Err(e) => Err(e),
    }
}

/// Runs `url::form_urlencoded::Serializer` over `pairs`, starting from
/// an empty string. Trusted: the text returned is the one named by
/// [`form_encoded`].
#[verifier::external_body]
pub(crate) fn encode_form(pairs: &Vec<(String, String)>) -> (r: String)
    ensures
        r@ == form_encoded(pairs_view(pairs@)),
{
    url::form_urlencoded::Serializer::new(String::new()).extend_pairs(pairs.iter()).finish()
}

/// Calls `serde_json::to_string` on a string slice. Trusted: the call
/// succeeds, since it writes a string into a growing byte vector and
/// has no other source of failure, and the literal returned is the one
/// named by [`json_string`]. The error arm only changes the type of a
/// failure that does not occur.
#[verifier::external_body]
pub(crate) fn quote_json(s: &str) -> (r: Result<String, String>)
    ensures
        r is Ok,
        r->Ok_0@ == json_string(s@),
{
    match serde_json::to_string(s) {
        Ok(text) => Ok(text),
        Err(e) => Err(e.to_string()),
    }
}

/// Calls `serde_json::from_str` for a `BTreeMap` from `String` to
/// `String` and lists the map's entries; a failure comes back as the
/// message of the foreign error. Trusted: success and the entries are
/// those named by [`json_text_map`]; nothing is claimed of the message.
#[verifier::external_body]
pub(crate) fn parse_text_map(text: &str) -> (r: Result<Vec<(String, String)>, String>)
    ensures
        r is Ok <==> json_text_map(text@) is Some,
        r is Ok ==> pairs_view(r->Ok_0@) == json_text_map(text@)->Some_0,
{
    match serde_json::from_str::<std::collections::BTreeMap<String, String>>(text) {
        Ok(map) => Ok(map.into_iter().collect()),
        Err(e) => Err(e.to_string()),
    }
}

/// The message that `url::ParseError`'s `Display` impl prints.
/// Nothing is claimed of the text.
#[verifier::external_body]
pub(crate) fn url_error_message(e: &url::ParseError) -> String {
    e.to_string()
}

} // verus!
