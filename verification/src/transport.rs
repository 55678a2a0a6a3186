use vstd::prelude::*;

verus! {

/// The handle reqwest hands out for issuing requests.  Opaque here: the
/// library only stores it and lends it out; the caller that owns the
/// runtime performs the I/O.
#[verifier::external_type_specification]
#[verifier::external_body]
pub struct ExClient(reqwest::Client);

/// A multipart form under construction; the library carries it through
/// to the round trip untouched.
#[verifier::external_type_specification]
#[verifier::external_body]
pub struct ExForm(reqwest::multipart::Form);

/// A loosely typed JSON value, used for structured request bodies; the
/// library carries it through untouched.
#[verifier::external_type_specification]
#[verifier::external_body]
pub struct ExValue(serde_json::Value);

/// Whether url::Url::parse accepts the string as an absolute URL; the
/// outcome depends on the characters alone.
pub uninterp spec fn url_accepted(s: Seq<char>) -> bool;

/// Relies on url::Url::parse (reqwest re-exports it): acceptance is a
/// function of the string itself; the message of a refusal is the
/// parser's own and is promised nothing.
#[verifier::external_body]
pub(crate) fn try_parse_url(s: &String) -> (r: Result<(), String>)
    ensures
        r is Ok <==> url_accepted(s@),
{
    match reqwest::Url::parse(s.as_str()) {
        Ok(_) => Ok(()),
        Err(e) => Err(format!("{}", e)),
    }
}

/// Relies on reqwest::ClientBuilder::build, called with the given user
/// agent: whether a transport can be constructed depends on the process
/// environment, so nothing is promised of the outcome.
#[verifier::external_body]
pub(crate) fn build_transport(user_agent: &str) -> Result<reqwest::Client, String> {
    match reqwest::Client::builder().user_agent(user_agent).build() {
        Ok(c) => Ok(c),
        Err(e) => Err(format!("{}", e)),
    }
}

} // verus!
