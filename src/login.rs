//! The pieces of the login flow that compute: the callback address and the
//! authorization code carried back in the callback URL.
use crate::format::{append_decimal, decimal};
use url::{ParseError, Url};
use vstd::prelude::*;
use vstd::string::StringExecFns;

verus! {

#[verifier::external_type_specification]
#[verifier::external_body]
pub struct ExUrl(Url);

#[verifier::external_type_specification]
#[verifier::external_body]
pub struct ExParseError(ParseError);

/// Why no authorization code could be read from a callback URL.
#[derive(Debug)]
pub enum LoginError {
    /// The text is not an absolute URL.
    UrlParse(ParseError),
    /// The URL carries no parameter of this name.
    UrlMissingParam(String),
}

/// Relies on `url::Url::parse`: an absolute URL, or the reason the text is
/// not one.
#[verifier::external_body]
fn parse_url(input: &str) -> (r: Result<Url, ParseError>) {
    Url::parse(input)
}

/// Relies on `url::Url::query_pairs`: the query's name/value pairs, decoded,
/// in the order they appear.
#[verifier::external_body]
fn query_pairs(url: &Url) -> (r: Vec<(String, String)>) {
    url.query_pairs().map(|(k, v)| (k.into_owned(), v.into_owned())).collect()
}

/// Where the login page sends the browser back to: the local callback on
/// `port`.
pub fn redirect_uri(port: u16) -> (r: String)
    ensures
        r@ == "http://localhost:"@ + decimal(port as int) + "/callback"@,
{
    let mut uri = String::from_str("http://localhost:");
    append_decimal(&mut uri, port as i64);
    uri.append("/callback");
    uri
}

/// The value of the last `code` parameter among the query pairs of a
/// callback URL, as a map built from the pairs in order would hold it.
pub fn code_from_query(pairs: &Vec<(String, String)>) -> (r: Option<String>)
    ensures
        r is None <==> forall|i: int| 0 <= i < pairs@.len() ==> pairs@[i].0@ != "code"@,
        r matches Some(c) ==> exists|i: int|
            0 <= i < pairs@.len() && pairs@[i].0@ == "code"@ && pairs@[i].1@ == c@ && forall|
                j: int,
            |
                i < j < pairs@.len() ==> pairs@[j].0@ != "code"@,
{
    let key = String::from_str("code");
    let mut found: Option<String> = None;
    let mut i: usize = 0;
    while i < pairs.len()
        invariant
            key@ == "code"@,
            i <= pairs@.len(),
            found is None <==> forall|k: int| 0 <= k < i ==> pairs@[k].0@ != "code"@,
            found matches Some(c) ==> exists|k: int|
                0 <= k < i && pairs@[k].0@ == "code"@ && pairs@[k].1@ == c@ && forall|j: int|
                    k < j < i ==> pairs@[j].0@ != "code"@,
        decreases pairs@.len() - i,
    {
        if pairs[i].0 == key {
            found = Some(pairs[i].1.clone());
        }
        i = i + 1;
    }
    found
}

/// The authorization code in a callback URL typed in by hand: the `code`
/// parameter of its query, as `code_from_query` picks it.
pub fn callback_code(callback_url: &str) -> (r: Result<String, LoginError>)
    ensures
        r matches Err(LoginError::UrlMissingParam(name)) ==> name@ == "code"@,
{
    match parse_url(callback_url) {
        Err(e) => Err(LoginError::UrlParse(e)),
        Ok(url) => {
            let pairs = query_pairs(&url);
            match code_from_query(&pairs) {
                Some(code) => Ok(code),
                None => Err(LoginError::UrlMissingParam(String::from_str("code"))),
            }
        },
    }
}

} // verus!
