//! Finding the token that a request carries, and sending a request without
//! one to the login page.

use crate::text::{
    after_first, before_first, contains_str, cut_at, is_prefix, is_substring,
    lemma_first_index_in_bounds, starts_with, str_eq, trim, trimmed_of,
};
use vstd::prelude::*;
use vstd::utf8::encode_utf8;

verus! {

/// What percent-decoding makes of a text, where the result is valid UTF-8.
pub uninterp spec fn url_decoded_of(s: Seq<char>) -> Option<Seq<char>>;

/// A byte that percent-encoding leaves as it is: an ASCII letter or digit,
/// or one of `-`, `.`, `_`, `~`.
pub open spec fn is_unreserved(byte: u8) -> bool {
    (0x30 <= byte <= 0x39) || (0x41 <= byte <= 0x5A) || (0x61 <= byte <= 0x7A) || byte == 0x2D
        || byte == 0x2E || byte == 0x5F || byte == 0x7E
}

/// The hexadecimal digit for a value below sixteen, in upper case.
pub open spec fn hex_digit(value: u8) -> char {
    if value < 10 {
        (0x30 + value) as u8 as char
    } else {
        (0x41 + value - 10) as u8 as char
    }
}

/// The bytes percent-encoded: an unreserved byte stands for itself, any
/// other byte becomes `%` and its two hexadecimal digits.
pub open spec fn percent_encoded(bytes: Seq<u8>) -> Seq<char>
    decreases bytes.len(),
{
    if bytes.len() == 0 {
        Seq::empty()
    } else {
        percent_encoded(bytes.drop_last()) + if is_unreserved(bytes.last()) {
            seq![bytes.last() as char]
        } else {
            seq!['%', hex_digit(bytes.last() / 16), hex_digit(bytes.last() % 16)]
        }
    }
}

/// What percent-encoding makes of a text: the percent-encoding of its
/// UTF-8 bytes.
pub open spec fn url_encoded_of(s: Seq<char>) -> Seq<char> {
    percent_encoded(encode_utf8(s))
}

/// Trusted: `urlencoding::decode`, with its error dropped. The result
/// depends on the characters of the input alone; nothing more is claimed of
/// it than that it has a name.
#[verifier::external_body]
pub(crate) fn url_decode(s: &str) -> (decoded: Option<String>)
    ensures
        decoded.deep_view() == url_decoded_of(s@),
{
    urlencoding::decode(s).ok().map(|text| text.into_owned())
}

/// Trusted: `urlencoding::encode`, which percent-encodes every byte of the
/// text's UTF-8 form except ASCII letters and digits and `-`, `_`, `.`, `~`,
/// with upper-case hexadecimal digits.
#[verifier::external_body]
pub(crate) fn url_encode(s: &str) -> (encoded: String)
    ensures
        encoded@ == url_encoded_of(s@),
{
    urlencoding::encode(s).into_owned()
}

/// What is left of `s` once `prefix` is taken off its front as often as it
/// stands there.
pub open spec fn without_leading(s: Seq<char>, prefix: Seq<char>) -> Seq<char>
    decreases s.len(),
{
    if prefix.len() > 0 && is_prefix(prefix, s) {
        without_leading(s.skip(prefix.len() as int), prefix)
    } else {
        s
    }
}

/// The word that announces a bearer token, with the space after it.
pub open spec fn bearer_prefix() -> Seq<char> {
    "Bearer "@
}

/// The token of an `Authorization` header: what follows `Bearer `, where
/// the header begins with it.
pub open spec fn bearer_token(header: Seq<char>) -> Option<Seq<char>> {
    if is_prefix(bearer_prefix(), header) {
        Some(without_leading(header, bearer_prefix()))
    } else {
        None
    }
}

/// The token of a query string: the percent-decoded value of the first
/// parameter named `token`. A parameter without `=` has no name. Where the
/// value of that first parameter does not decode, there is no token.
pub open spec fn query_token(query: Seq<char>) -> Option<Seq<char>>
    decreases query.len(),
    via query_token_ends
{
    let param = before_first(query, '&');
    if after_first(param, '=') is Some && before_first(param, '=') == "token"@ {
        url_decoded_of(after_first(param, '=')->Some_0)
    } else if after_first(query, '&') is Some {
        query_token(after_first(query, '&')->Some_0)
    } else {
        None
    }
}

#[via_fn]
proof fn query_token_ends(query: Seq<char>) {
    lemma_first_index_in_bounds(query, '&');
}

/// The token of a `Cookie` header: the value of the first cookie named
/// `auth_token`, white space round each cookie aside.
pub open spec fn cookie_token(header: Seq<char>) -> Option<Seq<char>>
    decreases header.len(),
    via cookie_token_ends
{
    let cookie = trimmed_of(before_first(header, ';'));
    if after_first(cookie, '=') is Some && before_first(cookie, '=') == "auth_token"@ {
        after_first(cookie, '=')
    } else if after_first(header, ';') is Some {
        cookie_token(after_first(header, ';')->Some_0)
    } else {
        None
    }
}

#[via_fn]
proof fn cookie_token_ends(header: Seq<char>) {
    lemma_first_index_in_bounds(header, ';');
}

/// The token that a request carries: the bearer token of its
/// `Authorization` header, else the token of its query, else the token of
/// its cookies.
pub open spec fn request_token(
    authorization: Option<Seq<char>>,
    query: Option<Seq<char>>,
    cookies: Option<Seq<char>>,
) -> Option<Seq<char>> {
    if authorization is Some && bearer_token(authorization->Some_0) is Some {
        bearer_token(authorization->Some_0)
    } else if query is Some && query_token(query->Some_0) is Some {
        query_token(query->Some_0)
    } else if cookies is Some {
        cookie_token(cookies->Some_0)
    } else {
        None
    }
}

/// Where a request without a token is sent: the login page of the token
/// service, with the percent-encoded address to come back to.
pub open spec fn login_address(
    auth_service_url: Seq<char>,
    base_url: Seq<char>,
    target: Seq<char>,
) -> Seq<char> {
    auth_service_url + "/?redirect="@ + url_encoded_of(base_url + target)
}

/// The token of an `Authorization` header.
pub fn extract_bearer_token(header: &str) -> (token: Option<String>)
    ensures
        token.deep_view() == bearer_token(header@),
{
    if !starts_with(header, "Bearer ") {
        return None;
    }
    let mut rest: &str = header;
    while starts_with(rest, "Bearer ")
        invariant
            without_leading(rest@, bearer_prefix()) == without_leading(header@, bearer_prefix()),
        decreases rest@.len(),
    {
        proof {
            reveal_strlit("Bearer ");
        }
        let length = rest.unicode_len();
        rest = rest.substring_char("Bearer ".unicode_len(), length);
    }
    Some(rest.to_owned())
}

/// The token of a query string.
pub fn extract_query_token(query: &str) -> (token: Option<String>)
    ensures
        token.deep_view() == query_token(query@),
{
    let mut rest: &str = query;
    loop
        invariant
            query_token(rest@) == query_token(query@),
        decreases rest@.len(),
    {
        let (param, tail) = cut_at(rest, '&');
        let (key, value) = cut_at(param, '=');
        match value {
            Some(value) => {
                if str_eq(key, "token") {
                    return url_decode(value);
                }
            },
            None => {},
        }
        match tail {
            Some(tail) => {
                rest = tail;
            },
            None => {
                return None;
            },
        }
    }
}

/// The token of a `Cookie` header.
pub fn extract_cookie_token(header: &str) -> (token: Option<String>)
    ensures
        token.deep_view() == cookie_token(header@),
{
    let mut rest: &str = header;
    loop
        invariant
            cookie_token(rest@) == cookie_token(header@),
        decreases rest@.len(),
    {
        let (cookie, tail) = cut_at(rest, ';');
        let (key, value) = cut_at(trim(cookie), '=');
        match value {
            Some(value) => {
                if str_eq(key, "auth_token") {
                    return Some(value.to_owned());
                }
            },
            None => {},
        }
        match tail {
            Some(tail) => {
                rest = tail;
            },
            None => {
                return None;
            },
        }
    }
}

/// The token that a request carries, looked for in its `Authorization`
/// header, then in its query, then in its cookies.
pub fn extract_token(
    authorization: Option<&str>,
    query: Option<&str>,
    cookies: Option<&str>,
) -> (token: Option<String>)
    ensures
        token.deep_view() == request_token(
            match authorization {
                Some(text) => Some(text@),
                None => None,
            },
            match query {
                Some(text) => Some(text@),
                None => None,
            },
            match cookies {
                Some(text) => Some(text@),
                None => None,
            },
        ),
{
    match authorization {
        Some(header) => {
            let token = extract_bearer_token(header);
            if token.is_some() {
                return token;
            }
        },
        None => {},
    }
    match query {
        Some(query) => {
            let token = extract_query_token(query);
            if token.is_some() {
                return token;
            }
        },
        None => {},
    }
    match cookies {
        Some(header) => extract_cookie_token(header),
        None => None,
    }
}

/// Whether a request comes from a browser: its `Accept` header asks for
/// HTML.
pub fn is_browser_request(accept: Option<&str>) -> (browser: bool)
    ensures
        browser == match accept {
            Some(text) => is_substring("text/html"@, text@),
            None => false,
        },
{
    match accept {
        Some(text) => contains_str(text, "text/html"),
        None => false,
    }
}

/// The login page of the token service, with `encoded_return`, an address
/// in percent-encoded form, as the address to come back to.
pub fn login_url_for(auth_service_url: &str, encoded_return: &str) -> (url: String)
    ensures
        url@ == auth_service_url@ + "/?redirect="@ + encoded_return@,
{
    let mut url = String::new();
    url.append(auth_service_url);
    url.append("/?redirect=");
    url.append(encoded_return);
    url
}

/// Where a request without a token is sent so that it comes back to
/// `target` on this service.
pub fn login_url(auth_service_url: &str, base_url: &str, target: &str) -> (url: String)
    ensures
        url@ == login_address(auth_service_url@, base_url@, target@),
{
    let mut current = String::new();
    current.append(base_url);
    current.append(target);
    let encoded = url_encode(current.as_str());
    login_url_for(auth_service_url, encoded.as_str())
}

} // verus!
