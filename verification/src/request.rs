use vstd::prelude::*;
use warp::hyper::header::HeaderValue;
use warp::hyper::HeaderMap;

verus! {

/// `http::HeaderMap`, by the path under which warp hands it on: the headers
/// of a request.
#[verifier::external_type_specification]
#[verifier::external_body]
#[verifier::reject_recursive_types(T)]
pub struct ExHeaderMap<T>(warp::hyper::HeaderMap<T>);

/// `http::HeaderValue`, by the same path: the bytes of one header.
#[verifier::external_type_specification]
#[verifier::external_body]
pub struct ExHeaderValue(warp::hyper::header::HeaderValue);

/// The first value that `headers` holds under `name`, if it holds any: what
/// `HeaderMap::get` returns.
pub uninterp spec fn first_value(headers: HeaderMap<HeaderValue>, name: Seq<char>) -> Option<
    HeaderValue,
>;

/// The text of a header value that is made of visible ASCII characters alone,
/// and `None` for any other: what `HeaderValue::to_str` returns.
pub uninterp spec fn value_text(value: HeaderValue) -> Option<Seq<char>>;

/// Calls `HeaderMap::get` with a name given as text. The contract claims that
/// the value returned is a function of the map and the name.
#[verifier::external_body]
fn get_header<'a>(headers: &'a HeaderMap<HeaderValue>, name: &str) -> (res: Option<&'a HeaderValue>)
    ensures
        res matches Some(value) ==> first_value(*headers, name@) == Some(*value),
        res is None ==> first_value(*headers, name@) is None,
{
    headers.get(name)
}

/// Calls `HeaderValue::to_str` and copies the text out. The contract claims
/// that the text is a function of the value.
#[verifier::external_body]
fn header_text(value: &HeaderValue) -> (res: Option<String>)
    ensures
        res matches Some(text) ==> value_text(*value) == Some(text@),
        res is None ==> value_text(*value) is None,
{
    match value.to_str() {
        Ok(text) => Some(text.to_owned()),
        Err(_) => None,
    }
}

/// The key that a read asks for, given the text of its `address` header: that
/// text, and the empty key where the header has none.
pub open spec fn key_or_empty(text: Option<Seq<char>>) -> Seq<char> {
    match text {
        Some(key) => key,
        None => Seq::empty(),
    }
}

/// The key that a request with the headers `headers` asks for: the text of
/// the first `address` header, and the empty key where there is no such
/// header or its value is no text.
pub open spec fn requested_key(headers: HeaderMap<HeaderValue>) -> Seq<char> {
    match first_value(headers, "address"@) {
        Some(value) => key_or_empty(value_text(value)),
        None => Seq::empty(),
    }
}

/// The key for the text of an `address` header.
pub fn address_or_empty(text: Option<String>) -> (key: String)
    ensures
        key@ == key_or_empty(
            match text {
                Some(t) => Some(t@),
                None => None,
            },
        ),
{
    match text {
        Some(key) => key,
        None => String::new(),
    }
}

/// The key that a request with the headers `headers` asks for.
pub fn requested_address(headers: &HeaderMap<HeaderValue>) -> (key: String)
    ensures
        key@ == requested_key(*headers),
{
    match get_header(headers, "address") {
        Some(value) => address_or_empty(header_text(value)),
        None => String::new(),
    }
}

} // verus!
