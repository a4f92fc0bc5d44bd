use isahc::http::Request;
use vstd::prelude::*;

verus! {

/// `isahc::http::Request`, a built HTTP request ready to be sent.
#[verifier::external_type_specification]
#[verifier::external_body]
#[verifier::reject_recursive_types(T)]
pub struct ExRequest<T>(Request<T>);

/// Whether the HTTP library parses `uri` as a URI.
pub uninterp spec fn uri_accepted(uri: Seq<char>) -> bool;

/// The request that the HTTP library builds for a POST of `body` to `uri`
/// with the header `name: value`.
pub uninterp spec fn post_of(uri: Seq<char>, name: Seq<char>, value: Seq<char>, body: Seq<char>) -> Request<String>;

/// The request that the HTTP library builds for a GET of `uri`, without a
/// body, with the header `name: value`.
pub uninterp spec fn get_of(uri: Seq<char>, name: Seq<char>, value: Seq<char>) -> Request<()>;

/// A header name made of lowercase letters and dashes, short enough to be
/// taken as it stands.
pub open spec fn is_plain_header_name(name: Seq<char>) -> bool {
    &&& 1 <= name.len() <= 64
    &&& forall|i: int|
        0 <= i < name.len() ==> ('a' <= #[trigger] name[i] <= 'z' || name[i] == '-')
}

/// A character whose encoding a header value may hold: a tab, or anything
/// from the space upwards but the delete character.
pub open spec fn header_char_accepted(c: char) -> bool {
    c == '\t' || (' ' <= c && c != '\x7f')
}

/// Whether every character of `value` may stand in a header value.
pub open spec fn header_value_accepted(value: Seq<char>) -> bool {
    forall|i: int| 0 <= i < value.len() ==> header_char_accepted(#[trigger] value[i])
}

/// Relies on `Request::post(uri).header(name, value).body(body)` of the http
/// crate: the builder fails exactly when the URI does not parse or the header
/// value holds a control character other than a tab, and otherwise depends on
/// its arguments alone.
#[verifier::external_body]
pub(crate) fn post_request(uri: String, name: &'static str, value: String, body: String) -> (r:
    Result<Request<String>, isahc::http::Error>)
    requires
        is_plain_header_name(name@),
    ensures
        r is Ok <==> (uri_accepted(uri@) && header_value_accepted(value@)),
        r is Ok ==> r->Ok_0 == post_of(uri@, name@, value@, body@),
{
    Request::post(uri).header(name, value).body(body)
}

/// Relies on `Request::get(uri).header(name, value).body(())` of the http
/// crate: the builder fails exactly when the URI does not parse or the header
/// value holds a control character other than a tab, and otherwise depends on
/// its arguments alone.
#[verifier::external_body]
pub(crate) fn get_request(uri: String, name: &'static str, value: String) -> (r: Result<
    Request<()>,
    isahc::http::Error,
>)
    requires
        is_plain_header_name(name@),
    ensures
        r is Ok <==> (uri_accepted(uri@) && header_value_accepted(value@)),
        r is Ok ==> r->Ok_0 == get_of(uri@, name@, value@),
{
    Request::get(uri).header(name, value).body(())
}

} // verus!
