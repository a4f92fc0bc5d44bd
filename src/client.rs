use crate::codec::{decode, decoded_of, encode, is_json_document, json_text_of};
use crate::error::Error;
use crate::request::{
    get_of, get_request, header_char_accepted, header_value_accepted, post_of, post_request,
    uri_accepted,
};
use isahc::http::Request;
use serde_json::Value;
use vstd::prelude::*;
use vstd::string::StringExecFns;

verus! {

/// Where the service lives.
pub const API_ROOT: &'static str = "https://jsonbin.org";

/// The header that carries the token.
pub const AUTHORIZATION: &'static str = "authorization";

/// The URL of the document kept under `path`.
pub open spec fn endpoint_of(path: Seq<char>) -> Seq<char> {
    API_ROOT@ + "/me/"@ + path
}

/// The authorization header's value for `token`.
pub open spec fn authorization_of(token: Seq<char>) -> Seq<char> {
    "token "@ + token
}

/// Whether a request for `path`, made with `token`, can be built: its URL
/// parses and the token may stand in a header.
pub open spec fn request_accepted(token: Seq<char>, path: Seq<char>) -> bool {
    uri_accepted(endpoint_of(path)) && header_value_accepted(token)
}

/// The request that stores the JSON text `body` under `path` with `token`.
pub open spec fn store_request(token: Seq<char>, path: Seq<char>, body: Seq<char>) -> Request<
    String,
> {
    post_of(endpoint_of(path), AUTHORIZATION@, authorization_of(token), body)
}

/// The request that fetches the document under `path` with `token`.
pub open spec fn fetch_request(token: Seq<char>, path: Seq<char>) -> Request<()> {
    get_of(endpoint_of(path), AUTHORIZATION@, authorization_of(token))
}

/// Whether `status` is in the success range 200 to 299.
pub open spec fn is_success(status: u16) -> bool {
    200 <= status && status < 300
}

/// A header value that starts with the accepted characters of `prefix` is
/// accepted exactly when the rest is.
proof fn lemma_header_value_prefix(prefix: Seq<char>, rest: Seq<char>)
    requires
        header_value_accepted(prefix),
    ensures
        header_value_accepted(prefix + rest) == header_value_accepted(rest),
{
    let whole = prefix + rest;
    if header_value_accepted(whole) {
        assert forall|i: int| 0 <= i < rest.len() implies header_char_accepted(
            #[trigger] rest[i],
        ) by {
            assert(whole[prefix.len() + i] == rest[i]);
        }
    }
    if header_value_accepted(rest) {
        assert forall|i: int| 0 <= i < whole.len() implies header_char_accepted(
            #[trigger] whole[i],
        ) by {
            if i >= prefix.len() {
                assert(whole[i] == rest[i - prefix.len()]);
            }
        }
    }
}

/// A stored document as the service describes it: its identifier and its data.
#[derive(Debug)]
pub struct Bin {
    pub id: String,
    pub data: Value,
}

/// A client of the service, holding the token that each request carries.
pub struct JSONBin {
    token: String,
}

impl View for JSONBin {
    type V = Seq<char>;

    /// The token.
    closed spec fn view(&self) -> Seq<char> {
        self.token@
    }
}

impl JSONBin {
    /// A client that sends `token`. The token is not checked: an empty or
    /// wrong one is only refused by the service.
    pub fn new(token: &str) -> (r: Self)
        ensures
            r@ == token@,
    {
        JSONBin { token: String::from_str(token) }
    }

    /// The URL of the document kept under `path`.
    pub fn endpoint(path: &str) -> (r: String)
        ensures
            r@ == endpoint_of(path@),
    {
        let mut url = String::from_str(API_ROOT);
        url.append("/me/");
        url.append(path);
        url
    }

    /// The value of the authorization header that this client sends.
    pub fn authorization(&self) -> (r: String)
        ensures
            r@ == authorization_of(self@),
    {
        String::from_str("token ").concat(self.token.as_str())
    }

    /// The header value is accepted exactly when the token is.
    proof fn lemma_authorization_accepted(&self)
        ensures
            header_value_accepted(authorization_of(self@)) == header_value_accepted(self@),
    {
        reveal_strlit("token ");
        let prefix = "token "@;
        assert forall|i: int| 0 <= i < prefix.len() implies header_char_accepted(
            #[trigger] prefix[i],
        ) by {}
        lemma_header_value_prefix(prefix, self@);
    }

    /// The request that stores the JSON text `body` under `path`: a POST to
    /// the path's URL, with the token in the authorization header.
    pub fn post_document(&self, path: &str, body: String) -> (r: Result<Request<String>, Error>)
        ensures
            r is Ok <==> request_accepted(self@, path@),
            r is Ok ==> r->Ok_0 == store_request(self@, path@, body@),
            r is Err ==> r->Err_0 is CreateRequest,
    {
        proof {
            reveal_strlit("authorization");
            self.lemma_authorization_accepted();
        }
        match post_request(Self::endpoint(path), AUTHORIZATION, self.authorization(), body) {
            Ok(request) => Ok(request),
            Err(e) => Err(Error::CreateRequest(e)),
        }
    }

    /// The request that stores `document` under `path`: that of
    /// `post_document` for the document's JSON text.
    pub fn create_request(&self, path: &str, document: &Value) -> (r: Result<
        Request<String>,
        Error,
    >)
        ensures
            r is Ok <==> request_accepted(self@, path@),
            r is Ok ==> r->Ok_0 == store_request(self@, path@, json_text_of(*document)),
            r is Err ==> r->Err_0 is CreateRequest,
    {
        match encode(document) {
            Ok(body) => self.post_document(path, body),
            Err(e) => Err(Error::JSONResponse(e)),
        }
    }

    /// The request that fetches the document under `path`: a GET of the
    /// path's URL, with the token in the authorization header.
    pub fn read_request(&self, path: &str) -> (r: Result<Request<()>, Error>)
        ensures
            r is Ok <==> request_accepted(self@, path@),
            r is Ok ==> r->Ok_0 == fetch_request(self@, path@),
            r is Err ==> r->Err_0 is CreateRequest,
    {
        proof {
            reveal_strlit("authorization");
            self.lemma_authorization_accepted();
        }
        match get_request(Self::endpoint(path), AUTHORIZATION, self.authorization()) {
            Ok(request) => Ok(request),
            Err(e) => Err(Error::CreateRequest(e)),
        }
    }

    /// What a store returns, given the status the service answered with, or
    /// why the request could not be sent: `true` exactly for a 2xx status,
    /// `false` for any other, and a `SendRequest` error for a failed send.
    pub fn create_response(sent: Result<u16, isahc::Error>) -> (r: Result<bool, Error>)
        ensures
            match sent {
                Ok(status) => r == Ok::<bool, Error>(is_success(status)),
                Err(e) => r == Err::<bool, Error>(Error::SendRequest(e)),
            },
    {
        match sent {
            Ok(status) => Ok(200 <= status && status < 300),
            Err(e) => Err(Error::SendRequest(e)),
        }
    }

    /// The document in a response body: its decoding when the body is a JSON
    /// document, a `JSONResponse` error when it is not.
    pub fn decode_document(body: &[u8]) -> (r: Result<Value, Error>)
        ensures
            r is Ok <==> is_json_document(body@),
            r is Ok ==> decoded_of(body@) == Some(r->Ok_0),
            r is Err ==> r->Err_0 is JSONResponse,
    {
        match decode(body) {
            Ok(document) => Ok(document),
            Err(e) => Err(Error::JSONResponse(e)),
        }
    }

    /// What a fetch returns, given the body the service answered with, or why
    /// the request could not be sent: a failed send is a `SendRequest` error,
    /// and a body is decoded as by `decode_document`.
    pub fn read_response(sent: Result<Vec<u8>, isahc::Error>) -> (r: Result<Value, Error>)
        ensures
            match sent {
                Ok(body) => {
                    &&& r is Ok <==> is_json_document(body@)
                    &&& r is Ok ==> decoded_of(body@) == Some(r->Ok_0)
                    &&& r is Err ==> r->Err_0 is JSONResponse
                },
                Err(e) => r == Err::<Value, Error>(Error::SendRequest(e)),
            },
    {
        match sent {
            Ok(body) => Self::decode_document(body.as_slice()),
            Err(e) => Err(Error::SendRequest(e)),
        }
    }
}

} // verus!
