//! The client side request driver: what to send for an endpoint, and how a
//! reply is read back into a value.

use vstd::prelude::*;
use vstd::string::*;
use crate::codec::{compress, decode_text, decompress, encode_text, gunzip_of, gzip_of, json_text_of, json_text_parse};
use crate::http::{Headers, Method};
use crate::registry::EndpointInfo;

verus! {

/// Why a request produced no value. The caller's transport and completion
/// channel add their own failures to the ones found in a reply.
#[derive(Debug, Clone)]
pub enum ClientError {
    /// The server answered with this status and body instead of a value.
    Rejected(u16, Vec<u8>),
    /// The body was marked gzip but is no gzip stream.
    Corrupt(Vec<u8>),
    /// The payload is not the JSON of a value of the expected type.
    Undecodable(Vec<u8>),
    /// The transport failed.
    Transport(String),
    /// The completion channel closed before it carried a result.
    Dropped,
}

/// An outgoing request, ready for the transport.
#[derive(Debug)]
pub struct RequestPlan {
    pub method: Method,
    pub url: String,
    pub headers: Headers,
    pub body: Vec<u8>,
}

/// `{base}/{name}`.
pub open spec fn endpoint_url(base: Seq<char>, endpoint: EndpointInfo) -> Seq<char> {
    base + "/"@ + endpoint.name@
}

/// The headers that keep the connection open between requests.
pub open spec fn keep_alive_headers(headers: Headers) -> bool {
    &&& headers.entries@.len() == 2
    &&& headers.entries@[0].0@ == "Connection"@
    &&& headers.entries@[0].1@ == "Keep-Alive"@
    &&& headers.entries@[1].0@ == "Keep-Alive"@
    &&& headers.entries@[1].1@ == "timeout=600"@
}

/// The URL of an endpoint under `base`.
pub fn request_url(base: &str, endpoint: &EndpointInfo) -> (r: String)
    ensures
        r@ == endpoint_url(base@, *endpoint),
{
    proof {
        reveal_strlit("/");
    }
    let mut url = String::from_str(base);
    url.append("/");
    url.append(endpoint.name.as_str());
    url
}

/// The request for `endpoint` with its data already encoded as JSON: `PUT`
/// for an idempotent endpoint and `POST` otherwise, at `{base}/{name}`, with
/// keep-alive headers and the data as body.
pub fn plan_request(base: &str, endpoint: &EndpointInfo, data: Vec<u8>) -> (r: RequestPlan)
    ensures
        r.method == endpoint.spec_method(),
        r.url@ == endpoint_url(base@, *endpoint),
        keep_alive_headers(r.headers),
        r.body == data,
{
    proof {
        reveal_strlit("Connection");
        reveal_strlit("Keep-Alive");
        reveal_strlit("timeout=600");
    }
    let mut headers = Headers::new();
    headers.insert(String::from_str("Connection"), String::from_str("Keep-Alive"));
    headers.insert(String::from_str("Keep-Alive"), String::from_str("timeout=600"));
    RequestPlan { method: endpoint.method(), url: request_url(base, endpoint), headers, body: data }
}

/// The payload of a reply body: decompressed where it is marked gzip.
pub open spec fn reply_payload(gzipped: bool, body: Seq<u8>) -> Option<Seq<u8>> {
    if gzipped {
        gunzip_of(body)
    } else {
        Some(body)
    }
}

/// The text value that a reply carries, where it carries one.
pub open spec fn text_reply(status: u16, gzipped: bool, body: Seq<u8>) -> Option<Seq<char>> {
    if status != 200 {
        None
    } else {
        match reply_payload(gzipped, body) {
            Some(payload) => json_text_parse(payload),
            None => None,
        }
    }
}

/// Reads a reply to a request whose endpoint returns text.
pub fn read_text_reply(status: u16, gzipped: bool, body: Vec<u8>) -> (r: Result<String, ClientError>)
    ensures
        r is Ok <==> text_reply(status, gzipped, body@) is Some,
        r is Ok ==> r->Ok_0@ == text_reply(status, gzipped, body@)->0,
        status != 200 ==> (r matches Err(ClientError::Rejected(s, b)) && s == status && b@ == body@),
        status == 200 && reply_payload(gzipped, body@) is None ==> (r matches Err(
            ClientError::Corrupt(b),
        ) && b@ == body@),
        status == 200 && reply_payload(gzipped, body@) is Some && json_text_parse(
            reply_payload(gzipped, body@)->0,
        ) is None ==> (r matches Err(ClientError::Undecodable(b)) && b@ == reply_payload(
            gzipped,
            body@,
        )->0),
{
    if status != 200 {
        return Err(ClientError::Rejected(status, body));
    }
    let payload = if gzipped {
        match decompress(body.as_slice()) {
            Some(p) => p,
            None => {
                return Err(ClientError::Corrupt(body));
            },
        }
    } else {
        body
    };
    match decode_text(payload.as_slice()) {
        Some(text) => Ok(text),
        None => Err(ClientError::Undecodable(payload)),
    }
}

/// The body with which a server answers a text value: its JSON,
/// gzip-compressed. A client reads the same value back from it.
pub fn text_reply_body(text: &str) -> (r: Vec<u8>)
    ensures
        r@ == gzip_of(json_text_of(text@)),
        text_reply(200, true, r@) == Some(text@),
{
    let doc = encode_text(text);
    compress(doc.as_slice())
}

} // verus!
