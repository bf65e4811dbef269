//! The gateway's request and response shapes, as plain values, and the two
//! canned responses the service answers out-of-band conditions with.

use vstd::prelude::*;
use vstd::string::StrSliceExecFns;
use vstd::string::StringExecFns;

verus! {

/// One header: its name and its value.
pub struct HeaderField(pub String, pub String);

/// A read-only gateway request.
pub struct HttpRequest {
    pub method: String,
    pub url: String,
    pub headers: Vec<HeaderField>,
    pub body: Vec<u8>,
    pub certificate_version: Option<u16>,
}

/// A state-changing gateway request.
pub struct HttpUpdateRequest {
    pub method: String,
    pub url: String,
    pub headers: Vec<HeaderField>,
    pub body: Vec<u8>,
}

pub type StreamingToken = String;

/// One chunk of a streamed response body.
pub struct StreamingCallbackHttpResponse {
    pub body: Vec<u8>,
    pub token: Option<StreamingToken>,
}

/// A reference to the gateway method that serves further chunks: the
/// serving principal, and the method's name.
pub struct CallbackFunc {
    pub principal_id: Vec<u8>,
    pub method: String,
}

/// How the rest of a response body is delivered.
pub enum StreamingStrategy {
    Callback { callback: CallbackFunc, token: StreamingToken },
}

/// A gateway response.
pub struct HttpResponse {
    pub status_code: u16,
    pub headers: Vec<HeaderField>,
    pub body: Vec<u8>,
    pub upgrade: Option<bool>,
    pub streaming_strategy: Option<StreamingStrategy>,
}

/// The plain `Ok` answer, sent when the update must not be retried.
pub fn ok200() -> (r: HttpResponse)
    ensures
        r.status_code == 200,
        r.headers@.len() == 1,
        r.headers@[0].0@ == "content-type"@,
        r.headers@[0].1@ == "text/plain"@,
        r.body.deep_view() == "Ok"@.map_values(|c: char| c as u8),
        r.upgrade == Some(false),
        r.streaming_strategy is None,
{
    let mut headers: Vec<HeaderField> = Vec::new();
    headers.push(HeaderField(String::from_str("content-type"), String::from_str("text/plain")));
    let body = "Ok".as_bytes_vec();
    proof {
        reveal_strlit("Ok");
        vstd::string::is_ascii_spec_bytes("Ok");
        assert("Ok".is_ascii());
        assert(body@ =~= "Ok"@.map_values(|c: char| c as u8));
        assert(body.deep_view() =~= body@);
    }
    HttpResponse {
        status_code: 200,
        headers,
        body,
        upgrade: Some(false),
        streaming_strategy: None,
    }
}

/// The failure answer: status 500, with the cause (or a fixed text),
/// UTF-8 encoded, as its body.
pub fn error500(err: Option<String>) -> (r: HttpResponse)
    ensures
        r.status_code == 500,
        r.headers@.len() == 0,
        match err {
            Option::Some(e) => r.body.deep_view() == vstd::utf8::encode_utf8(e@),
            Option::None => r.body.deep_view() == vstd::utf8::encode_utf8(
                "Internal Server Error"@,
            ),
        },
        r.upgrade == Some(false),
        r.streaming_strategy is None,
{
    let body = match &err {
        Option::Some(e) => {
            let es = e.as_str();
            let b = es.as_bytes_vec();
            proof {
                assert(b.deep_view() =~= b@);
            }
            b
        },
        Option::None => {
            let b = "Internal Server Error".as_bytes_vec();
            proof {
                assert(b.deep_view() =~= b@);
            }
            b
        },
    };
    HttpResponse {
        status_code: 500,
        headers: Vec::new(),
        body,
        upgrade: Some(false),
        streaming_strategy: None,
    }
}

} // verus!
