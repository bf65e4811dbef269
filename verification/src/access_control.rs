//! Authorization of inbound gateway requests: a request is served only
//! when it carries the shared secret under the expected header.

use vstd::prelude::*;

use crate::fs_path::str_eq;
use crate::http::HttpUpdateRequest;

verus! {

/// The lowercased form of a string.
pub uninterp spec fn lower_of(s: Seq<char>) -> Seq<char>;

/// Relies on str::to_lowercase: the result depends on the characters
/// alone.
#[verifier::external_body]
fn to_lowercase(s: &str) -> (r: String)
    ensures
        r@ == lower_of(s@),
{
    s.to_lowercase()
}

/// Whether one header carries the secret: its lowercased name is the
/// expected one and its value is the token itself.
pub open spec fn header_authorizes(name: Seq<char>, value: Seq<char>, token: Seq<char>) -> bool {
    lower_of(name) == "x-telegram-bot-api-secret-token"@ && value == token
}

/// Checks requests against the configured shared secret.
pub struct AccessControlServiceImpl {
    secret_token: String,
}

impl View for AccessControlServiceImpl {
    type V = Seq<char>;

    closed spec fn view(&self) -> Seq<char> {
        self.secret_token@
    }
}

impl AccessControlServiceImpl {
    /// A checker for the given shared secret.
    pub fn new(secret_token: String) -> (r: Self)
        ensures
            r@ == secret_token@,
    {
        AccessControlServiceImpl { secret_token }
    }

    /// Whether some header of the request carries the shared secret.
    pub fn assert_http_request_is_authorized(&self, req: &HttpUpdateRequest) -> (r: bool)
        ensures
            r == exists|i: int|
                0 <= i < req.headers@.len() && header_authorizes(
                    #[trigger] req.headers@[i].0@,
                    req.headers@[i].1@,
                    self@,
                ),
    {
        let mut i: usize = 0;
        while i < req.headers.len()
            invariant
                0 <= i <= req.headers@.len(),
                forall|k: int|
                    0 <= k < i ==> !header_authorizes(
                        #[trigger] req.headers@[k].0@,
                        req.headers@[k].1@,
                        self@,
                    ),
            decreases req.headers@.len() - i,
        {
            let lowered = to_lowercase(req.headers[i].0.as_str());
            if str_eq(lowered.as_str(), "x-telegram-bot-api-secret-token") && str_eq(
                req.headers[i].1.as_str(),
                self.secret_token.as_str(),
            ) {
                return true;
            }
            i = i + 1;
        }
        false
    }
}

} // verus!
