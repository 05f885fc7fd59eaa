//! The authenticated fetcher: builds every request against a protected
//! endpoint from one negotiated session credential. The transport lives
//! outside the library; what is verified here is the construction rule —
//! each request carries exactly the `X-XSRF-TOKEN` header and a
//! `Session=<id>;` cookie, fixed at client construction, whatever the
//! requested path.

use vstd::prelude::*;

use crate::auth::SessionCredential;
use crate::text::{spec_dec_digits, u64_to_dec};

verus! {

/// A client for protected endpoints: the API base and the negotiated
/// credential, fixed for the client's lifetime.
#[derive(Debug)]
pub struct AuthClient {
    base: String,
    xsrf_token: String,
    session_id: u32,
}

/// The mathematical content of an [`AuthClient`].
pub struct ClientModel {
    pub base: Seq<char>,
    pub xsrf_token: Seq<char>,
    pub session_id: u32,
}

impl View for AuthClient {
    type V = ClientModel;

    closed spec fn view(&self) -> ClientModel {
        ClientModel {
            base: self.base@,
            xsrf_token: self.xsrf_token@,
            session_id: self.session_id,
        }
    }
}

/// A GET request the driver is to perform: the full URL and the headers
/// to attach.
#[derive(Debug)]
pub struct HttpRequest {
    pub url: String,
    pub headers: Vec<(String, String)>,
}

/// The mathematical content of an [`HttpRequest`].
pub struct RequestModel {
    pub url: Seq<char>,
    pub headers: Seq<(Seq<char>, Seq<char>)>,
}

impl View for HttpRequest {
    type V = RequestModel;

    open spec fn view(&self) -> RequestModel {
        RequestModel {
            url: self.url@,
            headers: self.headers@.map_values(|p: (String, String)| (p.0@, p.1@)),
        }
    }
}

/// The session cookie header value: `Session=<id>;`.
pub open spec fn spec_session_cookie(session_id: u32) -> Seq<char> {
    "Session="@ + spec_dec_digits(session_id as nat) + ";"@
}

/// The two headers attached to every authenticated request — a function
/// of the client alone.
pub open spec fn spec_auth_headers(c: ClientModel) -> Seq<(Seq<char>, Seq<char>)> {
    seq![
        ("X-XSRF-TOKEN"@, c.xsrf_token),
        ("Cookie"@, spec_session_cookie(c.session_id)),
    ]
}

/// The request for a path: the base followed by the path, and the
/// client's fixed headers.
pub open spec fn spec_request(c: ClientModel, path: Seq<char>) -> RequestModel {
    RequestModel { url: c.base + path, headers: spec_auth_headers(c) }
}

impl AuthClient {
    /// Builds a client from the API base and a negotiated credential.
    pub fn new(base: String, credential: &SessionCredential) -> (r: AuthClient)
        ensures
            r@.base == base@,
            r@.xsrf_token == credential.xsrf_token@,
            r@.session_id == credential.session_id,
    {
        AuthClient {
            base,
            xsrf_token: credential.xsrf_token.clone(),
            session_id: credential.session_id,
        }
    }

    /// The request for a protected endpoint under the client's base.
    pub fn request_for(&self, path: &str) -> (r: HttpRequest)
        ensures
            r@ == spec_request(self@, path@),
    {
        let mut url = self.base.clone();
        url.append(path);
        let mut cookie = String::from_str("Session=");
        let dec = u64_to_dec(self.session_id as u64);
        cookie.append(dec.as_str());
        cookie.append(";");
        let mut headers: Vec<(String, String)> = Vec::new();
        headers.push((String::from_str("X-XSRF-TOKEN"), self.xsrf_token.clone()));
        headers.push((String::from_str("Cookie"), cookie));
        let r = HttpRequest { url, headers };
        proof {
            assert(r@.headers =~= spec_auth_headers(self@));
        }
        r
    }
}

/// The headers of an authenticated request do not depend on the
/// requested path: any two requests of one client carry the same pair.
pub proof fn lemma_auth_headers_uniform(c: ClientModel, p1: Seq<char>, p2: Seq<char>)
    ensures
        spec_request(c, p1).headers == spec_request(c, p2).headers,
{
}

/// The content type declared on the credential POST and on the sink
/// push.
pub fn json_content_type() -> (r: &'static str)
    ensures
        r@ == "application/json;charset=UTF-8"@,
{
    "application/json;charset=UTF-8"
}

} // verus!
