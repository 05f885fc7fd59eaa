use fios_stats::auth::SessionCredential;
use fios_stats::fetch::{json_content_type, AuthClient};

fn client() -> AuthClient {
    let credential = SessionCredential {
        xsrf_token: String::from("tok-1"),
        session_id: 1234,
    };
    AuthClient::new(String::from("https://myfiosgateway.com/api/"), &credential)
}

#[test]
fn request_carries_url_and_both_headers() {
    let r = client().request_for("network/1");
    assert_eq!(r.url, "https://myfiosgateway.com/api/network/1");
    assert_eq!(r.headers.len(), 2);
    assert_eq!(r.headers[0], (String::from("X-XSRF-TOKEN"), String::from("tok-1")));
    assert_eq!(r.headers[1], (String::from("Cookie"), String::from("Session=1234;")));
}

#[test]
fn headers_do_not_depend_on_the_path() {
    let c = client();
    let a = c.request_for("network/1");
    let b = c.request_for("logout");
    assert_eq!(a.headers, b.headers);
    assert_eq!(b.url, "https://myfiosgateway.com/api/logout");
}

#[test]
fn content_type_is_the_protocol_literal() {
    assert_eq!(json_content_type(), "application/json;charset=UTF-8");
}
