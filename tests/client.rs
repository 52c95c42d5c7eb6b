use pasty_rs::client::{check_status, Method, UnauthenticatedClient};
use pasty_rs::error::{ClientError, HttpError};
use pasty_rs::model::{CreatePasteRequest, Metadata, PfEncryption};

const HOST: &str = "https://pasty.example.org";

fn client() -> UnauthenticatedClient {
    UnauthenticatedClient::new(HOST).unwrap()
}

fn aes() -> Metadata {
    Metadata {
        pf_encryption: Some(PfEncryption {
            alg: "AES".to_string(),
            iv: "abc".to_string(),
        }),
    }
}

#[test]
fn new_accepts_a_valid_url() {
    let c = client();
    assert_eq!(c.host(), "https://pasty.example.org/");
}

#[test]
fn new_rejects_the_empty_string() {
    let r = UnauthenticatedClient::new("");
    assert!(matches!(r, Err(ClientError::UrlParse(url::ParseError::RelativeUrlWithoutBase))));
}

#[test]
fn new_rejects_a_host_without_scheme() {
    let r = UnauthenticatedClient::new("pasty.example.org");
    assert!(matches!(r, Err(ClientError::UrlParse(_))));
}

#[test]
fn new_rejects_an_invalid_port() {
    let r = UnauthenticatedClient::new("https://pasty.example.org:99999");
    assert!(matches!(r, Err(ClientError::UrlParse(url::ParseError::InvalidPort))));
}

#[test]
fn info_request_targets_the_info_endpoint() {
    let r = client().application_information_request().unwrap();
    assert_eq!(r.method, Method::Get);
    assert_eq!(r.url, "https://pasty.example.org/api/v2/info");
    assert!(r.bearer_token.is_none());
    assert!(r.body.is_none());
}

#[test]
fn paste_request_is_an_anonymous_get_of_the_id() {
    let r = client().paste_request("abc123").unwrap();
    assert_eq!(r.method, Method::Get);
    assert_eq!(r.url, "https://pasty.example.org/api/v2/pastes/abc123");
    assert!(r.bearer_token.is_none());
    assert!(r.body.is_none());
}

#[test]
fn paste_request_replaces_the_host_path() {
    let c = UnauthenticatedClient::new("http://localhost:8080/some/path?q=1").unwrap();
    let r = c.paste_request("missing").unwrap();
    assert_eq!(r.url, "http://localhost:8080/api/v2/pastes/missing");
}

#[test]
fn create_request_body_without_metadata() {
    let r = client().create_paste_request("hello".to_string(), None).unwrap();
    assert_eq!(r.method, Method::Post);
    assert_eq!(r.url, "https://pasty.example.org/api/v2/pastes");
    assert!(r.bearer_token.is_none());
    assert_eq!(r.body.unwrap(), "{\"content\":\"hello\",\"metadata\":null}");
}

#[test]
fn create_request_body_with_metadata() {
    let r = client().create_paste_request("x".to_string(), Some(aes())).unwrap();
    assert_eq!(
        r.body.unwrap(),
        "{\"content\":\"x\",\"metadata\":{\"pf_encryption\":{\"alg\":\"AES\",\"iv\":\"abc\"}}}"
    );
}

#[test]
fn create_request_body_escapes_content() {
    let r = client().create_paste_request("a\"b\n".to_string(), None).unwrap();
    assert_eq!(r.body.unwrap(), "{\"content\":\"a\\\"b\\n\",\"metadata\":null}");
}

#[test]
fn metadata_without_encryption_encodes_null() {
    let m = Metadata { pf_encryption: None };
    assert_eq!(m.to_json(), "{\"pf_encryption\":null}");
}

#[test]
fn metadata_survives_a_json_round_trip() {
    let text = aes().to_json();
    let v: serde_json::Value = serde_json::from_str(&text).unwrap();
    let e = v.get("pf_encryption").unwrap();
    let back = Metadata {
        pf_encryption: Some(PfEncryption {
            alg: e.get("alg").unwrap().as_str().unwrap().to_string(),
            iv: e.get("iv").unwrap().as_str().unwrap().to_string(),
        }),
    };
    assert_eq!(back.to_json(), text);
    let enc = back.pf_encryption.unwrap();
    assert_eq!(enc.alg, "AES");
    assert_eq!(enc.iv, "abc");
}

#[test]
fn request_record_encodes_like_the_planned_body() {
    let req = CreatePasteRequest {
        content: "hello".to_string(),
        metadata: None,
    };
    assert_eq!(req.to_json(), "{\"content\":\"hello\",\"metadata\":null}");
}

#[test]
fn authenticate_keeps_host_and_token() {
    let a = client().authenticate("tok".to_string());
    assert_eq!(a.inner().host(), "https://pasty.example.org/");
    assert_eq!(a.token(), "tok");
}

#[test]
fn update_request_adds_only_the_bearer_token() {
    let a = client().authenticate("secret".to_string());
    let u = a
        .update_paste_request("abc", "hello".to_string(), None)
        .unwrap();
    let c = a.inner().create_paste_request("hello".to_string(), None).unwrap();
    assert_eq!(u.method, Method::Patch);
    assert_eq!(u.url, "https://pasty.example.org/api/v2/pastes/abc");
    assert_eq!(u.bearer_token.as_deref(), Some("secret"));
    assert_eq!(u.body, c.body);
}

#[test]
fn delete_request_has_token_and_no_body() {
    let a = client().authenticate("secret".to_string());
    let d = a.delete_paste_request("abc").unwrap();
    assert_eq!(d.method, Method::Delete);
    assert_eq!(d.url, "https://pasty.example.org/api/v2/pastes/abc");
    assert_eq!(d.bearer_token.as_deref(), Some("secret"));
    assert!(d.body.is_none());
}

#[test]
fn success_statuses_pass() {
    assert!(check_status(200).is_ok());
    assert!(check_status(204).is_ok());
    assert!(check_status(299).is_ok());
}

#[test]
fn not_found_is_a_transport_error() {
    let r = check_status(404);
    assert!(matches!(r, Err(ClientError::Reqwest(HttpError::Status(404)))));
}

#[test]
fn other_statuses_fail() {
    assert!(matches!(check_status(500), Err(ClientError::Reqwest(HttpError::Status(500)))));
    assert!(matches!(check_status(401), Err(ClientError::Reqwest(HttpError::Status(401)))));
    assert!(matches!(check_status(199), Err(ClientError::Reqwest(HttpError::Status(199)))));
    assert!(matches!(check_status(300), Err(ClientError::Reqwest(HttpError::Status(300)))));
}
