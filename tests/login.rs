use rustyfin::auth::{AuthError, AuthStep, Jellyfin, Reply};
use rustyfin::model::ClientData;
use rustyfin::request::{Method, ServerConfig};
use rustyfin::store::{get_user, save_user, SavedUser};

fn client() -> Jellyfin {
    Jellyfin::new(ServerConfig {
        base_url: "https://media.example.org".to_string(),
        client_name: "Rustyfin".to_string(),
        version: "0.0.1".to_string(),
        device: "Windows".to_string(),
        device_id: "1".to_string(),
    })
}

fn payload(token: Option<&str>) -> ClientData {
    let mut c = ClientData::default();
    c.access_token = token.map(|t| t.to_string());
    c
}

fn pairs(fields: &[rustyfin::request::Field]) -> Vec<(String, String)> {
    fields.iter().map(|f| (f.name.clone(), f.value.clone())).collect()
}

#[test]
fn login_request_carries_credentials_and_headers() {
    let r = client().authenticate_user("alice", "correct");
    assert_eq!(r.method, Method::Post);
    assert_eq!(r.url, "https://media.example.org/users/AuthenticateByName");
    assert_eq!(r.timeout_secs, 3);
    assert_eq!(
        pairs(&r.body),
        vec![
            ("Username".to_string(), "alice".to_string()),
            ("Pw".to_string(), "correct".to_string()),
        ]
    );
    let expected: Vec<(String, String)> = vec![
        ("accept", "application/json"),
        ("content-type", "application/json"),
        ("X-Application", "Rustyfin/0.0.1"),
        ("Accept-Charset", "UTF-8,*"),
        ("Accept-encoding", "gzip"),
        ("User-Agent", "Rustyfin/0.0.1"),
        (
            "X-Emby-Authorization",
            "MediaBrowser Client='Rustyfin', Device='Windows', DeviceId='1', Version='0.0.1'",
        ),
    ]
    .into_iter()
    .map(|(a, b)| (a.to_string(), b.to_string()))
    .collect();
    assert_eq!(pairs(&r.headers), expected);
}

#[test]
fn empty_credentials_are_sent_as_they_are() {
    let r = client().authenticate_user("", "");
    assert_eq!(
        pairs(&r.body),
        vec![("Username".to_string(), String::new()), ("Pw".to_string(), String::new())]
    );
}

#[test]
fn server_info_request_is_a_plain_get() {
    let r = client().server_info_request();
    assert_eq!(r.method, Method::Get);
    assert_eq!(r.url, "https://media.example.org/System/Info/Public");
    assert_eq!(pairs(&r.headers), vec![("Accept".to_string(), "application/json".to_string())]);
    assert!(r.body.is_empty());
    assert_eq!(r.timeout_secs, 3);
}

#[test]
fn status_200_reads_the_body() {
    assert_eq!(Jellyfin::on_reply(Reply::Status(200)), AuthStep::ReadBody);
}

#[test]
fn status_401_is_unauthorized() {
    assert_eq!(Jellyfin::on_reply(Reply::Status(401)), AuthStep::Fail(AuthError::Unauthorized));
}

#[test]
fn other_statuses_are_transport_failures() {
    for code in [0u16, 201, 400, 403, 404, 500, 503, 65535] {
        assert_eq!(
            Jellyfin::on_reply(Reply::Status(code)),
            AuthStep::Fail(AuthError::TransportFailure)
        );
    }
}

#[test]
fn unreachable_server_is_a_transport_failure() {
    let r = client().authenticate_user("alice", "correct");
    assert_eq!(r.timeout_secs, 3);
    assert_eq!(Jellyfin::on_reply(Reply::Unreachable), AuthStep::Fail(AuthError::TransportFailure));
}

#[test]
fn undecodable_body_is_a_decode_failure_and_saves_nothing() {
    let done = Jellyfin::on_body(None);
    assert!(done.save.is_none());
    assert_eq!(done.result, Err(AuthError::DecodeFailure));
}

#[test]
fn decoded_body_is_saved_and_authenticates() {
    let c = payload(Some("tok-123"));
    let done = Jellyfin::on_body(Some(c.clone()));
    assert_eq!(done.save, Some(c));
    assert_eq!(done.result, Ok("User authenticated".to_string()));
}

#[test]
fn alice_correct_login_then_load() {
    let request = client().authenticate_user("alice", "correct");
    assert_eq!(request.body[0].value, "alice");
    assert_eq!(request.body[1].value, "correct");
    assert_eq!(Jellyfin::on_reply(Reply::Status(200)), AuthStep::ReadBody);
    let done = Jellyfin::on_body(Some(payload(Some("tok-123"))));
    assert_eq!(done.result, Ok("User authenticated".to_string()));
    let written = save_user(&done.save.unwrap()).unwrap();
    assert_eq!(written, "tok-123");
    let loaded = get_user(Ok(vec![SavedUser::new(1, written)])).unwrap();
    assert_eq!(loaded.accesstoken, "tok-123");
    assert_eq!(loaded.id, 1);
}

#[test]
fn alice_wrong_login_then_load_is_not_found() {
    let request = client().authenticate_user("alice", "wrong");
    assert_eq!(request.body[1].value, "wrong");
    assert_eq!(Jellyfin::on_reply(Reply::Status(401)), AuthStep::Fail(AuthError::Unauthorized));
    assert_eq!(get_user(Ok(Vec::new())), Err(rustyfin::store::StoreError::NotFound));
}
