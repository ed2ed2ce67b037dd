use asset_upload::api::cookie::{self, ImageUploadData, Phase, UploadResponse};
use asset_upload::api::{Creator, CreatorType, ImageData, RobloxApiClient, RobloxApiError};
use asset_upload::auth::{needs_discovery, resolve, Credential};
use asset_upload::commands::upload_image::asset_url;
use asset_upload::header::Secret;
use asset_upload::http::{Action, Body, Event, Method, Request, Response};
use asset_upload::json::Json;
use reqwest::header::HeaderValue;

fn group(id: u64) -> Creator {
    Creator { creator_type: CreatorType::Group, creator_id: id }
}

fn data(creator: Creator) -> ImageData<'static> {
    ImageData { name: "tree", description: "a tree", creator }
}

fn reply(status: u16, body: &str) -> Event {
    Event::Response(Response { status, csrf_token: None, body: body.to_string() })
}

fn reply_with_token(status: u16, token: &'static str, body: &str) -> Event {
    Event::Response(Response {
        status,
        csrf_token: Some(HeaderValue::from_static(token)),
        body: body.to_string(),
    })
}

fn sent(action: Action) -> Request {
    match action {
        Action::Send(request) => request,
        other => panic!("expected a request, got {:?}", other),
    }
}

fn failure(action: Action) -> RobloxApiError {
    match action {
        Action::Fail(error) => error,
        other => panic!("expected a failure, got {:?}", other),
    }
}

fn api_error(message: &str) -> RobloxApiError {
    RobloxApiError::ApiError { message: message.to_string() }
}

fn session_client(cookie: &str) -> RobloxApiClient {
    RobloxApiClient::from_credential(Credential::SessionCookie(Secret::new(cookie.to_string())))
}

fn headers(request: &Request) -> Vec<(String, Vec<u8>)> {
    request.headers.iter().map(|h| (h.name.clone(), h.value.as_bytes().to_vec())).collect()
}

fn query(request: &Request) -> Vec<(String, String)> {
    request.query.iter().map(|p| (p.name.clone(), p.value.clone())).collect()
}

fn pair(name: &str, value: &str) -> (String, String) {
    (name.to_string(), value.to_string())
}

fn header(name: &str, value: &str) -> (String, Vec<u8>) {
    (name.to_string(), value.as_bytes().to_vec())
}

/// A client that holds the token `t1` and whose upload request is out.
fn uploading_client(retry: bool) -> RobloxApiClient {
    let mut client = session_client("c");
    let first = if retry {
        client.upload_asset_with_moderation_retry(vec![1, 2, 3], data(group(7)))
    } else {
        client.upload_asset(vec![1, 2, 3], data(group(7)))
    };
    sent(first);
    sent(client.advance(reply_with_token(403, "t1", ""), 0));
    client
}

#[test]
fn session_with_csrf_dance() {
    let image: Vec<u8> = vec![137, 80, 78, 71];
    let mut client = session_client("c");
    let challenge = sent(client.upload_asset(image.clone(), data(group(7))));
    assert_eq!(challenge.method, Method::Post);
    assert_eq!(challenge.url, "https://auth.roblox.com/v2/logout");
    assert!(challenge.query.is_empty());
    assert!(matches!(challenge.body, Body::Empty));
    assert_eq!(headers(&challenge), vec![header("Cookie", ".ROBLOSECURITY=c")]);

    let upload = sent(client.advance(reply_with_token(403, "t1", "Token Validation Failed"), 0));
    assert_eq!(upload.method, Method::Post);
    assert_eq!(upload.url, "https://data.roblox.com/data/upload/json");
    assert_eq!(
        query(&upload),
        vec![
            pair("assetTypeId", "13"),
            pair("name", "tree"),
            pair("description", "a tree"),
            pair("groupId", "7"),
        ]
    );
    assert_eq!(
        headers(&upload),
        vec![
            header("Cookie", ".ROBLOSECURITY=c"),
            header("X-CSRF-Token", "t1"),
            header("Requester", "Client"),
            header("Content-Type", "*/*"),
        ]
    );
    assert!(matches!(&upload.body, Body::Bytes(b) if *b == image));

    match client.advance(reply(200, "{\"AssetId\":99}"), 0) {
        Action::Done(id) => {
            assert_eq!(id, 99);
            assert_eq!(asset_url(id), "rbxassetid://99");
        }
        other => panic!("expected the asset id, got {:?}", other),
    }
}

#[test]
fn session_user_upload_has_no_group_id() {
    let mut client = session_client("c");
    let creator = Creator { creator_type: CreatorType::User, creator_id: 5 };
    sent(client.upload_asset(vec![1], data(creator)));
    let upload = sent(client.advance(reply_with_token(403, "t1", ""), 0));
    assert_eq!(
        query(&upload),
        vec![pair("assetTypeId", "13"), pair("name", "tree"), pair("description", "a tree")]
    );
}

#[test]
fn session_challenge_without_token_is_fatal() {
    let mut client = session_client("c");
    sent(client.upload_asset(vec![1], data(group(7))));
    assert_eq!(failure(client.advance(reply(403, "Token Validation Failed"), 0)), RobloxApiError::MissingCsrfToken);
    // nothing is sent again: the upload is over
    assert_eq!(failure(client.advance(reply(200, "{\"AssetId\":1}"), 0)), api_error("unexpected event"));

    let mut direct = cookie::RobloxApiClient::new(Secret::new("c".to_string()));
    sent(direct.upload_image(ImageUploadData::from(vec![1], data(group(7)))));
    assert_eq!(direct.phase(), Phase::EnsuringCsrf);
    assert_eq!(failure(direct.advance(reply(403, ""))), RobloxApiError::MissingCsrfToken);
    assert_eq!(direct.phase(), Phase::Finished);
}

#[test]
fn session_refreshed_token_is_tried_once() {
    let mut client = uploading_client(false);
    let again = sent(client.advance(reply_with_token(403, "t2", ""), 0));
    assert_eq!(again.url, "https://data.roblox.com/data/upload/json");
    assert_eq!(headers(&again)[1], header("X-CSRF-Token", "t2"));
    // the request that was sent again is not sent a third time
    assert_eq!(
        failure(client.advance(reply_with_token(403, "t3", "still no"), 0)),
        RobloxApiError::ResponseError { status: 403, body: "still no".to_string() }
    );

    let mut works = uploading_client(false);
    sent(works.advance(reply_with_token(403, "t2", ""), 0));
    assert!(matches!(works.advance(reply(200, "{\"AssetId\":12}"), 0), Action::Done(12)));
}

#[test]
fn session_forbidden_without_token_is_an_error() {
    let mut client = uploading_client(false);
    assert_eq!(
        failure(client.advance(reply(403, "no"), 0)),
        RobloxApiError::ResponseError { status: 403, body: "no".to_string() }
    );
}

#[test]
fn session_moderation_retry_exhausted() {
    let mut client = uploading_client(true);
    let mut sleeps: Vec<u64> = Vec::new();
    let mut attempts = 1;
    let error = loop {
        match client.advance(reply(400, "{\"message\":\"the image failed moderation\"}"), 0) {
            Action::Wait(ms) => sleeps.push(ms),
            Action::Fail(error) => break error,
            other => panic!("expected a wait or a failure, got {:?}", other),
        }
        let upload = sent(client.advance(Event::Waited, 0));
        assert_eq!(upload.url, "https://data.roblox.com/data/upload/json");
        attempts += 1;
    };
    assert_eq!(error, api_error("moderation"));
    assert_eq!(attempts, 5);
    assert_eq!(sleeps, vec![5_000, 5_000, 5_000, 5_000]);
}

#[test]
fn session_moderation_retry_can_succeed() {
    let mut client = uploading_client(true);
    assert!(matches!(client.advance(reply(200, "{\"Moderated\":true}"), 0), Action::Wait(5_000)));
    sent(client.advance(Event::Waited, 0));
    assert!(matches!(client.advance(reply(200, "{\"AssetId\":8,\"Moderated\":false}"), 0), Action::Done(8)));
}

#[test]
fn session_plain_upload_does_not_retry_moderation() {
    let mut flagged = uploading_client(false);
    assert_eq!(
        failure(flagged.advance(reply(200, "{\"AssetId\":3,\"Moderated\":true}"), 0)),
        api_error("moderation")
    );
    let mut refused = uploading_client(false);
    assert_eq!(
        failure(refused.advance(reply(400, "image failed moderation"), 0)),
        api_error("moderation")
    );
}

#[test]
fn session_each_attempt_may_refresh_the_token_once() {
    let mut client = uploading_client(true);
    sent(client.advance(reply_with_token(403, "t2", ""), 0));
    assert!(matches!(client.advance(reply(400, "image failed moderation"), 0), Action::Wait(5_000)));
    sent(client.advance(Event::Waited, 0));
    let again = sent(client.advance(reply_with_token(403, "t3", ""), 0));
    assert_eq!(headers(&again)[1], header("X-CSRF-Token", "t3"));
}

#[test]
fn session_upload_failures() {
    assert_eq!(
        failure(uploading_client(false).advance(reply(500, "down"), 0)),
        RobloxApiError::ResponseError { status: 500, body: "down".to_string() }
    );
    assert_eq!(
        failure(uploading_client(false).advance(reply(400, "bad name"), 0)),
        RobloxApiError::ResponseError { status: 400, body: "bad name".to_string() }
    );
    assert_eq!(
        failure(uploading_client(false).advance(reply(200, "image failed moderation"), 0)),
        RobloxApiError::BadResponseJson { body: "image failed moderation".to_string() }
    );
    assert_eq!(
        failure(uploading_client(false).advance(reply(200, "{\"Success\":true}"), 0)),
        RobloxApiError::BadResponseJson { body: "{\"Success\":true}".to_string() }
    );
    assert_eq!(failure(uploading_client(false).advance(Event::TransportFailure, 0)), RobloxApiError::Transport);
    assert_eq!(failure(uploading_client(false).advance(Event::Waited, 0)), api_error("unexpected event"));
}

#[test]
fn session_never_reports_asset_id_zero() {
    assert_eq!(
        failure(uploading_client(false).advance(reply(200, "{\"AssetId\":0}"), 0)),
        RobloxApiError::BadResponseJson { body: "{\"AssetId\":0}".to_string() }
    );
}

#[test]
fn session_cookie_must_be_legal_in_a_header() {
    let mut client = session_client("bad\r\ncookie");
    assert_eq!(failure(client.upload_asset(vec![1], data(group(7)))), RobloxApiError::InvalidHeader);
}

#[test]
fn session_error_does_not_hold_the_cookie() {
    let cookie = "_|WARNING:-DO-NOT-SHARE-THIS.|_0123456789ABCDEF";
    let mut client = session_client(cookie);
    sent(client.upload_asset(vec![1], data(group(7))));
    let missing = failure(client.advance(reply(403, "denied"), 0));
    assert!(!missing.message().contains(cookie));
    assert!(!format!("{:?}", missing).contains(cookie));
    let mut other = session_client(cookie);
    sent(other.upload_asset(vec![1], data(group(7))));
    sent(other.advance(reply_with_token(403, "t1", ""), 0));
    let refused = failure(other.advance(reply(500, "down"), 0));
    assert!(!refused.message().contains(cookie));
    assert!(!format!("{:?}", refused).contains(cookie));
}

#[test]
fn session_requests_do_not_show_the_cookie_in_debug_output() {
    let cookie = "_|WARNING:-DO-NOT-SHARE-THIS.|_0123456789ABCDEF";
    let mut client = session_client(cookie);
    let challenge = client.upload_asset(vec![1], data(group(7)));
    assert!(!format!("{:?}", challenge).contains(cookie));
    assert!(sent(challenge).headers[0].value.is_sensitive());
    let upload = client.advance(reply_with_token(403, "token-0123456789", ""), 0);
    let shown = format!("{:?}", upload);
    assert!(!shown.contains(cookie));
    assert!(!shown.contains("token-0123456789"));
    let request = sent(upload);
    let marks: Vec<bool> = request.headers.iter().map(|h| h.value.is_sensitive()).collect();
    assert_eq!(marks, vec![true, true, false, false]);
}

#[test]
fn session_token_is_kept_for_the_next_upload() {
    let mut client = cookie::RobloxApiClient::new(Secret::new("c".to_string()));
    sent(client.upload_image(ImageUploadData::from(vec![1], data(group(7)))));
    sent(client.advance(reply_with_token(403, "t1", "")));
    assert!(matches!(client.advance(reply(200, "{\"AssetId\":4}")), Action::Done(4)));
    // the second upload needs no new token
    let upload = sent(client.upload_image(ImageUploadData::from(vec![2], data(group(7)))));
    assert_eq!(upload.url, "https://data.roblox.com/data/upload/json");
    assert_eq!(headers(&upload)[1], header("X-CSRF-Token", "t1"));
    assert_eq!(client.phase(), Phase::Uploading);
}

#[test]
fn session_reply_is_read_from_its_document() {
    let doc = Json::Object(vec![
        ("AssetId".to_string(), Json::Number(Some(99))),
        ("BackingAssetId".to_string(), Json::Number(Some(100))),
    ]);
    assert_eq!(
        cookie::read_upload_response(&Some(doc)),
        Some(UploadResponse { asset_id: 99, backing_asset_id: Some(100) })
    );
    assert_eq!(cookie::read_upload_response(&None), None);
    let text = Json::Object(vec![("AssetId".to_string(), Json::Text("99".to_string()))]);
    assert_eq!(cookie::read_upload_response(&Some(text)), None);
    let flagged = Json::Object(vec![("Moderated".to_string(), Json::Bool(true))]);
    assert!(cookie::read_moderated_flag(&Some(flagged)));
    let clean = Json::Object(vec![("Moderated".to_string(), Json::Bool(false))]);
    assert!(!cookie::read_moderated_flag(&Some(clean)));
    assert!(!cookie::read_moderated_flag(&Some(Json::Null)));
}

#[test]
fn no_credentials() {
    assert!(needs_discovery(&None, &None));
    match resolve(None, None, None) {
        Err(error) => assert_eq!(error, RobloxApiError::MissingCredential),
        Ok(found) => panic!("expected no credential, got {:?}", found),
    }
}

#[test]
fn api_key_wins_over_cookies() {
    let key = || Some(Secret::new("key".to_string()));
    let given = || Some(Secret::new("given".to_string()));
    let found = || Some(Secret::new("found".to_string()));
    assert!(!needs_discovery(&key(), &None));
    assert!(!needs_discovery(&None, &given()));
    assert!(!needs_discovery(&key(), &given()));

    let mut with_key = RobloxApiClient::from_credential(resolve(key(), given(), found()).expect("a key was given"));
    assert!(matches!(with_key, RobloxApiClient::Web(_)));
    let create = sent(with_key.upload_asset(vec![1], data(group(7))));
    assert_eq!(headers(&create), vec![header("x-api-key", "key")]);

    let mut with_cookie = RobloxApiClient::from_credential(resolve(None, given(), found()).expect("a cookie was given"));
    assert!(matches!(with_cookie, RobloxApiClient::Cookie(_)));
    let challenge = sent(with_cookie.upload_asset(vec![1], data(group(7))));
    assert_eq!(headers(&challenge), vec![header("Cookie", ".ROBLOSECURITY=given")]);

    let mut discovered = RobloxApiClient::from_credential(resolve(None, None, found()).expect("a cookie was found"));
    let challenge = sent(discovered.upload_asset(vec![1], data(group(7))));
    assert_eq!(headers(&challenge), vec![header("Cookie", ".ROBLOSECURITY=found")]);
}
