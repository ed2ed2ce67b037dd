use asset_upload::api::{Creator, CreatorError, CreatorType, RobloxApiError};
use asset_upload::commands::upload_image::asset_url;
use asset_upload::json::Json;
use asset_upload::text::{find_bytes, to_decimal};

#[test]
fn decimal_of_small_and_large_numbers() {
    assert_eq!(to_decimal(0), "0");
    assert_eq!(to_decimal(7), "7");
    assert_eq!(to_decimal(10), "10");
    assert_eq!(to_decimal(1234567890), "1234567890");
    assert_eq!(to_decimal(u64::MAX), "18446744073709551615");
}

#[test]
fn bytes_are_found_where_they_stand() {
    assert!(find_bytes(b"the image failed moderation today", b"image failed moderation"));
    assert!(find_bytes(b"image failed moderation", b"image failed moderation"));
    assert!(!find_bytes(b"image failed moderatio", b"image failed moderation"));
    assert!(!find_bytes(b"", b"x"));
    assert!(find_bytes(b"", b""));
    assert!(find_bytes(b"abc", b""));
    assert!(find_bytes(b"aab", b"ab"));
    assert!(!find_bytes(b"aab", b"ba"));
}

#[test]
fn asset_url_is_scheme_and_decimal_id() {
    assert_eq!(asset_url(42), "rbxassetid://42");
    assert_eq!(asset_url(99), "rbxassetid://99");
    assert_eq!(asset_url(u64::MAX), "rbxassetid://18446744073709551615");
}

#[test]
fn creator_type_is_read_from_four_spellings() {
    assert_eq!(CreatorType::from_str("user"), Ok(CreatorType::User));
    assert_eq!(CreatorType::from_str("User"), Ok(CreatorType::User));
    assert_eq!(CreatorType::from_str("group"), Ok(CreatorType::Group));
    assert_eq!(CreatorType::from_str("Group"), Ok(CreatorType::Group));
    assert_eq!(CreatorType::from_str("USER"), Err(CreatorError {}));
    assert_eq!(CreatorType::from_str(""), Err(CreatorError {}));
    assert_eq!(CreatorType::from_str("groups"), Err(CreatorError {}));
    assert_eq!(
        CreatorError {}.message(),
        "Invalid value for the CreatorType option! Must be 'user' or 'group'"
    );
    let creator = Creator { creator_type: CreatorType::Group, creator_id: 7 };
    assert_eq!(creator.creator_id, 7);
}

#[test]
fn errors_describe_themselves() {
    assert_eq!(
        RobloxApiError::ApiError { message: "timeout".to_string() }.message(),
        "Roblox API error: timeout"
    );
    assert_eq!(
        RobloxApiError::ResponseError { status: 404, body: "gone".to_string() }.message(),
        "Roblox API returned HTTP 404 with body: gone"
    );
    assert_eq!(
        RobloxApiError::BadResponseJson { body: "<html>".to_string() }.message(),
        "Roblox API returned success, but had malformed JSON response: <html>"
    );
    assert_eq!(RobloxApiError::BadRequestJson.message(), "Unable to convert request to JSON");
    assert_eq!(
        RobloxApiError::MissingCsrfToken.message(),
        "Request for CSRF token did not return an X-CSRF-Token header."
    );
    assert_eq!(RobloxApiError::Transport.message(), "Roblox API HTTP error");
    assert_eq!(RobloxApiError::InvalidHeader.message(), "Credential cannot be sent as an HTTP header");
    assert_eq!(RobloxApiError::MissingCredential.message(), "No API key or session cookie was found");
}

#[test]
fn json_fields_are_found_by_name() {
    let doc = Json::Object(vec![
        ("a".to_string(), Json::Number(Some(1))),
        ("b".to_string(), Json::Text("two".to_string())),
        ("a".to_string(), Json::Bool(true)),
        ("c".to_string(), Json::Number(None)),
    ]);
    assert_eq!(doc.get("a").and_then(|j| j.as_number()), Some(1));
    assert_eq!(doc.get("b").and_then(|j| j.as_text()).map(|t| t.as_str()), Some("two"));
    assert_eq!(doc.get("c").and_then(|j| j.as_number()), None);
    assert!(doc.get("c").is_some());
    assert!(doc.get("d").is_none());
    assert!(Json::List(vec![Json::Null]).get("a").is_none());
    assert_eq!(Json::Bool(false).as_flag(), Some(false));
    assert_eq!(Json::Null.as_flag(), None);
    assert_eq!(Json::Text("1".to_string()).as_number(), None);
    assert!(Json::Number(Some(1)).as_text().is_none());
}
