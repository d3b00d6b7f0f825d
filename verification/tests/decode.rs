use mammut::{decode, render_i64, render_u64, ApiError, Error};

fn envelope_of(body: &str) -> Result<ApiError, String> {
    let value: serde_json::Value = serde_json::from_str(body).map_err(|e| e.to_string())?;
    let error = value
        .get("error")
        .and_then(|e| e.as_str())
        .ok_or_else(|| "missing field `error`".to_string())?;
    let error_description =
        value.get("error_description").and_then(|d| d.as_str()).map(|d| d.to_string());
    Ok(ApiError { error: error.to_string(), error_description })
}

fn hashtags_of(body: &str) -> Result<Vec<String>, String> {
    let value: serde_json::Value = serde_json::from_str(body).map_err(|e| e.to_string())?;
    let tags = value
        .get("hashtags")
        .and_then(|h| h.as_array())
        .ok_or_else(|| "missing field `hashtags`".to_string())?;
    Ok(tags.iter().filter_map(|t| t.as_str()).map(|t| t.to_string()).collect())
}

#[test]
fn entity_wins_where_both_decode() {
    let body = "{\"hashtags\":[\"a\"],\"error\":\"odd\"}";
    assert_eq!(decode(hashtags_of(body), envelope_of(body)), Ok(vec!["a".to_string()]));
}

#[test]
fn search_result_decodes() {
    let body = "{\"accounts\":[],\"statuses\":[],\"hashtags\":[\"a\"]}";
    assert_eq!(decode(hashtags_of(body), envelope_of(body)), Ok(vec!["a".to_string()]));
}

#[test]
fn error_envelope_is_an_api_error() {
    let body = "{\"error\":\"Record not found\"}";
    assert_eq!(
        decode(hashtags_of(body), envelope_of(body)),
        Err(Error::Api(ApiError { error: "Record not found".to_string(), error_description: None }))
    );
}

#[test]
fn error_envelope_with_description() {
    let body = "{\"error\":\"invalid_grant\",\"error_description\":\"expired\"}";
    assert_eq!(
        decode(hashtags_of(body), envelope_of(body)),
        Err(Error::Api(ApiError {
            error: "invalid_grant".to_string(),
            error_description: Some("expired".to_string()),
        }))
    );
}

#[test]
fn body_that_is_neither_carries_the_first_failure() {
    let first: Result<u8, String> = Err("first".to_string());
    let second: Result<ApiError, String> = Err("second".to_string());
    assert_eq!(decode(first, second), Err(Error::Serde("first".to_string())));

    let body = "[1,2]";
    assert_eq!(
        decode(hashtags_of(body), envelope_of(body)),
        Err(Error::Serde("missing field `hashtags`".to_string()))
    );
}

#[test]
fn descriptions() {
    let api = Error::Api(ApiError { error: "Record not found".to_string(), error_description: None });
    assert_eq!(api.description(), "Record not found");
    assert_eq!(Error::Serde("bad".to_string()).description(), "bad");
    assert_eq!(Error::Http("down".to_string()).description(), "down");
    assert_eq!(Error::Io("eof".to_string()).description(), "eof");
    assert_eq!(Error::ClientIdRequired.description(), "ClientIdRequired");
    assert_eq!(Error::ClientSecretRequired.description(), "ClientSecretRequired");
    assert_eq!(Error::AccessTokenRequired.description(), "AccessTokenRequired");
    let parse = url::Url::parse("nope").unwrap_err();
    assert_eq!(Error::Url(parse).description(), parse.to_string());
}

#[test]
fn decimal_numerals() {
    assert_eq!(render_u64(0), "0");
    assert_eq!(render_u64(7), "7");
    assert_eq!(render_u64(10), "10");
    assert_eq!(render_u64(1234567890), "1234567890");
    assert_eq!(render_u64(u64::MAX), "18446744073709551615");
    assert_eq!(render_i64(0), "0");
    assert_eq!(render_i64(42), "42");
    assert_eq!(render_i64(-1), "-1");
    assert_eq!(render_i64(1497393079), "1497393079");
    assert_eq!(render_i64(i64::MAX), "9223372036854775807");
    assert_eq!(render_i64(i64::MIN), "-9223372036854775808");
}
