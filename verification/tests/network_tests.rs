use bili_player::errors::PlayerError;
use bili_player::network::extract_audio_url;

#[test]
fn extracts_url_from_provider_reply() {
    let body = r#"{
        "code": 0,
        "data": {
            "dash": {
                "audio": [
                    { "id": 30280, "baseUrl": "https://cdn.example/first.m4s" },
                    { "id": 30216, "baseUrl": "https://cdn.example/second.m4s" }
                ]
            }
        }
    }"#;
    assert_eq!(
        extract_audio_url(body).unwrap(),
        "https://cdn.example/first.m4s"
    );
}

#[test]
fn missing_field_is_a_fetch_failure() {
    let body = r#"{ "code": 0, "data": { "dash": { "audio": [] } } }"#;
    assert_eq!(extract_audio_url(body).unwrap_err(), PlayerError::FetchFailed);
    let body = r#"{ "data": {} }"#;
    assert_eq!(extract_audio_url(body).unwrap_err(), PlayerError::FetchFailed);
}

#[test]
fn unparsable_body_is_a_fetch_failure() {
    assert_eq!(
        extract_audio_url("not json at all").unwrap_err(),
        PlayerError::FetchFailed
    );
}

#[test]
fn non_string_url_is_a_fetch_failure() {
    let body = r#"{ "data": { "dash": { "audio": [ { "baseUrl": 7 } ] } } }"#;
    assert_eq!(extract_audio_url(body).unwrap_err(), PlayerError::FetchFailed);
}
