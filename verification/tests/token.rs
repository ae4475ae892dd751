use audio_capture::token::{
    parse_form_response, provider_named, request_form, same_text, status_is_success, value_or_raw,
    FormReader, Provider, TokenError,
};

#[test]
fn known_providers_have_endpoints() {
    assert_eq!(provider_named("google"), Ok(Provider::Google));
    assert_eq!(provider_named("github"), Ok(Provider::Github));
    assert_eq!(provider_named("gitlab"), Err(TokenError::UnsupportedProvider));
    assert_eq!(provider_named("Google"), Err(TokenError::UnsupportedProvider));
    assert_eq!(provider_named(""), Err(TokenError::UnsupportedProvider));
    assert_eq!(Provider::Google.token_url(), "https://oauth2.googleapis.com/token");
    assert_eq!(Provider::Github.token_url(), "https://github.com/login/oauth/access_token");
}

#[test]
fn github_takes_basic_auth_and_answers_with_a_form() {
    assert!(Provider::Github.uses_basic_auth());
    assert!(Provider::Github.uses_form_response());
    assert!(!Provider::Google.uses_basic_auth());
    assert!(!Provider::Google.uses_form_response());
}

fn pairs(provider: Provider) -> Vec<(String, String)> {
    request_form(provider, "the-code", "the-client", "the-password", "app://back")
        .into_iter()
        .map(|f| (f.name, f.value))
        .collect()
}

#[test]
fn request_form_carries_the_secret_only_for_google() {
    let common = vec![
        ("grant_type".to_string(), "authorization_code".to_string()),
        ("code".to_string(), "the-code".to_string()),
        ("client_id".to_string(), "the-client".to_string()),
        ("redirect_uri".to_string(), "app://back".to_string()),
    ];
    assert_eq!(pairs(Provider::Github), common);
    let mut with_secret = common.clone();
    with_secret.push(("client_secret".to_string(), "the-password".to_string()));
    assert_eq!(pairs(Provider::Google), with_secret);
}

#[test]
fn success_is_the_two_hundreds() {
    assert!(status_is_success(200));
    assert!(status_is_success(204));
    assert!(status_is_success(299));
    assert!(!status_is_success(199));
    assert!(!status_is_success(300));
    assert!(!status_is_success(404));
}

#[test]
fn form_response_is_read_field_by_field() {
    let r = parse_form_response("access_token=gho_abc&scope=repo%2Cuser&token_type=bearer").unwrap();
    assert_eq!(r.access_token, "gho_abc");
    assert_eq!(r.scope.as_deref(), Some("repo,user"));
    assert_eq!(r.token_type.as_deref(), Some("bearer"));
    assert_eq!(r.expires_in, None);
    assert_eq!(r.refresh_token, None);
}

#[test]
fn form_values_are_percent_decoded() {
    let r = parse_form_response("access_token=a%20b%3Dc").unwrap();
    assert_eq!(r.access_token, "a b=c");
    let plus = parse_form_response("access_token=a+b").unwrap();
    assert_eq!(plus.access_token, "a+b");
    let utf8 = parse_form_response("access_token=%C3%A9").unwrap();
    assert_eq!(utf8.access_token, "\u{e9}");
}

#[test]
fn undecodable_value_is_kept_as_it_stands() {
    let r = parse_form_response("access_token=%FF%FE").unwrap();
    assert_eq!(r.access_token, "%FF%FE");
}

#[test]
fn missing_access_token_is_an_error() {
    assert_eq!(parse_form_response("").err(), Some(TokenError::MissingAccessToken));
    assert_eq!(parse_form_response("scope=repo&token_type=bearer").err(), Some(TokenError::MissingAccessToken));
    assert_eq!(parse_form_response("access_token").err(), Some(TokenError::MissingAccessToken));
    assert_eq!(parse_form_response("error=bad_verification_code&error_description=x").err(), Some(TokenError::MissingAccessToken));
}

#[test]
fn key_ends_at_the_first_equals_sign() {
    let r = parse_form_response("access_token=a=b&&x&=y&scope=").unwrap();
    assert_eq!(r.access_token, "a=b");
    assert_eq!(r.scope.as_deref(), Some(""));
    assert_eq!(r.token_type, None);
}

#[test]
fn later_pair_overrides_earlier_one() {
    let r = parse_form_response("access_token=one&access_token=two&").unwrap();
    assert_eq!(r.access_token, "two");
}

#[test]
fn non_ascii_text_is_split_by_characters() {
    let r = parse_form_response("sc\u{f6}pe=1&access_token=\u{fc}ber&scope=\u{e9}t\u{e9}").unwrap();
    assert_eq!(r.access_token, "\u{fc}ber");
    assert_eq!(r.scope.as_deref(), Some("\u{e9}t\u{e9}"));
}

#[test]
fn reader_takes_pairs_one_at_a_time() {
    let mut reader = FormReader::new();
    reader.read_pair("token_type=bearer");
    reader.read_pair("ignored=1");
    reader.read_pair("access_token=t%2F1");
    let r = reader.finish().unwrap();
    assert_eq!(r.access_token, "t/1");
    assert_eq!(r.token_type.as_deref(), Some("bearer"));
    assert_eq!(r.scope, None);
    assert_eq!(FormReader::new().finish().err(), Some(TokenError::MissingAccessToken));
}

#[test]
fn value_falls_back_to_the_raw_text() {
    assert_eq!(value_or_raw("%zz", None), "%zz");
    assert_eq!(value_or_raw("%41", Some("A".to_string())), "A");
    assert!(same_text("abc", "abc"));
    assert!(!same_text("abc", "abd"));
    assert!(!same_text("abc", "ab"));
}
