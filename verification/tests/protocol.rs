use mpd_cover::auth::is_expired;
use mpd_cover::auth::update_token;
use mpd_cover::config::Config;
use mpd_cover::config::CoverConfig;
use mpd_cover::config::MpdConfig;
use mpd_cover::config::SpotifyConfig;
use mpd_cover::errors::AppError;
use mpd_cover::mpd::parse_greeting;
use mpd_cover::mpd::parse_kv_line;
use mpd_cover::mpd::parse_response;
use mpd_cover::resolver::parse_size;
use mpd_cover::spotify::exchange_code;
use mpd_cover::spotify::refresh_token;
use mpd_cover::spotify::substitute;
use mpd_cover::spotify::RefreshTokenResponse;
use mpd_cover::util::either_contains;
use mpd_cover::util::offset_time_from;

fn test_config(token: Option<(&str, &str, i64)>) -> Config {
    Config {
        spotify: SpotifyConfig {
            client_id: String::from("client-id"),
            client_secret: String::from("client-secret"),
            access_token: token.map(|t| String::from(t.0)),
            refresh_token: token.map(|t| String::from(t.1)),
            expires_at: token.map(|t| t.2),
        },
        mpd: MpdConfig { address: String::from("127.0.0.1"), port: 6600 },
        cover: CoverConfig {
            preferred_size: String::from("640x640"),
            output_path: String::from("/tmp/cover.jpg"),
        },
    }
}

#[test]
fn either_contains_symmetry_concrete() {
    assert_eq!(either_contains("abcd", "bc"), either_contains("bc", "abcd"));
    assert!(either_contains("abcd", "bc"));
    assert_eq!(either_contains("abc", "xyz"), either_contains("xyz", "abc"));
    assert!(!either_contains("abc", "xyz"));
}

#[test]
fn either_contains_reflexive_concrete() {
    assert!(either_contains("abc", "abc"));
    assert!(either_contains("", ""));
}

#[test]
fn kv_line_splits_at_first_separator() {
    let (k, v) = parse_kv_line("Key: Value").unwrap();
    assert_eq!(k, "Key");
    assert_eq!(v, "Value");

    let (k, v) = parse_kv_line("Title: Some: Song").unwrap();
    assert_eq!(k, "Title");
    assert_eq!(v, "Some: Song");
}

#[test]
fn kv_line_without_separator_is_parse_error() {
    let err = parse_kv_line("KeyValue").unwrap_err();
    assert!(matches!(err, AppError::Parse(_)));
}

#[test]
fn greeting_with_prefix_yields_version() {
    let version = parse_greeting("OK MPD 0.23.5\n").unwrap();
    assert_eq!(version, "0.23.5");
}

#[test]
fn greeting_without_prefix_is_protocol_error() {
    let err = parse_greeting("HELLO 1.0").unwrap_err();
    assert!(matches!(err, AppError::Protocol(_)));
    let err = parse_greeting("OK MPD").unwrap_err();
    assert!(matches!(err, AppError::Protocol(_)));
}

#[test]
fn response_collects_pairs_until_terminator() {
    let lines = vec![
        String::from("Artist: A\n"),
        String::from("Title: B\n"),
        String::from("OK\n"),
    ];
    let props = parse_response(&lines).unwrap();
    assert_eq!(props.get("Artist"), Some(&String::from("A")));
    assert_eq!(props.get("Title"), Some(&String::from("B")));
    assert_eq!(props.get("Album"), None);
}

#[test]
fn response_duplicate_key_last_wins() {
    let lines = vec![
        String::from("Artist: First"),
        String::from("Artist: Second"),
        String::from("OK"),
    ];
    let props = parse_response(&lines).unwrap();
    assert_eq!(props.get("Artist"), Some(&String::from("Second")));
}

#[test]
fn response_ack_is_protocol_error_with_daemon_message() {
    let lines = vec![String::from("ACK [5@0] {} unknown command\n")];
    let err = parse_response(&lines).unwrap_err();
    match err {
        AppError::Protocol(m) => assert_eq!(m, "ACK [5@0] {} unknown command"),
        other => panic!("wrong error kind: {:?}", other),
    }
}

#[test]
fn response_line_without_separator_is_parse_error() {
    let lines = vec![String::from("bogus line"), String::from("OK")];
    let err = parse_response(&lines).unwrap_err();
    assert!(matches!(err, AppError::Parse(_)));
}

#[test]
fn response_without_terminator_is_protocol_error() {
    let lines = vec![String::from("Artist: A")];
    let err = parse_response(&lines).unwrap_err();
    assert!(matches!(err, AppError::Protocol(_)));
}

#[test]
fn size_640x640_parses() {
    assert_eq!(parse_size("640x640").unwrap(), (640, 640));
}

#[test]
fn size_single_part_is_insufficient() {
    let err = parse_size("640").unwrap_err();
    assert!(matches!(err, AppError::Parse(_)));
}

#[test]
fn size_three_parts_uses_first_two() {
    assert_eq!(parse_size("640x640x300").unwrap(), (640, 640));
}

#[test]
fn size_non_numeric_part_is_parse_error() {
    assert!(matches!(parse_size("ax640").unwrap_err(), AppError::Parse(_)));
    assert!(matches!(parse_size("640x").unwrap_err(), AppError::Parse(_)));
    assert!(matches!(parse_size("4294967296x640").unwrap_err(), AppError::Parse(_)));
}

#[test]
fn expiry_boundaries() {
    let t: i64 = 1_700_000_000;
    assert!(!is_expired(t, t - 1));
    assert!(is_expired(t, t));
    assert!(is_expired(t, t + 1));
}

#[test]
fn offset_time_adds_and_saturates() {
    assert_eq!(offset_time_from(100, 3600), 3700);
    assert_eq!(offset_time_from(i64::MAX - 1, 10), i64::MAX);
    assert_eq!(offset_time_from(i64::MIN + 1, -10), i64::MIN);
}

#[test]
fn substitute_replaces_placeholder() {
    let params = vec![(String::from("id"), String::from("XYZ"))];
    let url = substitute("https://api.spotify.com/v1/albums/{id}", &params);
    assert_eq!(url, "https://api.spotify.com/v1/albums/XYZ");
    let twice = substitute("{id}/{id}", &params);
    assert_eq!(twice, "XYZ/XYZ");
}

#[test]
fn exchange_code_builds_form_params() {
    let config = test_config(None);
    let req = exchange_code(&config, "https://example.invalid/cb", "CODE");
    assert_eq!(req.url, "https://accounts.spotify.com/api/token");
    assert_eq!(req.client_id, "client-id");
    assert_eq!(req.client_secret, "client-secret");
    assert_eq!(
        req.params,
        vec![
            (String::from("redirect_uri"), String::from("https://example.invalid/cb")),
            (String::from("code"), String::from("CODE")),
            (String::from("grant_type"), String::from("authorization_code")),
        ]
    );
}

#[test]
fn refresh_token_requires_configured_token() {
    let config = test_config(None);
    assert!(matches!(refresh_token(&config).unwrap_err(), AppError::Auth(_)));

    let config = test_config(Some(("access", "refresh", 0)));
    let req = refresh_token(&config).unwrap();
    assert_eq!(
        req.params,
        vec![
            (String::from("refresh_token"), String::from("refresh")),
            (String::from("grant_type"), String::from("refresh_token")),
        ]
    );
}

#[test]
fn update_token_retains_refresh_token_when_omitted() {
    let mut config = test_config(Some(("old-access", "old-refresh", 50)));
    let response = RefreshTokenResponse {
        access_token: String::from("new-access"),
        refresh_token: None,
        expires_in: 3600,
        token_type: String::from("Bearer"),
    };
    update_token(&mut config, &response, 100);
    assert_eq!(config.spotify.access_token, Some(String::from("new-access")));
    assert_eq!(config.spotify.refresh_token, Some(String::from("old-refresh")));
    assert_eq!(config.spotify.expires_at, Some(3700));

    let rotated = RefreshTokenResponse {
        access_token: String::from("x"),
        refresh_token: Some(String::from("new-refresh")),
        expires_in: 10,
        token_type: String::from("Bearer"),
    };
    update_token(&mut config, &rotated, 100);
    assert_eq!(config.spotify.refresh_token, Some(String::from("new-refresh")));
}

#[test]
fn auth_configured_needs_all_three_fields() {
    assert!(test_config(Some(("a", "r", 1))).auth_configured());
    assert!(!test_config(None).auth_configured());
    let mut partial = test_config(Some(("a", "r", 1)));
    partial.spotify.expires_at = None;
    assert!(!partial.auth_configured());
}
