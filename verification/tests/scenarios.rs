use mpd_cover::config::Config;
use mpd_cover::config::CoverConfig;
use mpd_cover::config::MpdConfig;
use mpd_cover::config::SpotifyConfig;
use mpd_cover::errors::AppError;
use mpd_cover::mpd::parse_response;
use mpd_cover::resolver::lookup_images_by_name;
use mpd_cover::resolver::select_image;
use mpd_cover::resolver::Action;
use mpd_cover::resolver::Event;
use mpd_cover::resolver::Phase;
use mpd_cover::resolver::Resolver;
use mpd_cover::spotify::auth_error_of;
use mpd_cover::spotify::catalog_error_of;
use mpd_cover::spotify::Album;
use mpd_cover::spotify::Artist;
use mpd_cover::spotify::Image;
use mpd_cover::spotify::RefreshTokenResponse;
use mpd_cover::spotify::SearchResult;
use mpd_cover::spotify::SearchResults;
use mpd_cover::spotify::Track;

fn authed_config(expires_at: i64, preferred_size: &str) -> Config {
    Config {
        spotify: SpotifyConfig {
            client_id: String::from("client-id"),
            client_secret: String::from("client-secret"),
            access_token: Some(String::from("access-token")),
            refresh_token: Some(String::from("refresh-token")),
            expires_at: Some(expires_at),
        },
        mpd: MpdConfig { address: String::from("127.0.0.1"), port: 6600 },
        cover: CoverConfig {
            preferred_size: String::from(preferred_size),
            output_path: String::from("/tmp/cover.jpg"),
        },
    }
}

fn image(width: u32, height: u32, url: &str) -> Image {
    Image { width, height, url: String::from(url) }
}

fn one_track_results(name: &str, artist: &str, images: Vec<Image>) -> SearchResults {
    SearchResults {
        tracks: Some(SearchResult {
            href: String::from("https://api.spotify.com/v1/search?q=..."),
            items: vec![Track {
                album: Album { name: String::from("Album"), images },
                artists: vec![Artist { name: String::from(artist) }],
                id: String::from("track-id"),
                name: String::from(name),
            }],
        }),
    }
}

#[test]
fn scenario_search_and_download() {
    // Daemon reports artist and title; the search returns one matching track
    // whose album carries the preferred 640x640 image, which is downloaded.
    let config = authed_config(i64::MAX, "640x640");
    let resolver = Resolver::new(config);

    let lines = vec![String::from("Artist: A"), String::from("Title: B"), String::from("OK")];
    let props = parse_response(&lines).unwrap();

    let (resolver, action) = resolver.step(Event::Begin { props: Ok(props), now: 0 });
    let query = match &action {
        Action::Search(req) => {
            assert_eq!(req.url, "https://api.spotify.com/v1/search");
            assert_eq!(req.access_token, "access-token");
            req.query.clone()
        },
        other => panic!("expected a search, got {:?}", action_name(other)),
    };
    assert_eq!(
        query,
        vec![
            (String::from("q"), String::from("A - B")),
            (String::from("type"), String::from("track")),
        ]
    );

    let results = one_track_results(
        "B",
        "A",
        vec![image(64, 64, "https://img.invalid/1"), image(640, 640, "https://img.invalid/2")],
    );
    let (resolver, action) = resolver.step(Event::SearchReturned { results: Ok(results) });
    match &action {
        Action::Download { url, path } => {
            assert_eq!(url, "https://img.invalid/2");
            assert_eq!(path, "/tmp/cover.jpg");
        },
        other => panic!("expected a download, got {:?}", action_name(other)),
    }

    let (resolver, action) = resolver.step(Event::Downloaded { result: Ok(()) });
    assert!(matches!(action, Action::Stop));
    assert!(matches!(resolver.phase, Phase::Done));
}

#[test]
fn scenario_album_id_size_not_available() {
    // Daemon hands over the album-URI extension field; the album lookup
    // returns images without the preferred 300x300 size, so the run fails
    // with the available sizes listed.
    let config = authed_config(i64::MAX, "300x300");
    let resolver = Resolver::new(config);

    let lines = vec![String::from("X-AlbumUri: spotify:album:XYZ"), String::from("OK")];
    let props = parse_response(&lines).unwrap();

    let (resolver, action) = resolver.step(Event::Begin { props: Ok(props), now: 0 });
    match &action {
        Action::FetchAlbum(req) => {
            assert_eq!(req.url, "https://api.spotify.com/v1/albums/XYZ");
            assert_eq!(req.access_token, "access-token");
        },
        other => panic!("expected an album fetch, got {:?}", action_name(other)),
    }

    let album = Album {
        name: String::from("Album"),
        images: vec![image(64, 64, "https://img.invalid/1"), image(640, 640, "https://img.invalid/2")],
    };
    let (resolver, action) = resolver.step(Event::AlbumFetched { album: Ok(album) });
    assert!(matches!(action, Action::Stop));
    match &resolver.phase {
        Phase::Failed(AppError::NotFound(m)) => {
            assert_eq!(m, "preferred size is not available; available sizes: 64x64, 640x640");
        },
        _ => panic!("expected a not-found failure"),
    }
}

#[test]
fn scenario_expired_token_refresh_then_search() {
    // The configured token is expired: the run refreshes it, persists the
    // updated snapshot exactly once, and then searches with the new token.
    let config = authed_config(100, "640x640");
    let resolver = Resolver::new(config);

    let lines = vec![String::from("Artist: A"), String::from("Title: B"), String::from("OK")];
    let props = parse_response(&lines).unwrap();

    let (resolver, action) = resolver.step(Event::Begin { props: Ok(props), now: 100 });
    match &action {
        Action::Refresh(req) => {
            assert_eq!(req.url, "https://accounts.spotify.com/api/token");
            assert_eq!(req.client_id, "client-id");
            assert_eq!(req.client_secret, "client-secret");
            assert_eq!(
                req.params,
                vec![
                    (String::from("refresh_token"), String::from("refresh-token")),
                    (String::from("grant_type"), String::from("refresh_token")),
                ]
            );
        },
        other => panic!("expected a refresh, got {:?}", action_name(other)),
    }

    let response = RefreshTokenResponse {
        access_token: String::from("new-access-token"),
        refresh_token: None,
        expires_in: 3600,
        token_type: String::from("Bearer"),
    };
    let mut persist_count: u32 = 0;
    let (resolver, action) = resolver.step(Event::Refreshed { response: Ok(response), now: 100 });
    assert!(matches!(action, Action::Persist));
    persist_count += 1;
    assert_eq!(resolver.config.spotify.access_token, Some(String::from("new-access-token")));
    assert_eq!(resolver.config.spotify.refresh_token, Some(String::from("refresh-token")));
    assert_eq!(resolver.config.spotify.expires_at, Some(3700));

    let (_resolver, action) = resolver.step(Event::Persisted { result: Ok(()) });
    match &action {
        Action::Search(req) => {
            assert_eq!(req.access_token, "new-access-token");
        },
        other => panic!("expected a search, got {:?}", action_name(other)),
    }
    assert_eq!(persist_count, 1);
}

#[test]
fn scenario_empty_search_fails_before_image_selection() {
    // The search returns zero tracks: the run fails with a not-found error
    // without ever reaching image selection.
    let config = authed_config(i64::MAX, "640x640");
    let resolver = Resolver::new(config);

    let lines = vec![String::from("Artist: A"), String::from("Title: B"), String::from("OK")];
    let props = parse_response(&lines).unwrap();
    let (resolver, _action) = resolver.step(Event::Begin { props: Ok(props), now: 0 });

    let results = SearchResults {
        tracks: Some(SearchResult { href: String::from("href"), items: vec![] }),
    };
    let (resolver, action) = resolver.step(Event::SearchReturned { results: Ok(results) });
    assert!(matches!(action, Action::Stop));
    match &resolver.phase {
        Phase::Failed(AppError::NotFound(m)) => assert_eq!(m, "No tracks found"),
        _ => panic!("expected a not-found failure"),
    }
}

#[test]
fn search_envelope_missing_is_catalog_error() {
    let results = SearchResults { tracks: None };
    let err = lookup_images_by_name(&results, "A", "B").unwrap_err();
    match err {
        AppError::CatalogApi(m) => assert_eq!(m, "Unable to perform search"),
        _ => panic!("expected a catalog error"),
    }
}

#[test]
fn first_matching_track_wins() {
    let images_first = vec![image(10, 10, "https://img.invalid/first")];
    let images_second = vec![image(20, 20, "https://img.invalid/second")];
    let results = SearchResults {
        tracks: Some(SearchResult {
            href: String::from("href"),
            items: vec![
                Track {
                    album: Album { name: String::from("Other"), images: vec![] },
                    artists: vec![Artist { name: String::from("Nobody") }],
                    id: String::from("0"),
                    name: String::from("Unrelated"),
                },
                Track {
                    album: Album { name: String::from("First"), images: images_first },
                    artists: vec![Artist { name: String::from("A") }],
                    id: String::from("1"),
                    name: String::from("B"),
                },
                Track {
                    album: Album { name: String::from("Second"), images: images_second },
                    artists: vec![Artist { name: String::from("A") }],
                    id: String::from("2"),
                    name: String::from("B"),
                },
            ],
        }),
    };
    let imgs = lookup_images_by_name(&results, "A", "B").unwrap();
    assert_eq!(imgs.len(), 1);
    assert_eq!(imgs[0].url, "https://img.invalid/first");
}

#[test]
fn no_matching_track_is_not_found() {
    let results = one_track_results("Unrelated", "Nobody", vec![]);
    let err = lookup_images_by_name(&results, "A", "B").unwrap_err();
    match err {
        AppError::NotFound(m) => assert_eq!(m, "No matching tracks found"),
        _ => panic!("expected a not-found failure"),
    }
}

#[test]
fn select_image_first_exact_match_wins() {
    let images = vec![
        image(640, 640, "https://img.invalid/1"),
        image(300, 300, "https://img.invalid/2"),
        image(300, 300, "https://img.invalid/3"),
    ];
    assert_eq!(select_image(&images, 300, 300), Some(1));
    assert_eq!(select_image(&images, 64, 64), None);
}

#[test]
fn scenario_daemon_failure_aborts_run() {
    let config = authed_config(i64::MAX, "640x640");
    let resolver = Resolver::new(config);
    let (resolver, action) = resolver.step(Event::Begin {
        props: Err(AppError::Connection(String::from("connection refused"))),
        now: 0,
    });
    assert!(matches!(action, Action::Stop));
    match &resolver.phase {
        Phase::Failed(AppError::Connection(m)) => assert_eq!(m, "connection refused"),
        _ => panic!("expected a connection failure"),
    }
}

#[test]
fn scenario_persist_failure_aborts_run() {
    let config = authed_config(100, "640x640");
    let resolver = Resolver::new(config);
    let lines = vec![String::from("Artist: A"), String::from("Title: B"), String::from("OK")];
    let props = parse_response(&lines).unwrap();
    let (resolver, _action) = resolver.step(Event::Begin { props: Ok(props), now: 100 });
    let response = RefreshTokenResponse {
        access_token: String::from("new"),
        refresh_token: None,
        expires_in: 60,
        token_type: String::from("Bearer"),
    };
    let (resolver, _action) = resolver.step(Event::Refreshed { response: Ok(response), now: 100 });
    let (resolver, action) = resolver.step(Event::Persisted {
        result: Err(AppError::Io(String::from("disk full"))),
    });
    assert!(matches!(action, Action::Stop));
    assert!(matches!(resolver.phase, Phase::Failed(AppError::Io(_))));
}

#[test]
fn event_in_wrong_phase_fails_the_run() {
    let config = authed_config(i64::MAX, "640x640");
    let resolver = Resolver::new(config);
    let (resolver, action) = resolver.step(Event::Downloaded { result: Ok(()) });
    assert!(matches!(action, Action::Stop));
    assert!(matches!(resolver.phase, Phase::Failed(AppError::Protocol(_))));
}

#[test]
fn failed_phase_is_absorbing() {
    let config = authed_config(i64::MAX, "640x640");
    let resolver = Resolver::new(config);
    let (resolver, _action) = resolver.step(Event::Begin {
        props: Err(AppError::Connection(String::from("connection refused"))),
        now: 0,
    });
    let (resolver, action) = resolver.step(Event::Downloaded { result: Ok(()) });
    assert!(matches!(action, Action::Stop));
    match &resolver.phase {
        Phase::Failed(AppError::Connection(m)) => assert_eq!(m, "connection refused"),
        _ => panic!("expected the original failure to be kept"),
    }
}

#[test]
fn error_responses_use_description_or_generic_message() {
    match auth_error_of(Some(String::from("bad code"))) {
        AppError::Auth(m) => assert_eq!(m, "bad code"),
        _ => panic!("expected an auth error"),
    }
    match auth_error_of(None) {
        AppError::Auth(m) => assert_eq!(m, "Server returned an unknown error"),
        _ => panic!("expected an auth error"),
    }
    match catalog_error_of(None) {
        AppError::CatalogApi(m) => assert_eq!(m, "Server returned an unknown error"),
        _ => panic!("expected a catalog error"),
    }
}

fn action_name(action: &Action) -> &'static str {
    match action {
        Action::Refresh(_) => "Refresh",
        Action::Persist => "Persist",
        Action::FetchAlbum(_) => "FetchAlbum",
        Action::Search(_) => "Search",
        Action::Download { .. } => "Download",
        Action::Stop => "Stop",
    }
}
