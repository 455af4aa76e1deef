use jellyfin_tui::client::{
    auth_request_body, cover_art_path, cover_extension, cover_file_name, identity_header,
    AuthError, Client,
};
use jellyfin_tui::entities::Credentials;
use jellyfin_tui::json::JsonValue;

fn s(text: &str) -> JsonValue {
    JsonValue::Str(text.to_string())
}

fn client() -> Client {
    Client {
        base_url: "http://srv".to_string(),
        access_token: "tok123".to_string(),
        user_id: "user456".to_string(),
    }
}

fn auth_body() -> JsonValue {
    JsonValue::Obj(vec![
        ("AccessToken".to_string(), s("tok123")),
        (
            "User".to_string(),
            JsonValue::Obj(vec![("Id".to_string(), s("user456"))]),
        ),
    ])
}

#[test]
fn authentication_refused_yields_degraded_session() {
    let c = Client::new("http://srv", 401, &auth_body()).unwrap();
    assert_eq!(c.base_url, "http://srv");
    assert_eq!(c.access_token, "");
    assert_eq!(c.user_id, "");
}

#[test]
fn authentication_success_extracts_token_and_user() {
    let c = Client::new("http://srv", 200, &auth_body()).unwrap();
    assert_eq!(c.base_url, "http://srv");
    assert_eq!(c.access_token, "tok123");
    assert_eq!(c.user_id, "user456");
}

#[test]
fn malformed_success_body_is_fatal() {
    let no_token = JsonValue::Obj(vec![(
        "User".to_string(),
        JsonValue::Obj(vec![("Id".to_string(), s("user456"))]),
    )]);
    assert_eq!(Client::new("http://srv", 200, &no_token), Err(AuthError::MissingAccessToken));

    let no_user = JsonValue::Obj(vec![("AccessToken".to_string(), s("tok123"))]);
    assert_eq!(Client::new("http://srv", 200, &no_user), Err(AuthError::MissingUserId));

    let no_user_id = JsonValue::Obj(vec![
        ("AccessToken".to_string(), s("tok123")),
        ("User".to_string(), JsonValue::Obj(vec![])),
    ]);
    assert_eq!(Client::new("http://srv", 200, &no_user_id), Err(AuthError::MissingUserId));
}

#[test]
fn degraded_session_calls_return_empty_results() {
    // a session built against a 401 has an empty token, and calls made with
    // it are refused by the server; the client maps that to empty results
    let c = Client::new("http://srv", 401, &auth_body()).unwrap();
    assert_eq!(c.access_token, "");
    let artists = Client::artists_from_response(401, &JsonValue::Null);
    assert!(artists.is_empty());
    let discography = Client::discography_from_response(401, &JsonValue::Null);
    assert!(discography.items.is_empty());
    let lyrics = Client::lyrics_from_response(401, &JsonValue::Null);
    assert!(lyrics.is_empty());
}

#[test]
fn auth_request_body_carries_the_credentials() {
    let body = auth_request_body(&Credentials {
        username: "u".to_string(),
        password: "p".to_string(),
    });
    assert_eq!(
        body,
        JsonValue::Obj(vec![
            ("Username".to_string(), s("u")),
            ("Pw".to_string(), s("p")),
        ])
    );
}

#[test]
fn identity_header_is_fixed() {
    let (name, value) = identity_header();
    assert_eq!(name, "x-emby-authorization");
    assert_eq!(
        value,
        "MediaBrowser Client=\"jellyfin-tui\", Device=\"jellyfin-tui\", DeviceId=\"None\", Version=\"10.4.3\""
    );
}

#[test]
fn token_header_carries_the_session_token() {
    let (name, value) = client().token_header();
    assert_eq!(name, "X-MediaBrowser-Token");
    assert_eq!(value, "tok123");
}

#[test]
fn urls_are_built_from_the_session() {
    let c = client();
    assert_eq!(c.artists_url(), "http://srv/Artists");
    assert_eq!(c.discography_url(), "http://srv/Users/user456/Items");
    assert_eq!(c.lyrics_url("song789"), "http://srv/Audio/song789/Lyrics");
    assert_eq!(c.metadata_url("song789"), "http://srv/Users/user456/Items/song789");
    assert_eq!(
        c.cover_art_url("alb1"),
        "http://srv/Items/alb1/Images/Primary?fillHeight=512&fillWidth=512&quality=96&tag=be2a8642e97e2151ef0580fc72f3505a"
    );
}

#[test]
fn artists_query_parameters() {
    let q = Client::artists_query();
    let expected: Vec<(String, String)> = vec![
        ("SortBy".to_string(), "SortName".to_string()),
        ("SortOrder".to_string(), "Ascending".to_string()),
        ("Recursive".to_string(), "true".to_string()),
        ("Fields".to_string(), "SortName".to_string()),
        ("ImageTypeLimit".to_string(), "-1".to_string()),
        ("StartIndex".to_string(), "0".to_string()),
    ];
    assert_eq!(q, expected);
}

#[test]
fn discography_query_parameters() {
    let q = Client::discography_query("art1");
    let expected: Vec<(String, String)> = vec![
        ("SortBy".to_string(), "Album,IndexNumber".to_string()),
        ("SortOrder".to_string(), "Ascending".to_string()),
        ("Recursive".to_string(), "true".to_string()),
        ("IncludeItemTypes".to_string(), "Audio".to_string()),
        ("Fields".to_string(), "Genres, DateCreated, MediaSources, ParentId".to_string()),
        ("StartIndex".to_string(), "0".to_string()),
        ("ImageTypeLimit".to_string(), "1".to_string()),
        ("ArtistIds".to_string(), "art1".to_string()),
        ("StartIndex".to_string(), "0".to_string()),
    ];
    assert_eq!(q, expected);
}

#[test]
fn artists_response_decodes_on_success() {
    let body = JsonValue::Obj(vec![(
        "Items".to_string(),
        JsonValue::Arr(vec![JsonValue::Obj(vec![("Name".to_string(), s("A"))])]),
    )]);
    let artists = Client::artists_from_response(200, &body);
    assert_eq!(artists.len(), 1);
    assert_eq!(artists[0].name, "A");
    // the same body under a failing status yields nothing
    assert!(Client::artists_from_response(500, &body).is_empty());
}

#[test]
fn lyrics_lines_are_padded_and_ordered() {
    let body = JsonValue::Obj(vec![(
        "Lyrics".to_string(),
        JsonValue::Arr(vec![
            JsonValue::Obj(vec![("Text".to_string(), s("one"))]),
            JsonValue::Obj(vec![("Text".to_string(), s("two"))]),
        ]),
    )]);
    assert_eq!(
        Client::lyrics_from_response(200, &body),
        vec![" one".to_string(), " two".to_string()]
    );
    assert!(Client::lyrics_from_response(404, &body).is_empty());
}

fn stream(codec: &str, type_: &str, bit_rate: u64) -> JsonValue {
    JsonValue::Obj(vec![
        ("Codec".to_string(), s(codec)),
        ("BitRate".to_string(), JsonValue::UInt(bit_rate)),
        ("Type".to_string(), s(type_)),
    ])
}

fn source(streams: Vec<JsonValue>) -> JsonValue {
    JsonValue::Obj(vec![("MediaStreams".to_string(), JsonValue::Arr(streams))])
}

#[test]
fn metadata_picks_audio_from_the_first_source_that_has_one() {
    let body = JsonValue::Obj(vec![(
        "MediaSources".to_string(),
        JsonValue::Arr(vec![
            source(vec![
                stream("h264", "Video", 1),
                stream("mp3", "Audio", 320000),
            ]),
            source(vec![stream("flac", "Audio", 900000)]),
        ]),
    )]);
    let picked = Client::metadata_from_response(&body);
    assert_eq!(picked.codec, "mp3");
    assert_eq!(picked.bit_rate, 320000);
    assert_eq!(picked.type_, "Audio");
}

#[test]
fn metadata_skips_sources_without_audio() {
    let body = JsonValue::Obj(vec![(
        "MediaSources".to_string(),
        JsonValue::Arr(vec![
            source(vec![stream("mjpeg", "EmbeddedImage", 0)]),
            source(vec![stream("opus", "Audio", 128000)]),
        ]),
    )]);
    assert_eq!(Client::metadata_from_response(&body).codec, "opus");
}

#[test]
fn metadata_without_audio_returns_the_zero_sentinel() {
    let body = JsonValue::Obj(vec![(
        "MediaSources".to_string(),
        JsonValue::Arr(vec![source(vec![stream("mjpeg", "EmbeddedImage", 0)])]),
    )]);
    let picked = Client::metadata_from_response(&body);
    assert_eq!(picked.codec, "");
    assert_eq!(picked.bit_rate, 0);
    assert_eq!(picked.channels, 0);
    assert_eq!(picked.sample_rate, 0);
    assert_eq!(picked.type_, "");
    // so does an item without media sources at all
    assert_eq!(Client::metadata_from_response(&JsonValue::Obj(vec![])).type_, "");
}

#[test]
fn song_url_is_exact() {
    let url = client().song_url_sync("song789".to_string());
    assert_eq!(
        url,
        "http://srv/Audio/song789/universal?UserId=user456&Container=opus,webm|opus,mp3,aac,m4a|aac,m4b|aac,flac,webma,webm|webma,wav,ogg&TranscodingContainer=mp4&TranscodingProtocol=hls&AudioCodec=aac&api_key=tok123&StartTimeTicks=0&EnableRedirection=true&EnableRemoteMedia=false"
    );
}

#[test]
fn song_url_carries_each_identity_exactly_once() {
    let url = client().song_url_sync("song789".to_string());
    assert_eq!(url.matches("song789").count(), 1);
    assert_eq!(url.matches("user456").count(), 1);
    assert_eq!(url.matches("tok123").count(), 1);
    assert_eq!(url.matches("StartTimeTicks=0").count(), 1);
}

#[test]
fn cover_extension_recognizes_image_types() {
    assert_eq!(cover_extension("image/png"), "png");
    assert_eq!(cover_extension("image/jpeg"), "jpeg");
    assert_eq!(cover_extension("image/jpg"), "jpg");
    assert_eq!(cover_extension("image/webp"), "webp");
    assert_eq!(cover_extension("text/html"), "png");
    assert_eq!(cover_extension(""), "png");
}

#[test]
fn cover_paths_follow_the_content_type() {
    assert_eq!(cover_art_path("image/webp"), "covers/cover.webp");
    assert_eq!(cover_file_name("image/webp"), "cover.webp");
    assert_eq!(cover_art_path("application/octet-stream"), "covers/cover.png");
    assert_eq!(cover_file_name("application/octet-stream"), "cover.png");
}
