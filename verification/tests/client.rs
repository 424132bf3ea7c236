use playlie::lastfm::client::{
    classify, read_similar_tracks, read_user_recommended, status_is_success,
};
use playlie::lastfm::errors::{
    Error, ErrorCode, ErrorResponse, InvalidErrorCode, ParseFailure, TransportFailure,
};
use playlie::lastfm::json::{parse, Json};
use playlie::lastfm::{Artist, Client, Playlist, PlaylistItem, Response, SimilarTrack};

const SIMILAR: &str = r#"{"similartracks":{"track":[{"name":"Strong Enough","playcount":670120,"mbid":"39473218-db80-4db2-9623-690b79b94e04","match":1.0,"artist":{"name":"Cher","mbid":"bfcc6d75-a6a5-4bc6-8282-47aec8531818"}}]}}"#;
const PLAYLIST: &str = r#"{"playlist":[{"name":"Track A","artists":[{"name":"X"},{"name":"Y"}]}]}"#;
const INVALID_KEY: &str = r#"{"error":10,"message":"Invalid API Key"}"#;

fn reply(status: u16, body: &str) -> Result<Response, TransportFailure> {
    Ok(Response { status, body: body.as_bytes().to_vec() })
}

fn no_reply(message: &str) -> Result<Response, TransportFailure> {
    Err(TransportFailure { message: message.to_string() })
}

fn strong_enough() -> Vec<SimilarTrack> {
    vec![SimilarTrack {
        name: "Strong Enough".to_string(),
        artist: Artist { name: "Cher".to_string() },
    }]
}

fn track_a() -> Playlist {
    Playlist {
        playlist: vec![PlaylistItem {
            name: "Track A".to_string(),
            artists: vec![Artist { name: "X".to_string() }, Artist { name: "Y".to_string() }],
        }],
    }
}

fn invalid_key() -> Error {
    Error::APIError(ErrorResponse {
        error: ErrorCode::InvalidAPIKey,
        message: "Invalid API Key".to_string(),
    })
}

fn shape() -> Error {
    Error::ParsingError(ParseFailure::Shape)
}

#[test]
fn similar_tracks_url_is_the_template_filled_in() {
    let client = Client::new("0123456789abcdef");
    assert_eq!(
        client.similar_tracks_url("cher", "believe"),
        "http://ws.audioscrobbler.com/2.0?method=track.getsimilar&api_key=0123456789abcdef&format=json&artist=cher&track=believe"
    );
}

#[test]
fn similar_tracks_url_escapes_nothing() {
    let client = Client::new("k&y");
    assert_eq!(
        client.similar_tracks_url("AC/DC & co", "T.N.T.?x=1#top"),
        "http://ws.audioscrobbler.com/2.0?method=track.getsimilar&api_key=k&y&format=json&artist=AC/DC & co&track=T.N.T.?x=1#top"
    );
    assert_eq!(
        Client::new("").similar_tracks_url("", ""),
        "http://ws.audioscrobbler.com/2.0?method=track.getsimilar&api_key=&format=json&artist=&track="
    );
    assert_eq!(
        Client::new("k").similar_tracks_url("Bj\u{f6}rk", "J\u{f3}ga"),
        "http://ws.audioscrobbler.com/2.0?method=track.getsimilar&api_key=k&format=json&artist=Bj\u{f6}rk&track=J\u{f3}ga"
    );
}

#[test]
fn user_recommended_url_is_the_template_filled_in() {
    let client = Client::new("0123456789abcdef");
    assert_eq!(
        client.user_recommended_url("sebnow"),
        "https://last.fm/player/station/user/sebnow/recommended"
    );
    assert_eq!(
        client.user_recommended_url(""),
        "https://last.fm/player/station/user//recommended"
    );
    assert_eq!(
        client.user_recommended_url("a/b c"),
        "https://last.fm/player/station/user/a/b c/recommended"
    );
}

#[test]
fn client_keeps_its_key() {
    assert_eq!(Client::new("0123456789abcdef").api_key(), "0123456789abcdef");
    assert_eq!(Client::new("").api_key(), "");
}

#[test]
fn status_is_success_from_200_to_299() {
    for status in 0u16..=1000 {
        assert_eq!(status_is_success(status), (200..=299).contains(&status), "{}", status);
    }
    assert!(!status_is_success(u16::MAX));
}

#[test]
fn similar_tracks_happy_path() {
    let client = Client::new("key");
    let tracks = client.similar_tracks(reply(200, SIMILAR)).unwrap();
    assert_eq!(tracks.len(), 1);
    assert_eq!(tracks[0].name, "Strong Enough");
    assert_eq!(tracks[0].artist.name, "Cher");
}

#[test]
fn api_error_is_reported_with_code_and_message() {
    let client = Client::new("key");
    assert_eq!(client.similar_tracks(reply(403, INVALID_KEY)), Err(invalid_key()));
    assert_eq!(client.user_recommended(reply(403, INVALID_KEY)), Err(invalid_key()));
}

#[test]
fn unknown_error_code_is_a_parsing_error() {
    let client = Client::new("key");
    let expected = Error::ParsingError(ParseFailure::InvalidErrorCode(InvalidErrorCode(255)));
    let body = r#"{"error":255,"message":"?"}"#;
    assert_eq!(client.similar_tracks(reply(403, body)), Err(expected));
    let expected = Error::ParsingError(ParseFailure::InvalidErrorCode(InvalidErrorCode(255)));
    assert_eq!(client.user_recommended(reply(403, body)), Err(expected));
}

#[test]
fn malformed_json_is_a_parsing_error() {
    let client = Client::new("key");
    let expected = || {
        Error::ParsingError(ParseFailure::Syntax(
            "EOF while parsing a value at line 1 column 17".to_string(),
        ))
    };
    assert_eq!(client.similar_tracks(reply(200, r#"{"similartracks":"#)), Err(expected()));
    assert_eq!(client.similar_tracks(reply(500, r#"{"similartracks":"#)), Err(expected()));
    assert_eq!(client.user_recommended(reply(200, r#"{"similartracks":"#)), Err(expected()));
    assert!(matches!(
        client.similar_tracks(reply(200, "")),
        Err(Error::ParsingError(ParseFailure::Syntax(_)))
    ));
    assert!(matches!(
        client.similar_tracks(reply(502, "<html>Bad Gateway</html>")),
        Err(Error::ParsingError(ParseFailure::Syntax(_)))
    ));
}

#[test]
fn transport_failure_is_reported_and_the_client_stays_usable() {
    let client = Client::new("key");
    assert_eq!(
        client.similar_tracks(no_reply("connection refused")),
        Err(Error::HTTPError(TransportFailure { message: "connection refused".to_string() }))
    );
    assert_eq!(client.similar_tracks(reply(200, SIMILAR)), Ok(strong_enough()));
    assert_eq!(
        client.user_recommended(no_reply("timed out")),
        Err(Error::HTTPError(TransportFailure { message: "timed out".to_string() }))
    );
    assert_eq!(client.user_recommended(reply(200, PLAYLIST)), Ok(track_a()));
}

#[test]
fn playlist_happy_path() {
    let client = Client::new("key");
    let playlist = client.user_recommended(reply(200, PLAYLIST)).unwrap();
    assert_eq!(playlist.playlist.len(), 1);
    assert_eq!(playlist.playlist[0].name, "Track A");
    let artists: Vec<&str> = playlist.playlist[0].artists.iter().map(|a| a.name.as_str()).collect();
    assert_eq!(artists, vec!["X", "Y"]);
}

#[test]
fn status_and_body_must_agree() {
    let client = Client::new("key");
    assert_eq!(client.similar_tracks(reply(200, INVALID_KEY)), Err(shape()));
    assert_eq!(client.user_recommended(reply(200, INVALID_KEY)), Err(shape()));
    assert_eq!(client.similar_tracks(reply(403, SIMILAR)), Err(shape()));
    assert_eq!(client.user_recommended(reply(500, PLAYLIST)), Err(shape()));
    assert_eq!(client.similar_tracks(reply(200, PLAYLIST)), Err(shape()));
    assert_eq!(client.user_recommended(reply(200, SIMILAR)), Err(shape()));
}

#[test]
fn a_body_of_both_shapes_is_read_by_its_status() {
    let client = Client::new("key");
    let both = r#"{"error":10,"message":"Invalid API Key","similartracks":{"track":[]},"playlist":[]}"#;
    assert_eq!(client.similar_tracks(reply(200, both)), Ok(vec![]));
    assert_eq!(client.user_recommended(reply(204, both)), Ok(Playlist { playlist: vec![] }));
    assert_eq!(client.similar_tracks(reply(403, both)), Err(invalid_key()));
    assert_eq!(client.user_recommended(reply(404, both)), Err(invalid_key()));
}

#[test]
fn the_edges_of_success_are_200_and_299() {
    let client = Client::new("key");
    for status in [200u16, 201, 204, 299] {
        assert_eq!(client.similar_tracks(reply(status, SIMILAR)), Ok(strong_enough()));
        assert_eq!(client.similar_tracks(reply(status, INVALID_KEY)), Err(shape()));
    }
    for status in [0u16, 100, 199, 300, 301, 400, 403, 404, 500, 503, 65535] {
        assert_eq!(client.similar_tracks(reply(status, SIMILAR)), Err(shape()));
        assert_eq!(client.similar_tracks(reply(status, INVALID_KEY)), Err(invalid_key()));
    }
}

#[test]
fn client_is_reusable_after_every_kind_of_failure() {
    let client = Client::new("key");
    let failures = [
        no_reply("connection reset"),
        reply(200, r#"{"similartracks":"#),
        reply(200, INVALID_KEY),
        reply(403, INVALID_KEY),
        reply(403, r#"{"error":255,"message":"?"}"#),
        reply(500, ""),
    ];
    for failure in failures {
        assert!(client.similar_tracks(failure).is_err());
        assert_eq!(client.similar_tracks(reply(200, SIMILAR)), Ok(strong_enough()));
        assert_eq!(client.user_recommended(reply(200, PLAYLIST)), Ok(track_a()));
        assert_eq!(client.similar_tracks_url("cher", "believe"),
            "http://ws.audioscrobbler.com/2.0?method=track.getsimilar&api_key=key&format=json&artist=cher&track=believe");
    }
}

#[test]
fn classify_sorts_a_reply_by_its_status() {
    let json = || parse(INVALID_KEY.as_bytes());
    assert_eq!(classify(200, json()), Ok(json().unwrap()));
    assert_eq!(classify(403, json()), Err(invalid_key()));
    assert_eq!(classify(403, Ok(Json::Null)), Err(shape()));
    assert_eq!(classify(200, Ok(Json::Null)), Ok(Json::Null));
    assert_eq!(
        classify(200, Err("expected value at line 1 column 1".to_string())),
        Err(Error::ParsingError(ParseFailure::Syntax(
            "expected value at line 1 column 1".to_string()
        )))
    );
    assert_eq!(
        classify(404, Err("expected value at line 1 column 1".to_string())),
        Err(Error::ParsingError(ParseFailure::Syntax(
            "expected value at line 1 column 1".to_string()
        )))
    );
}

#[test]
fn replies_are_read_from_status_and_document() {
    assert_eq!(read_similar_tracks(200, parse(SIMILAR.as_bytes())), Ok(strong_enough()));
    assert_eq!(read_similar_tracks(200, Ok(Json::Object(vec![]))), Err(shape()));
    assert_eq!(read_similar_tracks(403, parse(INVALID_KEY.as_bytes())), Err(invalid_key()));
    assert_eq!(read_user_recommended(200, parse(PLAYLIST.as_bytes())), Ok(track_a()));
    assert_eq!(read_user_recommended(200, Ok(Json::Array(vec![]))), Err(shape()));
    assert_eq!(read_user_recommended(503, parse(INVALID_KEY.as_bytes())), Err(invalid_key()));
    assert_eq!(
        read_user_recommended(200, Err("no".to_string())),
        Err(Error::ParsingError(ParseFailure::Syntax("no".to_string())))
    );
}
