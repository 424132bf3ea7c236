//! The client: the URLs of its requests, and what it makes of a reply.
//!
//! The client sends nothing itself. For each operation it gives the URL to
//! fetch, and reads the outcome of the exchange once the caller has made it:
//! no reply at all, or a status and a body.

use crate::lastfm::errors::{
    error_response_of, Error, ErrorResponse, ErrorResponseView, ErrorView, ParseFailure,
    ParseFailureView, TransportFailure,
};
use crate::lastfm::json::{parse, parsed, Json, JsonValue};
use crate::lastfm::schema::{
    playlist_of, similar_tracks_of, Playlist, PlaylistView, SimilarTrack, SimilarTrackView,
    SimilarTracks, tracks_view,
};
use vstd::prelude::*;

verus! {

/// The address of the audioscrobbler service.
pub const AS_BASE_URL: &'static str = "http://ws.audioscrobbler.com/2.0";

/// The address of the website.
pub const LAST_FM_BASE_URL: &'static str = "https://last.fm";

/// A reply as the HTTP client received it.
#[derive(Debug, PartialEq)]
pub struct Response {
    pub status: u16,
    pub body: Vec<u8>,
}

/// Whether `status` announces success: the codes from 200 to 299.
pub open spec fn is_success(status: u16) -> bool {
    200 <= status < 300
}

/// The URL of a method of the audioscrobbler service, with the key and the
/// method's own parameters.
pub open spec fn as_uri(key: Seq<char>, method: Seq<char>, params: Seq<char>) -> Seq<char> {
    AS_BASE_URL@ + "?method="@ + method + "&api_key="@ + key + "&format=json&"@ + params
}

/// The URL that asks for the tracks similar to `track` by `artist`. Nothing in
/// it is escaped.
pub open spec fn similar_tracks_uri(key: Seq<char>, artist: Seq<char>, track: Seq<char>) -> Seq<
    char,
> {
    as_uri(key, "track.getsimilar"@, "artist="@ + artist + "&track="@ + track)
}

/// The URL that asks for the playlist recommended to `user`. Nothing in it is
/// escaped.
pub open spec fn user_recommended_uri(user: Seq<char>) -> Seq<char> {
    LAST_FM_BASE_URL@ + "/player/station/user/"@ + user + "/recommended"@
}

/// What a status and a parsed body come to before the payload is read: the
/// document of a successful reply, or the error that the reply stands for.
///
/// A body that is no JSON is a parsing error whatever the status. Under any
/// other status than success the body is read as an error envelope, and is a
/// parsing error where it is none.
pub open spec fn classified(status: u16, document: Result<JsonValue, Seq<char>>) -> Result<
    JsonValue,
    ErrorView,
> {
    match document {
        Err(complaint) => Err(ErrorView::ParsingError(ParseFailureView::Syntax(complaint))),
        Ok(j) => if is_success(status) {
            Ok(j)
        } else {
            match error_response_of(j) {
                Ok(response) => Err(ErrorView::APIError(response)),
                Err(failure) => Err(ErrorView::ParsingError(failure)),
            }
        },
    }
}

/// What a reply to a request for similar tracks comes to, given its status
/// and what its body parsed to.
pub open spec fn similar_tracks_answer(
    status: u16,
    document: Result<JsonValue, Seq<char>>,
) -> Result<Seq<SimilarTrackView>, ErrorView> {
    match classified(status, document) {
        Ok(j) => match similar_tracks_of(j) {
            Some(tracks) => Ok(tracks),
            None => Err(ErrorView::ParsingError(ParseFailureView::Shape)),
        },
        Err(e) => Err(e),
    }
}

/// What a reply to a request for a recommended playlist comes to, given its
/// status and what its body parsed to.
pub open spec fn user_recommended_answer(
    status: u16,
    document: Result<JsonValue, Seq<char>>,
) -> Result<PlaylistView, ErrorView> {
    match classified(status, document) {
        Ok(j) => match playlist_of(j) {
            Some(playlist) => Ok(playlist),
            None => Err(ErrorView::ParsingError(ParseFailureView::Shape)),
        },
        Err(e) => Err(e),
    }
}

/// What `document` says, whichever way the parser went.
pub open spec fn document_view(document: Result<Json, String>) -> Result<JsonValue, Seq<char>> {
    match document {
        Ok(j) => Ok(j@),
        Err(complaint) => Err(complaint@),
    }
}

/// What the exchange for a request for similar tracks comes to.
pub open spec fn similar_tracks_outcome(reply: Result<Response, TransportFailure>) -> Result<
    Seq<SimilarTrackView>,
    ErrorView,
> {
    match reply {
        Err(failure) => Err(ErrorView::HTTPError(failure.message@)),
        Ok(response) => similar_tracks_answer(response.status, parsed(response.body@)),
    }
}

/// What the exchange for a request for a recommended playlist comes to.
pub open spec fn user_recommended_outcome(reply: Result<Response, TransportFailure>) -> Result<
    PlaylistView,
    ErrorView,
> {
    match reply {
        Err(failure) => Err(ErrorView::HTTPError(failure.message@)),
        Ok(response) => user_recommended_answer(response.status, parsed(response.body@)),
    }
}

/// Whether `status` announces success.
pub fn status_is_success(status: u16) -> (r: bool)
    ensures
        r == is_success(status),
{
    200 <= status && status < 300
}

/// Sorts a reply by its status, given what its body parsed to.
pub fn classify(status: u16, document: Result<Json, String>) -> (r: Result<Json, Error>)
    ensures
        match r {
            Ok(j) => classified(status, document_view(document)) == Ok::<_, ErrorView>(j@),
            Err(e) => classified(status, document_view(document)) == Err::<JsonValue, _>(e@),
        },
{
    match document {
        Err(complaint) => Err(Error::ParsingError(ParseFailure::Syntax(complaint))),
        Ok(j) => if status_is_success(status) {
            Ok(j)
        } else {
            match ErrorResponse::from_json(&j) {
                Ok(response) => Err(Error::APIError(response)),
                Err(failure) => Err(Error::ParsingError(failure)),
            }
        },
    }
}

/// Reads the reply to a request for similar tracks from its status and what
/// its body parsed to.
pub fn read_similar_tracks(status: u16, document: Result<Json, String>) -> (r: Result<
    Vec<SimilarTrack>,
    Error,
>)
    ensures
        match r {
            Ok(tracks) => similar_tracks_answer(status, document_view(document)) == Ok::<
                _,
                ErrorView,
            >(tracks_view(tracks@)),
            Err(e) => similar_tracks_answer(status, document_view(document)) == Err::<
                Seq<SimilarTrackView>,
                _,
            >(e@),
        },
{
    match classify(status, document) {
        Ok(j) => match SimilarTracks::from_json(&j) {
            Some(answer) => Ok(answer.similar_tracks.tracks),
            None => Err(Error::ParsingError(ParseFailure::Shape)),
        },
        Err(e) => Err(e),
    }
}

/// Reads the reply to a request for a recommended playlist from its status
/// and what its body parsed to.
pub fn read_user_recommended(status: u16, document: Result<Json, String>) -> (r: Result<
    Playlist,
    Error,
>)
    ensures
        match r {
            Ok(playlist) => user_recommended_answer(status, document_view(document)) == Ok::<
                _,
                ErrorView,
            >(playlist@),
            Err(e) => user_recommended_answer(status, document_view(document)) == Err::<
                PlaylistView,
                _,
            >(e@),
        },
{
    match classify(status, document) {
        Ok(j) => match Playlist::from_json(&j) {
            Some(playlist) => Ok(playlist),
            None => Err(Error::ParsingError(ParseFailure::Shape)),
        },
        Err(e) => Err(e),
    }
}

/// A client of the service: the API key under which it asks.
pub struct Client<'a> {
    api_key: &'a str,
}

impl<'a> Client<'a> {
    /// The API key of this client.
    pub closed spec fn key(self) -> Seq<char> {
        self.api_key@
    }

    /// A client that asks under `api_key`. The key is not examined.
    pub fn new(api_key: &'a str) -> (client: Self)
        ensures
            client.key() == api_key@,
    {
        Client { api_key }
    }

    /// The API key of this client.
    pub fn api_key(&self) -> (key: &'a str)
        ensures
            key@ == self.key(),
    {
        self.api_key
    }

    /// The URL of `method` of the audioscrobbler service with `params`.
    fn build_as_uri(&self, method: &str, params: &str) -> (uri: String)
        ensures
            uri@ == as_uri(self.key(), method@, params@),
    {
        let mut uri = AS_BASE_URL.to_owned();
        uri.append("?method=");
        uri.append(method);
        uri.append("&api_key=");
        uri.append(self.api_key);
        uri.append("&format=json&");
        uri.append(params);
        uri
    }

    /// The URL to fetch for the tracks similar to `track` by `artist`.
    pub fn similar_tracks_url(&self, artist: &str, track: &str) -> (url: String)
        ensures
            url@ == similar_tracks_uri(self.key(), artist@, track@),
    {
        let mut params = "artist=".to_owned();
        params.append(artist);
        params.append("&track=");
        params.append(track);
        self.build_as_uri("track.getsimilar", params.as_str())
    }

    /// The URL to fetch for the playlist recommended to `user`.
    pub fn user_recommended_url(&self, user: &str) -> (url: String)
        ensures
            url@ == user_recommended_uri(user@),
    {
        let mut endpoint = LAST_FM_BASE_URL.to_owned();
        endpoint.append("/player/station/user/");
        endpoint.append(user);
        endpoint.append("/recommended");
        endpoint
    }

    /// The tracks similar to the one asked for, from the exchange that
    /// fetched [`Client::similar_tracks_url`].
    ///
    /// The outcome depends on the exchange alone, and the client is left as
    /// it was.
    pub fn similar_tracks(&self, reply: Result<Response, TransportFailure>) -> (r: Result<
        Vec<SimilarTrack>,
        Error,
    >)
        ensures
            match r {
                Ok(tracks) => similar_tracks_outcome(reply) == Ok::<_, ErrorView>(
                    tracks_view(tracks@),
                ),
                Err(e) => similar_tracks_outcome(reply) == Err::<Seq<SimilarTrackView>, _>(e@),
            },
    {
        match reply {
            Err(failure) => Err(Error::HTTPError(failure)),
            Ok(response) => read_similar_tracks(response.status, parse(response.body.as_slice())),
        }
    }

    /// The playlist recommended to the user asked for, from the exchange that
    /// fetched [`Client::user_recommended_url`].
    ///
    /// The outcome depends on the exchange alone, and the client is left as
    /// it was.
    pub fn user_recommended(&self, reply: Result<Response, TransportFailure>) -> (r: Result<
        Playlist,
        Error,
    >)
        ensures
            match r {
                Ok(playlist) => user_recommended_outcome(reply) == Ok::<_, ErrorView>(playlist@),
                Err(e) => user_recommended_outcome(reply) == Err::<PlaylistView, _>(e@),
            },
    {
        match reply {
            Err(failure) => Err(Error::HTTPError(failure)),
            Ok(response) => read_user_recommended(
                response.status,
                parse(response.body.as_slice()),
            ),
        }
    }
}

/// The status decides how a body is read, and a body of the other shape is
/// a parsing error. Under a status of success no body comes to an error of the
/// service: one that holds no payload is a parsing error, whatever else it
/// holds. Under any other status no body comes to a payload: one that is no
/// error envelope is a parsing error, whatever else it holds.
pub proof fn status_decides_the_reading(status: u16, j: JsonValue)
    ensures
        is_success(status) ==> !(similar_tracks_answer(status, Ok(j)) matches Err(
            ErrorView::APIError(_),
        )) && !(user_recommended_answer(status, Ok(j)) matches Err(ErrorView::APIError(_))),
        is_success(status) && similar_tracks_of(j) is None ==> similar_tracks_answer(status, Ok(j))
            == Err::<Seq<SimilarTrackView>, _>(ErrorView::ParsingError(ParseFailureView::Shape)),
        is_success(status) && playlist_of(j) is None ==> user_recommended_answer(status, Ok(j))
            == Err::<PlaylistView, _>(ErrorView::ParsingError(ParseFailureView::Shape)),
        !is_success(status) ==> similar_tracks_answer(status, Ok(j)) is Err
            && user_recommended_answer(status, Ok(j)) is Err,
        !is_success(status) ==> (error_response_of(j) matches Err(failure)
            ==> similar_tracks_answer(status, Ok(j)) == Err::<Seq<SimilarTrackView>, _>(
            ErrorView::ParsingError(failure),
        ) && user_recommended_answer(status, Ok(j)) == Err::<PlaylistView, _>(
            ErrorView::ParsingError(failure),
        )),
{
}

/// A document without the member `error` is no error envelope, and one
/// without the member `similartracks` or `playlist` holds no payload of that
/// kind. So an error envelope proper is a parsing error under a status of
/// success, and a payload proper is one under any other status.
pub proof fn shapes_are_told_by_their_members(j: JsonValue)
    ensures
        j.member("error"@) is None ==> error_response_of(j) == Err::<ErrorResponseView, _>(
            ParseFailureView::Shape,
        ),
        j.member("similartracks"@) is None ==> similar_tracks_of(j) is None,
        j.member("playlist"@) is None ==> playlist_of(j) is None,
{
}

/// The URL for similar tracks is the one template with the key, the artist
/// and the track put in, in that order.
pub proof fn similar_tracks_uri_is_the_template(
    key: Seq<char>,
    artist: Seq<char>,
    track: Seq<char>,
)
    ensures
        similar_tracks_uri(key, artist, track)
            == "http://ws.audioscrobbler.com/2.0?method=track.getsimilar&api_key="@ + key
            + "&format=json&artist="@ + artist + "&track="@ + track,
{
    reveal_strlit("http://ws.audioscrobbler.com/2.0");
    reveal_strlit("?method=");
    reveal_strlit("track.getsimilar");
    reveal_strlit("&api_key=");
    reveal_strlit("&format=json&");
    reveal_strlit("artist=");
    reveal_strlit("&track=");
    reveal_strlit("http://ws.audioscrobbler.com/2.0?method=track.getsimilar&api_key=");
    reveal_strlit("&format=json&artist=");
    let head = AS_BASE_URL@ + "?method="@ + "track.getsimilar"@ + "&api_key="@;
    assert(head =~= "http://ws.audioscrobbler.com/2.0?method=track.getsimilar&api_key="@);
    assert("&format=json&"@ + "artist="@ =~= "&format=json&artist="@);
    assert(similar_tracks_uri(key, artist, track) =~= head + key + ("&format=json&"@ + "artist="@)
        + artist + "&track="@ + track);
}

/// The URL for a recommended playlist is the one template with the user put
/// in.
pub proof fn user_recommended_uri_is_the_template(user: Seq<char>)
    ensures
        user_recommended_uri(user) == "https://last.fm/player/station/user/"@ + user
            + "/recommended"@,
{
    reveal_strlit("https://last.fm");
    reveal_strlit("/player/station/user/");
    reveal_strlit("https://last.fm/player/station/user/");
    assert(LAST_FM_BASE_URL@ + "/player/station/user/"@ =~= "https://last.fm/player/station/user/"@);
}

} // verus!
