//! The values that the operations return, and how each is read from a JSON
//! document.
//!
//! Every value is read from an object by the names of its fields. A field that
//! is missing or of the wrong kind makes the document unreadable; members that
//! no field names are passed over.

use crate::lastfm::json::{
    other_member_is_passed_over, read_all, replaced_member_is_found_in_place, Json, JsonValue,
};
use vstd::prelude::*;

verus! {

/// An artist, by name.
#[derive(Debug, PartialEq)]
pub struct Artist {
    pub name: String,
}

/// What an [`Artist`] says.
pub struct ArtistView {
    pub name: Seq<char>,
}

impl View for Artist {
    type V = ArtistView;

    open spec fn view(&self) -> ArtistView {
        ArtistView { name: self.name@ }
    }
}

/// A track that the service holds to be similar to the one asked about.
#[derive(Debug, PartialEq)]
pub struct SimilarTrack {
    pub name: String,
    pub artist: Artist,
}

/// What a [`SimilarTrack`] says.
pub struct SimilarTrackView {
    pub name: Seq<char>,
    pub artist: ArtistView,
}

impl View for SimilarTrack {
    type V = SimilarTrackView;

    open spec fn view(&self) -> SimilarTrackView {
        SimilarTrackView { name: self.name@, artist: self.artist@ }
    }
}

/// The container in which the service wraps a list of similar tracks.
#[derive(Debug, PartialEq)]
pub struct InnerSimilarTracks {
    pub tracks: Vec<SimilarTrack>,
}

impl View for InnerSimilarTracks {
    type V = Seq<SimilarTrackView>;

    open spec fn view(&self) -> Seq<SimilarTrackView> {
        tracks_view(self.tracks@)
    }
}

/// The document that answers a request for similar tracks.
#[derive(Debug, PartialEq)]
pub struct SimilarTracks {
    pub similar_tracks: InnerSimilarTracks,
}

impl View for SimilarTracks {
    type V = Seq<SimilarTrackView>;

    open spec fn view(&self) -> Seq<SimilarTrackView> {
        self.similar_tracks@
    }
}

/// A track of a playlist, with the artists credited for it.
#[derive(Debug, PartialEq)]
pub struct PlaylistItem {
    pub name: String,
    pub artists: Vec<Artist>,
}

/// What a [`PlaylistItem`] says.
pub struct PlaylistItemView {
    pub name: Seq<char>,
    pub artists: Seq<ArtistView>,
}

impl View for PlaylistItem {
    type V = PlaylistItemView;

    open spec fn view(&self) -> PlaylistItemView {
        PlaylistItemView { name: self.name@, artists: artists_view(self.artists@) }
    }
}

/// A playlist: its tracks in the order in which the service gave them.
#[derive(Debug, PartialEq)]
pub struct Playlist {
    pub playlist: Vec<PlaylistItem>,
}

/// What a [`Playlist`] says.
pub struct PlaylistView {
    pub playlist: Seq<PlaylistItemView>,
}

impl View for Playlist {
    type V = PlaylistView;

    open spec fn view(&self) -> PlaylistView {
        PlaylistView { playlist: items_view(self.playlist@) }
    }
}

/// What a list of artists says, in order.
pub open spec fn artists_view(artists: Seq<Artist>) -> Seq<ArtistView> {
    Seq::new(artists.len(), |i: int| artists[i]@)
}

/// What a list of similar tracks says, in order.
pub open spec fn tracks_view(tracks: Seq<SimilarTrack>) -> Seq<SimilarTrackView> {
    Seq::new(tracks.len(), |i: int| tracks[i]@)
}

/// What a list of playlist items says, in order.
pub open spec fn items_view(items: Seq<PlaylistItem>) -> Seq<PlaylistItemView> {
    Seq::new(items.len(), |i: int| items[i]@)
}

/// An artist: an object whose member `name` is a text.
pub open spec fn artist_of(j: JsonValue) -> Option<ArtistView> {
    match j.text_member("name"@) {
        Some(name) => Some(ArtistView { name }),
        None => None,
    }
}

/// A list of artists: every item an artist.
pub open spec fn artists_of(items: Seq<JsonValue>) -> Option<Seq<ArtistView>> {
    read_all(items, |a: JsonValue| artist_of(a))
}

/// A similar track: an object whose member `name` is a text and whose member
/// `artist` is an artist.
pub open spec fn similar_track_of(j: JsonValue) -> Option<SimilarTrackView> {
    match (j.text_member("name"@), j.member("artist"@)) {
        (Some(name), Some(a)) => match artist_of(a) {
            Some(artist) => Some(SimilarTrackView { name, artist }),
            None => None,
        },
        _ => None,
    }
}

/// A list of similar tracks: every item a similar track.
pub open spec fn tracks_of(items: Seq<JsonValue>) -> Option<Seq<SimilarTrackView>> {
    read_all(items, |t: JsonValue| similar_track_of(t))
}

/// The container of similar tracks: an object whose member `track` is an
/// array of similar tracks.
pub open spec fn inner_similar_tracks_of(j: JsonValue) -> Option<Seq<SimilarTrackView>> {
    match j.array_member("track"@) {
        Some(items) => tracks_of(items),
        None => None,
    }
}

/// The answer to a request for similar tracks: an object whose member
/// `similartracks` is the container; what it holds are the tracks of the
/// container, in the order of the document.
pub open spec fn similar_tracks_of(j: JsonValue) -> Option<Seq<SimilarTrackView>> {
    match j.member("similartracks"@) {
        Some(inner) => inner_similar_tracks_of(inner),
        None => None,
    }
}

/// A playlist item: an object whose member `name` is a text and whose member
/// `artists` is an array of artists.
pub open spec fn playlist_item_of(j: JsonValue) -> Option<PlaylistItemView> {
    match (j.text_member("name"@), j.array_member("artists"@)) {
        (Some(name), Some(items)) => match artists_of(items) {
            Some(artists) => Some(PlaylistItemView { name, artists }),
            None => None,
        },
        _ => None,
    }
}

/// A list of playlist items: every item a playlist item.
pub open spec fn playlist_items_of(items: Seq<JsonValue>) -> Option<Seq<PlaylistItemView>> {
    read_all(items, |i: JsonValue| playlist_item_of(i))
}

/// A playlist: an object whose member `playlist` is an array of playlist
/// items.
pub open spec fn playlist_of(j: JsonValue) -> Option<PlaylistView> {
    match j.array_member("playlist"@) {
        Some(items) => match playlist_items_of(items) {
            Some(playlist) => Some(PlaylistView { playlist }),
            None => None,
        },
        None => None,
    }
}

impl Artist {
    /// Reads an artist from a document.
    pub fn from_json(j: &Json) -> (r: Option<Artist>)
        ensures
            match r {
                Some(artist) => artist_of(j@) == Some(artist@),
                None => artist_of(j@) is None,
            },
    {
        match j.text_member("name") {
            Some(name) => Some(Artist { name: name.clone() }),
            None => None,
        }
    }

    /// Reads a list of artists from the items of an array: all of them, in
    /// order, or `None` where one of the items is none.
    pub fn all_from_json(items: &Vec<Json>) -> (r: Option<Vec<Artist>>)
        ensures
            match r {
                Some(artists) => artists_of(Json::items_view(items@)) == Some(artists_view(artists@)),
                None => artists_of(Json::items_view(items@)) is None,
            },
    {
        let ghost all = Json::items_view(items@);
        let mut artists: Vec<Artist> = Vec::new();
        let mut i: usize = 0;
        while i < items.len()
            invariant
                i <= items.len(),
                artists@.len() == i,
                all == Json::items_view(items@),
                forall|k: int| 0 <= k < i ==> artist_of(#[trigger] all[k]) == Some(artists@[k]@),
            decreases items.len() - i,
        {
            match Artist::from_json(&items[i]) {
                Some(item) => artists.push(item),
                None => {
                    assert((|j: JsonValue| artist_of(j))(all[i as int]) is None);
                    return None;
                },
            }
            i += 1;
        }
        assert(artists_of(all)->0 =~= artists_view(artists@));
        Some(artists)
    }
}

impl SimilarTrack {
    /// Reads a similar track from a document.
    pub fn from_json(j: &Json) -> (r: Option<SimilarTrack>)
        ensures
            match r {
                Some(track) => similar_track_of(j@) == Some(track@),
                None => similar_track_of(j@) is None,
            },
    {
        let name = match j.text_member("name") {
            Some(name) => name,
            None => return None,
        };
        let artist = match j.member("artist") {
            Some(a) => match Artist::from_json(a) {
                Some(artist) => artist,
                None => return None,
            },
            None => return None,
        };
        Some(SimilarTrack { name: name.clone(), artist })
    }

    /// Reads a list of similar tracks from the items of an array: all of them, in
    /// order, or `None` where one of the items is none.
    pub fn all_from_json(items: &Vec<Json>) -> (r: Option<Vec<SimilarTrack>>)
        ensures
            match r {
                Some(tracks) => tracks_of(Json::items_view(items@)) == Some(tracks_view(tracks@)),
                None => tracks_of(Json::items_view(items@)) is None,
            },
    {
        let ghost all = Json::items_view(items@);
        let mut tracks: Vec<SimilarTrack> = Vec::new();
        let mut i: usize = 0;
        while i < items.len()
            invariant
                i <= items.len(),
                tracks@.len() == i,
                all == Json::items_view(items@),
                forall|k: int| 0 <= k < i ==> similar_track_of(#[trigger] all[k]) == Some(tracks@[k]@),
            decreases items.len() - i,
        {
            match SimilarTrack::from_json(&items[i]) {
                Some(item) => tracks.push(item),
                None => {
                    assert((|j: JsonValue| similar_track_of(j))(all[i as int]) is None);
                    return None;
                },
            }
            i += 1;
        }
        assert(tracks_of(all)->0 =~= tracks_view(tracks@));
        Some(tracks)
    }
}

impl InnerSimilarTracks {
    /// Reads the container of similar tracks from a document.
    pub fn from_json(j: &Json) -> (r: Option<InnerSimilarTracks>)
        ensures
            match r {
                Some(inner) => inner_similar_tracks_of(j@) == Some(inner@),
                None => inner_similar_tracks_of(j@) is None,
            },
    {
        match j.array_member("track") {
            Some(items) => match SimilarTrack::all_from_json(items) {
                Some(tracks) => Some(InnerSimilarTracks { tracks }),
                None => None,
            },
            None => None,
        }
    }
}

impl SimilarTracks {
    /// Reads the answer to a request for similar tracks from a document.
    pub fn from_json(j: &Json) -> (r: Option<SimilarTracks>)
        ensures
            match r {
                Some(answer) => similar_tracks_of(j@) == Some(answer@),
                None => similar_tracks_of(j@) is None,
            },
    {
        match j.member("similartracks") {
            Some(inner) => match InnerSimilarTracks::from_json(inner) {
                Some(similar_tracks) => Some(SimilarTracks { similar_tracks }),
                None => None,
            },
            None => None,
        }
    }
}

impl PlaylistItem {
    /// Reads a playlist item from a document.
    pub fn from_json(j: &Json) -> (r: Option<PlaylistItem>)
        ensures
            match r {
                Some(item) => playlist_item_of(j@) == Some(item@),
                None => playlist_item_of(j@) is None,
            },
    {
        let name = match j.text_member("name") {
            Some(name) => name,
            None => return None,
        };
        let artists = match j.array_member("artists") {
            Some(items) => match Artist::all_from_json(items) {
                Some(artists) => artists,
                None => return None,
            },
            None => return None,
        };
        Some(PlaylistItem { name: name.clone(), artists })
    }

    /// Reads a list of playlist items from the items of an array: all of them, in
    /// order, or `None` where one of the items is none.
    pub fn all_from_json(items: &Vec<Json>) -> (r: Option<Vec<PlaylistItem>>)
        ensures
            match r {
                Some(playlist) => playlist_items_of(Json::items_view(items@)) == Some(items_view(playlist@)),
                None => playlist_items_of(Json::items_view(items@)) is None,
            },
    {
        let ghost all = Json::items_view(items@);
        let mut playlist: Vec<PlaylistItem> = Vec::new();
        let mut i: usize = 0;
        while i < items.len()
            invariant
                i <= items.len(),
                playlist@.len() == i,
                all == Json::items_view(items@),
                forall|k: int| 0 <= k < i ==> playlist_item_of(#[trigger] all[k]) == Some(playlist@[k]@),
            decreases items.len() - i,
        {
            match PlaylistItem::from_json(&items[i]) {
                Some(item) => playlist.push(item),
                None => {
                    assert((|j: JsonValue| playlist_item_of(j))(all[i as int]) is None);
                    return None;
                },
            }
            i += 1;
        }
        assert(playlist_items_of(all)->0 =~= items_view(playlist@));
        Some(playlist)
    }
}

impl Playlist {
    /// Reads a playlist from a document.
    pub fn from_json(j: &Json) -> (r: Option<Playlist>)
        ensures
            match r {
                Some(playlist) => playlist_of(j@) == Some(playlist@),
                None => playlist_of(j@) is None,
            },
    {
        match j.array_member("playlist") {
            Some(items) => match PlaylistItem::all_from_json(items) {
                Some(playlist) => Some(Playlist { playlist }),
                None => None,
            },
            None => None,
        }
    }
}

/// Members that no field names are passed over: with a member `(key, value)`
/// put in at any place among the members of an object, each kind of value
/// reads from the object as it did, so long as `key` is none of the names
/// that the kind reads.
pub proof fn unknown_member_is_ignored(
    members: Seq<(Seq<char>, JsonValue)>,
    at: int,
    key: Seq<char>,
    value: JsonValue,
)
    requires
        0 <= at <= members.len(),
    ensures
        ({
            let before = JsonValue::Object(members);
            let after = JsonValue::Object(members.insert(at, (key, value)));
            &&& key != "name"@ ==> artist_of(after) == artist_of(before)
            &&& key != "name"@ && key != "artist"@ ==> similar_track_of(after) == similar_track_of(
                before,
            )
            &&& key != "track"@ ==> inner_similar_tracks_of(after) == inner_similar_tracks_of(
                before,
            )
            &&& key != "similartracks"@ ==> similar_tracks_of(after) == similar_tracks_of(before)
            &&& key != "name"@ && key != "artists"@ ==> playlist_item_of(after)
                == playlist_item_of(before)
            &&& key != "playlist"@ ==> playlist_of(after) == playlist_of(before)
        }),
{
    if key != "name"@ {
        other_member_is_passed_over(members, at, key, value, "name"@);
    }
    if key != "artist"@ {
        other_member_is_passed_over(members, at, key, value, "artist"@);
    }
    if key != "track"@ {
        other_member_is_passed_over(members, at, key, value, "track"@);
    }
    if key != "similartracks"@ {
        other_member_is_passed_over(members, at, key, value, "similartracks"@);
    }
    if key != "artists"@ {
        other_member_is_passed_over(members, at, key, value, "artists"@);
    }
    if key != "playlist"@ {
        other_member_is_passed_over(members, at, key, value, "playlist"@);
    }
}

/// A document takes of a value inside it only what it reads of that value:
/// with the value of one member of an object replaced by a value that reads
/// alike, the object reads as it did. So what holds of unknown members at the
/// top of a document holds at any depth of it.
pub proof fn inner_values_count_by_their_reading(
    members: Seq<(Seq<char>, JsonValue)>,
    at: int,
    value: JsonValue,
)
    requires
        0 <= at < members.len(),
    ensures
        ({
            let key = members[at].0;
            let held = members[at].1;
            let before = JsonValue::Object(members);
            let after = JsonValue::Object(members.update(at, (key, value)));
            &&& key == "artist"@ && artist_of(value) == artist_of(held) ==> similar_track_of(after)
                == similar_track_of(before)
            &&& key == "track"@ && (value matches JsonValue::Array(new) && held matches JsonValue::Array(
                old,
            ) && tracks_of(new) == tracks_of(old)) ==> inner_similar_tracks_of(after)
                == inner_similar_tracks_of(before)
            &&& key == "similartracks"@ && inner_similar_tracks_of(value) == inner_similar_tracks_of(
                held,
            ) ==> similar_tracks_of(after) == similar_tracks_of(before)
            &&& key == "artists"@ && (value matches JsonValue::Array(new) && held matches JsonValue::Array(
                old,
            ) && artists_of(new) == artists_of(old)) ==> playlist_item_of(after)
                == playlist_item_of(before)
            &&& key == "playlist"@ && (value matches JsonValue::Array(new) && held matches JsonValue::Array(
                old,
            ) && playlist_items_of(new) == playlist_items_of(old)) ==> playlist_of(after)
                == playlist_of(before)
        }),
{
    reveal_strlit("name");
    reveal_strlit("artist");
    reveal_strlit("artists");
    assert("name"@.len() != "artist"@.len());
    assert("name"@.len() != "artists"@.len());
    replaced_member_is_found_in_place(members, at, value, "name"@);
    replaced_member_is_found_in_place(members, at, value, "artist"@);
    replaced_member_is_found_in_place(members, at, value, "track"@);
    replaced_member_is_found_in_place(members, at, value, "similartracks"@);
    replaced_member_is_found_in_place(members, at, value, "artists"@);
    replaced_member_is_found_in_place(members, at, value, "playlist"@);
}

/// The envelope gives up exactly the tracks inside it: a document of the form
/// `{"similartracks": {"track": items}}` reads as the tracks that `items`
/// read as, as many as there are items and each in its place.
pub proof fn envelope_holds_its_tracks(items: Seq<JsonValue>)
    requires
        forall|i: int| 0 <= i < items.len() ==> similar_track_of(#[trigger] items[i]) is Some,
    ensures
        ({
            let inner = JsonValue::Object(seq![("track"@, JsonValue::Array(items))]);
            let document = JsonValue::Object(seq![("similartracks"@, inner)]);
            &&& similar_tracks_of(document) matches Some(tracks)
            &&& tracks.len() == items.len()
            &&& forall|i: int|
                0 <= i < items.len() ==> similar_track_of(items[i]) == Some(#[trigger] tracks[i])
        }),
{
    let read = |t: JsonValue| similar_track_of(t);
    assert forall|i: int| 0 <= i < items.len() implies (#[trigger] read(items[i])) is Some by {
        assert(similar_track_of(items[i]) is Some);
    }
}

} // verus!
