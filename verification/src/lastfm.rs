//! The Last.fm client: its error model, the JSON documents it reads and the
//! operations it offers.

pub mod client;
pub mod errors;
pub mod json;
pub mod schema;

pub use client::{Client, Response};
pub use schema::{Artist, InnerSimilarTracks, Playlist, PlaylistItem, SimilarTrack, SimilarTracks};
