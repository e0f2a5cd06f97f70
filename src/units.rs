use vstd::prelude::*;

use crate::duration::{duration_text, duration_to_string};

verus! {

/// Records that can be copied with a proof that the copy equals its source.
pub trait Duplicate: Sized {
    fn duplicate(&self) -> (r: Self)
        ensures
            r == *self,
    ;
}

/// One song of a result list.
#[derive(Debug, Clone, PartialEq, Eq)]
pub struct MusicUnit {
    pub liked: bool,
    pub artist: String,
    pub name: String,
    pub duration: String,
    pub path: String,
}

/// One playlist of a search result.
#[derive(Debug, Clone, PartialEq, Eq)]
pub struct PlaylistUnit {
    pub title: String,
    pub id: String,
    pub author: String,
    pub video_count: u64,
}

/// One artist (channel) of a search result.
#[derive(Debug, Clone, PartialEq, Eq)]
pub struct ArtistUnit {
    pub author: String,
    pub id: String,
    pub video_count: u64,
}

/// The address under which a video id is played.
pub open spec fn watch_path(video_id: Seq<char>) -> Seq<char> {
    "https://www.youtube.com/watch?v="@ + video_id
}

impl MusicUnit {
    /// Builds a song from the fields that the API sends for it: its title,
    /// video id, author and length in seconds. A new song is not liked.
    pub fn from_fields(title: String, video_id: &str, author: String, length_seconds: u64) -> (r:
        MusicUnit)
        ensures
            r.name == title,
            r.artist == author,
            r.duration@ == duration_text(length_seconds as nat),
            r.path@ == watch_path(video_id@),
            !r.liked,
    {
        let mut path = String::from_str("https://www.youtube.com/watch?v=");
        path.append(video_id);
        MusicUnit {
            liked: false,
            artist: author,
            name: title,
            duration: duration_to_string(length_seconds),
            path,
        }
    }
}

impl Duplicate for MusicUnit {
    fn duplicate(&self) -> (r: Self) {
        MusicUnit {
            liked: self.liked,
            artist: self.artist.clone(),
            name: self.name.clone(),
            duration: self.duration.clone(),
            path: self.path.clone(),
        }
    }
}

impl Duplicate for PlaylistUnit {
    fn duplicate(&self) -> (r: Self) {
        PlaylistUnit {
            title: self.title.clone(),
            id: self.id.clone(),
            author: self.author.clone(),
            video_count: self.video_count,
        }
    }
}

impl Duplicate for ArtistUnit {
    fn duplicate(&self) -> (r: Self) {
        ArtistUnit { author: self.author.clone(), id: self.id.clone(), video_count: self.video_count }
    }
}

} // verus!
