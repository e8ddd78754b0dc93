//! What the streaming service hands back, held as plain values: the playable
//! items, the devices, and what starting playback of an item asks for.
use vstd::prelude::*;
use vstd::string::*;
use crate::playback::Error;
use crate::text::{decimal, decimal_text, join, joined, texts};

verus! {

/// What a search looks for.
#[derive(Debug, Clone, Copy, PartialEq, Eq, Structural)]
pub enum SearchKind {
    Artist,
    Album,
    Track,
    Playlist,
}

#[derive(Debug, Clone, PartialEq, Eq)]
pub struct Album {
    pub id: Option<String>,
    pub name: String,
    /// The names of its artists.
    pub artists: Vec<String>,
}

#[derive(Debug, Clone, PartialEq, Eq)]
pub struct Track {
    pub id: Option<String>,
    pub name: String,
    /// The name of the album it is on.
    pub album: String,
    /// The names of its artists.
    pub artists: Vec<String>,
    /// The addresses of the album's cover art, largest first.
    pub album_images: Vec<String>,
}

#[derive(Debug, Clone, PartialEq, Eq)]
pub struct Playlist {
    pub id: String,
    pub name: String,
    /// The display name of its owner, where the owner has one.
    pub owner: Option<String>,
}

#[derive(Debug, Clone, PartialEq, Eq)]
pub struct Artist {
    pub id: String,
    pub name: String,
}

/// A playback endpoint registered with the service.
#[derive(Debug, Clone, PartialEq, Eq)]
pub struct Device {
    pub id: Option<String>,
    pub name: String,
}

/// The kind of a playback context.
#[derive(Debug, Clone, Copy, PartialEq, Eq, Structural)]
pub enum ContextKind {
    Album,
    Playlist,
    Artist,
}

/// One start-playback call: of a context (album, playlist, artist), or of a
/// single track.
#[derive(Debug, Clone, PartialEq, Eq)]
pub enum PlaybackRequest {
    Context { kind: ContextKind, id: String },
    Track { id: String },
}

/// The prefix `"<index>: "` of every menu line.
pub open spec fn line_prefix(index: nat) -> Seq<char> {
    decimal(index) + ": "@
}

/// Starts the menu line of the item at `index` with `"<index>: "`.
pub fn start_line(index: usize) -> (r: String)
    ensures
        r@ == line_prefix(index as nat),
{
    let mut s = decimal_text(index as u64);
    s.append(": ");
    s
}

/// A value that stands on one line of a menu.
pub trait ListItem: Sized {
    spec fn prompt_text() -> Seq<char>;

    /// The text of this value on a menu line, after the line's number.
    spec fn entry(&self) -> Seq<char>;

    /// The prompt of a menu of such values.
    fn prompt_message() -> (r: String)
        ensures
            r@ == Self::prompt_text(),
    ;

    /// The menu line of this value when it stands at `index`.
    fn list_item(&self, index: usize) -> (r: String)
        ensures
            r@ == line_prefix(index as nat) + self.entry(),
    ;
}

/// A value whose playback can be started.
pub trait StartPlayback: Sized {
    spec fn target(&self) -> Result<PlaybackRequest, Error>;

    /// The call that starts playback of this value, or why there is none.
    fn playback_request(&self) -> (r: Result<PlaybackRequest, Error>)
        ensures
            r == self.target(),
    ;
}

impl ListItem for Album {
    open spec fn prompt_text() -> Seq<char> {
        "Select Album"@
    }

    open spec fn entry(&self) -> Seq<char> {
        self.name@ + " | "@ + joined(texts(self.artists@), ", "@)
    }

    fn prompt_message() -> (r: String) {
        String::from_str("Select Album")
    }

    fn list_item(&self, index: usize) -> (r: String) {
        let mut s = start_line(index);
        s.append(self.name.as_str());
        s.append(" | ");
        let artists = join(&self.artists, ", ");
        s.append(artists.as_str());
        s
    }
}

impl StartPlayback for Album {
    open spec fn target(&self) -> Result<PlaybackRequest, Error> {
        match self.id {
            Some(id) => Ok(PlaybackRequest::Context { kind: ContextKind::Album, id }),
            None => Err(Error::NoId(self.name)),
        }
    }

    fn playback_request(&self) -> (r: Result<PlaybackRequest, Error>) {
        match &self.id {
            Some(id) => Ok(PlaybackRequest::Context { kind: ContextKind::Album, id: id.clone() }),
            None => Err(Error::NoId(self.name.clone())),
        }
    }
}

impl ListItem for Track {
    open spec fn prompt_text() -> Seq<char> {
        "Select Track"@
    }

    open spec fn entry(&self) -> Seq<char> {
        self.name@ + " | "@ + self.album@ + " | "@ + joined(texts(self.artists@), ", "@)
    }

    fn prompt_message() -> (r: String) {
        String::from_str("Select Track")
    }

    fn list_item(&self, index: usize) -> (r: String) {
        let mut s = start_line(index);
        s.append(self.name.as_str());
        s.append(" | ");
        s.append(self.album.as_str());
        s.append(" | ");
        let artists = join(&self.artists, ", ");
        s.append(artists.as_str());
        s
    }
}

impl StartPlayback for Track {
    open spec fn target(&self) -> Result<PlaybackRequest, Error> {
        match self.id {
            Some(id) => Ok(PlaybackRequest::Track { id }),
            None => Err(Error::NoId(self.name)),
        }
    }

    fn playback_request(&self) -> (r: Result<PlaybackRequest, Error>) {
        match &self.id {
            Some(id) => Ok(PlaybackRequest::Track { id: id.clone() }),
            None => Err(Error::NoId(self.name.clone())),
        }
    }
}

impl ListItem for Playlist {
    open spec fn prompt_text() -> Seq<char> {
        "Select Playlist"@
    }

    open spec fn entry(&self) -> Seq<char> {
        self.name@ + " | "@ + match self.owner {
            Some(o) => o@,
            None => Seq::empty(),
        }
    }

    fn prompt_message() -> (r: String) {
        String::from_str("Select Playlist")
    }

    fn list_item(&self, index: usize) -> (r: String) {
        let mut s = start_line(index);
        s.append(self.name.as_str());
        s.append(" | ");
        match &self.owner {
            Some(o) => s.append(o.as_str()),
            None => {},
        }
        proof {
            if self.owner is None {
                assert(s@ =~= line_prefix(index as nat) + self.entry());
            }
        }
        s
    }
}

impl StartPlayback for Playlist {
    open spec fn target(&self) -> Result<PlaybackRequest, Error> {
        Ok(PlaybackRequest::Context { kind: ContextKind::Playlist, id: self.id })
    }

    fn playback_request(&self) -> (r: Result<PlaybackRequest, Error>) {
        Ok(PlaybackRequest::Context { kind: ContextKind::Playlist, id: self.id.clone() })
    }
}

impl ListItem for Artist {
    open spec fn prompt_text() -> Seq<char> {
        "Select Artist"@
    }

    open spec fn entry(&self) -> Seq<char> {
        self.name@
    }

    fn prompt_message() -> (r: String) {
        String::from_str("Select Artist")
    }

    fn list_item(&self, index: usize) -> (r: String) {
        let mut s = start_line(index);
        s.append(self.name.as_str());
        s
    }
}

impl StartPlayback for Artist {
    open spec fn target(&self) -> Result<PlaybackRequest, Error> {
        Ok(PlaybackRequest::Context { kind: ContextKind::Artist, id: self.id })
    }

    fn playback_request(&self) -> (r: Result<PlaybackRequest, Error>) {
        Ok(PlaybackRequest::Context { kind: ContextKind::Artist, id: self.id.clone() })
    }
}

impl Device {
    /// The text of this device on a menu line, after the line's number.
    pub open spec fn entry(&self) -> Seq<char> {
        self.name@
    }

    /// The menu line of this device when it stands at `index`.
    pub fn list_item(&self, index: usize) -> (r: String)
        ensures
            r@ == line_prefix(index as nat) + self.entry(),
    {
        let mut s = start_line(index);
        s.append(self.name.as_str());
        s
    }
}

} // verus!
