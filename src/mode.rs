//! The top screen: the fixed list of modes. Nothing is fetched until a mode
//! is picked.
use vstd::prelude::*;
use vstd::string::*;
use crate::items::{line_prefix, start_line, Playlist, SearchKind, Track};
use crate::menu::{
    back_reporting, done_quietly, index_failure, index_failure_step, quiet, quiet_outcome, reported,
    Menu, MenuResult, Outcome, Request, Screen, Step,
};
use crate::playback::PlaybackMenu;
use crate::search::SearchMenu;
use crate::selection::{selection_index, selection_index_of};
use crate::text::{same_text, texts};

verus! {

/// The most saved tracks that the liked-songs mode lists.
pub const LIKED_SONGS_LIMIT: usize = 100;

#[derive(Debug, Clone, Copy, PartialEq, Eq, Structural)]
pub enum Mode {
    ArtistSearch,
    AlbumSearch,
    TrackSearch,
    PlaylistSearch,
    MyPlaylists,
    LikedSongs,
    Device,
}

/// A line that names no mode.
#[derive(Debug, Clone, Copy, PartialEq, Eq, Structural)]
pub struct ParseModeError;

impl Mode {
    pub open spec fn text(&self) -> Seq<char> {
        match self {
            Mode::ArtistSearch => "Artist Search"@,
            Mode::AlbumSearch => "Album Search"@,
            Mode::TrackSearch => "Track Search"@,
            Mode::PlaylistSearch => "Playlist Search"@,
            Mode::MyPlaylists => "My Playlists"@,
            Mode::LikedSongs => "Liked Songs"@,
            Mode::Device => "Device"@,
        }
    }

    /// The modes in the order the menu lists them.
    pub open spec fn listed() -> Seq<Mode> {
        seq![
            Mode::ArtistSearch,
            Mode::AlbumSearch,
            Mode::TrackSearch,
            Mode::PlaylistSearch,
            Mode::MyPlaylists,
            Mode::LikedSongs,
            Mode::Device,
        ]
    }

    /// The mode that a line names, trying the modes in their listed order.
    pub open spec fn named(s: Seq<char>) -> Option<Mode> {
        if s == "Artist Search"@ {
            Some(Mode::ArtistSearch)
        } else if s == "Album Search"@ {
            Some(Mode::AlbumSearch)
        } else if s == "Track Search"@ {
            Some(Mode::TrackSearch)
        } else if s == "Playlist Search"@ {
            Some(Mode::PlaylistSearch)
        } else if s == "My Playlists"@ {
            Some(Mode::MyPlaylists)
        } else if s == "Liked Songs"@ {
            Some(Mode::LikedSongs)
        } else if s == "Device"@ {
            Some(Mode::Device)
        } else {
            None
        }
    }

    /// The name of the mode as the menu shows it.
    pub fn to_string(&self) -> (r: String)
        ensures
            r@ == self.text(),
    {
        match self {
            Mode::ArtistSearch => String::from_str("Artist Search"),
            Mode::AlbumSearch => String::from_str("Album Search"),
            Mode::TrackSearch => String::from_str("Track Search"),
            Mode::PlaylistSearch => String::from_str("Playlist Search"),
            Mode::MyPlaylists => String::from_str("My Playlists"),
            Mode::LikedSongs => String::from_str("Liked Songs"),
            Mode::Device => String::from_str("Device"),
        }
    }

    /// Every mode, in the order the menu lists them.
    pub fn all() -> (r: Vec<Mode>)
        ensures
            r@ == Mode::listed(),
    {
        let r = vec![
            Mode::ArtistSearch,
            Mode::AlbumSearch,
            Mode::TrackSearch,
            Mode::PlaylistSearch,
            Mode::MyPlaylists,
            Mode::LikedSongs,
            Mode::Device,
        ];
        assert(r@ =~= Mode::listed());
        r
    }

    /// The mode whose name is exactly `s`.
    pub fn parse(s: &str) -> (r: Result<Mode, ParseModeError>)
        ensures
            match Mode::named(s@) {
                Some(m) => r == Ok::<Mode, ParseModeError>(m),
                None => r == Err::<Mode, ParseModeError>(ParseModeError),
            },
    {
        if same_text(s, "Artist Search") {
            Ok(Mode::ArtistSearch)
        } else if same_text(s, "Album Search") {
            Ok(Mode::AlbumSearch)
        } else if same_text(s, "Track Search") {
            Ok(Mode::TrackSearch)
        } else if same_text(s, "Playlist Search") {
            Ok(Mode::PlaylistSearch)
        } else if same_text(s, "My Playlists") {
            Ok(Mode::MyPlaylists)
        } else if same_text(s, "Liked Songs") {
            Ok(Mode::LikedSongs)
        } else if same_text(s, "Device") {
            Ok(Mode::Device)
        } else {
            Err(ParseModeError)
        }
    }
}

impl std::str::FromStr for Mode {
    type Err = ParseModeError;

    fn from_str(s: &str) -> Result<Mode, ParseModeError> {
        Mode::parse(s)
    }
}

#[derive(Debug, Clone, Copy, PartialEq, Eq, Structural)]
pub struct ModeMenu;

impl ModeMenu {
    pub fn new() -> (r: ModeMenu) {
        ModeMenu
    }

    /// What selecting line `i` does: a search mode opens its search screen
    /// at once; the other modes ask for the list they show.
    pub open spec fn bound_action(&self, i: int, r: Step) -> bool {
        mode_action(Mode::listed()[i], r)
    }
}

/// What picking `mode` leads to.
pub open spec fn mode_action(mode: Mode, r: Step) -> bool {
    match mode {
        Mode::ArtistSearch => done_quietly(r, MenuResult::Menu(Screen::Search(SearchMenu { search_type: SearchKind::Artist }))),
        Mode::AlbumSearch => done_quietly(r, MenuResult::Menu(Screen::Search(SearchMenu { search_type: SearchKind::Album }))),
        Mode::TrackSearch => done_quietly(r, MenuResult::Menu(Screen::Search(SearchMenu { search_type: SearchKind::Track }))),
        Mode::PlaylistSearch => done_quietly(r, MenuResult::Menu(Screen::Search(SearchMenu { search_type: SearchKind::Playlist }))),
        Mode::MyPlaylists => r == Step::Call(Request::Playlists),
        Mode::LikedSongs => r == Step::Call(Request::LikedSongs { max: LIKED_SONGS_LIMIT }),
        Mode::Device => r == Step::Call(Request::Devices),
    }
}

fn mode_step(mode: Mode) -> (r: Step)
    ensures
        mode_action(mode, r),
{
    match mode {
        Mode::ArtistSearch => Step::Done(quiet_outcome(MenuResult::Menu(Screen::Search(SearchMenu::new(SearchKind::Artist))))),
        Mode::AlbumSearch => Step::Done(quiet_outcome(MenuResult::Menu(Screen::Search(SearchMenu::new(SearchKind::Album))))),
        Mode::TrackSearch => Step::Done(quiet_outcome(MenuResult::Menu(Screen::Search(SearchMenu::new(SearchKind::Track))))),
        Mode::PlaylistSearch => Step::Done(quiet_outcome(MenuResult::Menu(Screen::Search(SearchMenu::new(SearchKind::Playlist))))),
        Mode::MyPlaylists => Step::Call(Request::Playlists),
        Mode::LikedSongs => Step::Call(Request::LikedSongs { max: LIKED_SONGS_LIMIT }),
        Mode::Device => Step::Call(Request::Devices),
    }
}

impl Menu for ModeMenu {
    /// One numbered line per mode, in the listed order.
    open spec fn lines(&self) -> Seq<Seq<char>> {
        Seq::new(Mode::listed().len(), |i: int| line_prefix(i as nat) + Mode::listed()[i].text())
    }

    fn items(&self) -> (r: Vec<String>) {
        let modes = Mode::all();
        let mut out: Vec<String> = Vec::new();
        let mut i: usize = 0;
        while i < modes.len()
            invariant
                modes@ == Mode::listed(),
                i <= modes@.len(),
                out@.len() == i,
                forall|j: int| 0 <= j < i ==> #[trigger] out@[j]@ == line_prefix(j as nat) + modes@[j].text(),
            decreases modes@.len() - i,
        {
            let mut line = start_line(i);
            line.append(modes[i].to_string().as_str());
            out.push(line);
            i = i + 1;
        }
        assert(texts(out@) =~= self.lines());
        out
    }

    /// A line naming mode `i` does what mode `i` is bound to; an index past
    /// the end is a fault.
    open spec fn selects(&self, selection: Seq<char>, r: Step) -> bool {
        match selection_index_of(selection) {
            Ok(i) => if i < Mode::listed().len() {
                self.bound_action(i as int, r)
            } else {
                r == Step::OutOfRange(i)
            },
            Err(e) => index_failure(selection, e, r),
        }
    }

    fn select(&self, selection: &str) -> (r: Step) {
        match selection_index(selection) {
            Ok(i) => {
                let modes = Mode::all();
                if i < modes.len() {
                    mode_step(modes[i])
                } else {
                    Step::OutOfRange(i)
                }
            },
            Err(e) => index_failure_step(selection, e),
        }
    }
}

/// The result of fetching the user's playlists.
pub fn playlists_fetched(reply: Result<Vec<Playlist>, String>) -> (r: Outcome)
    ensures
        match reply {
            Ok(v) => quiet(r, MenuResult::Menu(Screen::Playlists(PlaybackMenu { items: v }))),
            Err(m) => reported(r, MenuResult::Back, "Failed to get playlists: "@ + m@),
        },
{
    match reply {
        Ok(v) => quiet_outcome(MenuResult::Menu(Screen::Playlists(PlaybackMenu::new(v)))),
        Err(m) => back_reporting("Failed to get playlists: ", m.as_str()),
    }
}

/// The result of fetching the user's saved tracks.
pub fn liked_songs_fetched(reply: Result<Vec<Track>, String>) -> (r: Outcome)
    ensures
        match reply {
            Ok(v) => quiet(r, MenuResult::Menu(Screen::Tracks(PlaybackMenu { items: v }))),
            Err(m) => reported(r, MenuResult::Back, "Failed to get liked songs: "@ + m@),
        },
{
    match reply {
        Ok(v) => quiet_outcome(MenuResult::Menu(Screen::Tracks(PlaybackMenu::new(v)))),
        Err(m) => back_reporting("Failed to get liked songs: ", m.as_str()),
    }
}

} // verus!
