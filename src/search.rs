//! The screen that asks for a search query.
use vstd::prelude::*;
use vstd::string::*;
use crate::items::{Album, Artist, Playlist, SearchKind, Track};
use crate::menu::{no_items, Menu, back_reporting, done_quietly, quiet, quiet_outcome, reported, MenuResult, Outcome, Request, Screen, Step};
use crate::playback::PlaybackMenu;
use crate::selection::{quote, quoted};

verus! {

/// The most results one search asks for.
pub const SEARCH_LIMIT: u32 = 25;

#[derive(Debug, Clone, Copy, PartialEq, Eq, Structural)]
pub struct SearchMenu {
    pub search_type: SearchKind,
}

/// The results of a search, by kind.
#[derive(Debug, Clone, PartialEq, Eq)]
pub enum SearchResults {
    Artists(Vec<Artist>),
    Albums(Vec<Album>),
    Tracks(Vec<Track>),
    Playlists(Vec<Playlist>),
    /// Results of a kind that no screen lists.
    Other,
}

impl SearchMenu {
    pub fn new(search_type: SearchKind) -> (r: SearchMenu)
        ensures
            r.search_type == search_type,
    {
        SearchMenu { search_type }
    }
}

impl Menu for SearchMenu {
    open spec fn lines(&self) -> Seq<Seq<char>> {
        Seq::empty()
    }

    /// The picker shows no lines: it takes the query as typed.
    fn items(&self) -> (r: Vec<String>) {
        no_items()
    }

    /// An empty query goes back; any other is searched for.
    open spec fn selects(&self, selection: Seq<char>, r: Step) -> bool {
        if selection.len() == 0 {
            done_quietly(r, MenuResult::Back)
        } else {
            r matches Step::Call(Request::Search { query, kind, limit }) && query@ == selection
                && kind == self.search_type && limit == SEARCH_LIMIT
        }
    }

    fn select(&self, selection: &str) -> (r: Step) {
        if selection.is_empty() {
            return Step::Done(quiet_outcome(MenuResult::Back));
        }
        Step::Call(
            Request::Search {
                query: String::from_str(selection),
                kind: self.search_type,
                limit: SEARCH_LIMIT,
            },
        )
    }
}

pub open spec fn search_failure_text(query: Seq<char>, message: Seq<char>) -> Seq<char> {
    "Failed to get results for search "@ + quoted(query) + ": "@ + message
}

/// The result of a search for `query`: a screen of what was found, all
/// screens closed for results that no screen lists, or a report.
pub fn search_finished(query: &str, reply: Result<SearchResults, String>) -> (r: Outcome)
    ensures
        match reply {
            Ok(SearchResults::Artists(v)) => quiet(r, MenuResult::Menu(Screen::Artists(PlaybackMenu { items: v }))),
            Ok(SearchResults::Albums(v)) => quiet(r, MenuResult::Menu(Screen::Albums(PlaybackMenu { items: v }))),
            Ok(SearchResults::Tracks(v)) => quiet(r, MenuResult::Menu(Screen::Tracks(PlaybackMenu { items: v }))),
            Ok(SearchResults::Playlists(v)) => quiet(r, MenuResult::Menu(Screen::Playlists(PlaybackMenu { items: v }))),
            Ok(SearchResults::Other) => quiet(r, MenuResult::Exit),
            Err(m) => reported(r, MenuResult::Back, search_failure_text(query@, m@)),
        },
{
    match reply {
        Ok(SearchResults::Artists(v)) => quiet_outcome(MenuResult::Menu(Screen::Artists(PlaybackMenu::new(v)))),
        Ok(SearchResults::Albums(v)) => quiet_outcome(MenuResult::Menu(Screen::Albums(PlaybackMenu::new(v)))),
        Ok(SearchResults::Tracks(v)) => quiet_outcome(MenuResult::Menu(Screen::Tracks(PlaybackMenu::new(v)))),
        Ok(SearchResults::Playlists(v)) => quiet_outcome(MenuResult::Menu(Screen::Playlists(PlaybackMenu::new(v)))),
        Ok(SearchResults::Other) => quiet_outcome(MenuResult::Exit),
        Err(m) => {
            let mut prefix = String::from_str("Failed to get results for search ");
            prefix.append(quote(query).as_str());
            prefix.append(": ");
            back_reporting(prefix.as_str(), m.as_str())
        },
    }
}

} // verus!
