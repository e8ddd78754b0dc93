//! The screen that lists playable items and starts playback of the one picked.
use vstd::prelude::*;
use crate::items::{line_prefix, Album, ListItem, StartPlayback, Track};
use crate::menu::{
    back_reporting, done_reporting, index_failure, index_failure_step, quiet, quiet_outcome,
    reported, Menu, MenuResult, Outcome, Request, Step,
};
use crate::selection::{selection_index, selection_index_of};
use crate::text::{concat, texts};

verus! {

/// Why playback of an item could not be started.
#[derive(Debug, Clone, PartialEq, Eq)]
pub enum Error {
    /// The service refused the call; its message.
    Client(String),
    /// The item carries no identifier; its name.
    NoId(String),
}

impl Error {
    pub open spec fn message_text(&self) -> Seq<char> {
        match self {
            Error::Client(m) => "spotify client error: "@ + m@,
            Error::NoId(name) => "no id found for "@ + name@,
        }
    }

    /// The error in words.
    pub fn message(&self) -> (r: String)
        ensures
            r@ == self.message_text(),
    {
        match self {
            Error::Client(m) => concat("spotify client error: ", m.as_str()),
            Error::NoId(name) => concat("no id found for ", name.as_str()),
        }
    }
}

#[derive(Debug, Clone, PartialEq, Eq)]
pub struct PlaybackMenu<T> {
    pub items: Vec<T>,
}

/// The screen of albums.
pub type AlbumMenu = PlaybackMenu<Album>;

/// The screen of tracks.
pub type TrackMenu = PlaybackMenu<Track>;

pub open spec fn playback_failure_text(e: Error) -> Seq<char> {
    "Failed to start playback: "@ + e.message_text()
}

impl<T: ListItem + StartPlayback> PlaybackMenu<T> {
    pub fn new(items: Vec<T>) -> (r: PlaybackMenu<T>)
        ensures
            r.items == items,
    {
        PlaybackMenu { items }
    }

    /// What selecting item `i` does: start its playback, or report why
    /// there is none.
    pub open spec fn bound_action(&self, i: int, r: Step) -> bool {
        match self.items@[i].target() {
            Ok(req) => r == Step::Call(Request::Play(req)),
            Err(e) => done_reporting(r, MenuResult::Back, playback_failure_text(e)),
        }
    }
}

impl<T: ListItem + StartPlayback> Menu for PlaybackMenu<T> {
    /// One line per item, in the order of the items.
    open spec fn lines(&self) -> Seq<Seq<char>> {
        Seq::new(self.items@.len(), |i: int| line_prefix(i as nat) + self.items@[i].entry())
    }

    fn items(&self) -> (r: Vec<String>) {
        let mut out: Vec<String> = Vec::new();
        let mut i: usize = 0;
        while i < self.items.len()
            invariant
                i <= self.items@.len(),
                out@.len() == i,
                forall|j: int| 0 <= j < i ==> #[trigger] out@[j]@ == line_prefix(j as nat) + self.items@[j].entry(),
            decreases self.items@.len() - i,
        {
            out.push(self.items[i].list_item(i));
            i = i + 1;
        }
        assert(texts(out@) =~= self.lines());
        out
    }

    /// A line naming item `i` does what item `i` is bound to; an index past
    /// the end is a fault.
    open spec fn selects(&self, selection: Seq<char>, r: Step) -> bool {
        match selection_index_of(selection) {
            Ok(i) => if i < self.items@.len() {
                self.bound_action(i as int, r)
            } else {
                r == Step::OutOfRange(i)
            },
            Err(e) => index_failure(selection, e, r),
        }
    }

    fn select(&self, selection: &str) -> (r: Step) {
        match selection_index(selection) {
            Ok(i) => {
                if i < self.items.len() {
                    match self.items[i].playback_request() {
                        Ok(req) => Step::Call(Request::Play(req)),
                        Err(e) => Step::Done(back_reporting("Failed to start playback: ", e.message().as_str())),
                    }
                } else {
                    Step::OutOfRange(i)
                }
            },
            Err(e) => index_failure_step(selection, e),
        }
    }
}

/// The result of a start-playback call: all screens close once playback
/// runs; a failure goes back with a report.
pub fn playback_started(reply: Result<(), Error>) -> (r: Outcome)
    ensures
        match reply {
            Ok(()) => quiet(r, MenuResult::Exit),
            Err(e) => reported(r, MenuResult::Back, playback_failure_text(e)),
        },
{
    match reply {
        Ok(()) => quiet_outcome(MenuResult::Exit),
        Err(e) => back_reporting("Failed to start playback: ", e.message().as_str()),
    }
}

} // verus!
