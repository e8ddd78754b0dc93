//! The screens of the navigation engine and what one selection on a screen
//! leads to. A screen never talks to the outside itself: a selection either
//! settles at once, or names the one call to make, whose reply is then turned
//! into the result by one of the `*_fetched` / `*_finished` functions.
use vstd::prelude::*;
use vstd::string::*;
use crate::items::{line_prefix, Album, Artist, ListItem, PlaybackRequest, Playlist, SearchKind, Track};
use crate::mode::ModeMenu;
use crate::notify::{enotify, error_notice, Notification};
use crate::playback::PlaybackMenu;
use crate::search::SearchMenu;
use crate::device::DeviceMenu;
use crate::selection::{lemma_numbered_line_index, quote, quoted, selection_index_of, IndexError};
use crate::mode::Mode;
use crate::text::{concat, decimal, texts};

verus! {

/// What a selection on a screen leads to.
#[derive(Debug, Clone, PartialEq, Eq)]
pub enum MenuResult {
    /// Show this screen; return to the current one when it is left.
    Menu(Screen),
    /// Leave the current screen.
    Back,
    /// Leave all screens.
    Exit,
    /// The text that was entered.
    Input(String),
}

/// A result with the notification to show about it, if any.
#[derive(Debug, Clone, PartialEq, Eq)]
pub struct Outcome {
    pub result: MenuResult,
    pub notice: Option<Notification>,
}

/// One call to the streaming service (or the configuration) that a
/// selection asks for.
#[derive(Debug, Clone, PartialEq, Eq)]
pub enum Request {
    /// The user's playlists.
    Playlists,
    /// The user's saved tracks, at most `max` of them.
    LikedSongs { max: usize },
    /// The user's devices.
    Devices,
    /// A search for `query`, at most `limit` results.
    Search { query: String, kind: SearchKind, limit: u32 },
    /// Start playback on the resolved device.
    Play(PlaybackRequest),
    /// Store `id` as the default device, then move playback to it.
    SwitchDevice { id: String, name: String },
}

/// The first half of handling a selection.
#[derive(Debug, Clone, PartialEq, Eq)]
pub enum Step {
    /// The selection is settled.
    Done(Outcome),
    /// Make this call, then hand its reply on.
    Call(Request),
    /// The selected line names an index past the end of the menu: the menu
    /// and the picker disagree, which is a fault of the program.
    OutOfRange(usize),
}

/// `o` is `result`, with nothing to show.
pub open spec fn quiet(o: Outcome, result: MenuResult) -> bool {
    o.result == result && o.notice is None
}

/// `o` is `result`, with an error notification that reads `body`.
pub open spec fn reported(o: Outcome, result: MenuResult, body: Seq<char>) -> bool {
    &&& o.result == result
    &&& o.notice matches Some(n) && error_notice(n, body)
}

/// `r` settles the selection quietly with `result`.
pub open spec fn done_quietly(r: Step, result: MenuResult) -> bool {
    r matches Step::Done(o) && quiet(o, result)
}

/// `r` settles the selection with `result` and an error notification.
pub open spec fn done_reporting(r: Step, result: MenuResult, body: Seq<char>) -> bool {
    r matches Step::Done(o) && reported(o, result, body)
}

/// `result`, with nothing to show.
pub fn quiet_outcome(result: MenuResult) -> (r: Outcome)
    ensures
        quiet(r, result),
{
    Outcome { result, notice: None }
}

/// `result`, with an error notification that reads `body`.
pub fn reported_outcome(result: MenuResult, body: &str) -> (r: Outcome)
    ensures
        reported(r, result, body@),
{
    Outcome { result, notice: Some(enotify(body)) }
}

/// Leaving a screen with an error notification that reads `prefix` and `detail`.
pub fn back_reporting(prefix: &str, detail: &str) -> (r: Outcome)
    ensures
        reported(r, MenuResult::Back, prefix@ + detail@),
{
    let body = concat(prefix, detail);
    reported_outcome(MenuResult::Back, body.as_str())
}

/// The report on a selected line whose index could not be read.
pub open spec fn index_failure_text(selection: Seq<char>, e: IndexError) -> Seq<char> {
    "Failed to get index of selected item "@ + quoted(selection) + ": "@ + e.message_text()
}

/// What a menu of numbered lines does with a line whose index could not be
/// read: an empty line (the picker was cancelled) leaves quietly, any other
/// line leaves with a report.
pub open spec fn index_failure(selection: Seq<char>, e: IndexError, r: Step) -> bool {
    if selection.len() == 0 {
        done_quietly(r, MenuResult::Back)
    } else {
        done_reporting(r, MenuResult::Back, index_failure_text(selection, e))
    }
}

/// Settles a selected line whose index could not be read.
pub fn index_failure_step(selection: &str, e: IndexError) -> (r: Step)
    ensures
        index_failure(selection@, e, r),
{
    if selection.is_empty() {
        Step::Done(quiet_outcome(MenuResult::Back))
    } else {
        let mut body = concat("Failed to get index of selected item ", quote(selection).as_str());
        body.append(": ");
        body.append(e.message());
        Step::Done(reported_outcome(MenuResult::Back, body.as_str()))
    }
}

/// A screen: the lines it shows the picker, in order, and what a selected
/// line leads to.
pub trait Menu {
    spec fn lines(&self) -> Seq<Seq<char>>;

    spec fn selects(&self, selection: Seq<char>, r: Step) -> bool;

    /// The lines to hand to the picker.
    fn items(&self) -> (r: Vec<String>)
        ensures
            texts(r@) == self.lines(),
    ;

    /// Handles the line the picker returned (empty when it was cancelled).
    fn select(&self, selection: &str) -> (r: Step)
        ensures
            self.selects(selection@, r),
    ;
}

/// An empty list of lines.
pub fn no_items() -> (r: Vec<String>)
    ensures
        texts(r@) == Seq::<Seq<char>>::empty(),
{
    let v: Vec<String> = Vec::new();
    assert(texts(v@) =~= Seq::<Seq<char>>::empty());
    v
}

/// A screen that asks for one line of free text.
#[derive(Debug, Clone, PartialEq, Eq)]
pub struct InputMenu {
    pub prompt_message: String,
}

impl InputMenu {
    pub fn new(prompt_message: String) -> (r: InputMenu)
        ensures
            r.prompt_message == prompt_message,
    {
        InputMenu { prompt_message }
    }
}

impl Menu for InputMenu {
    open spec fn lines(&self) -> Seq<Seq<char>> {
        Seq::empty()
    }

    fn items(&self) -> (r: Vec<String>) {
        no_items()
    }

    /// The entered text, as it is.
    open spec fn selects(&self, selection: Seq<char>, r: Step) -> bool {
        r matches Step::Done(o) && (o.notice is None && (o.result matches MenuResult::Input(t)
            && t@ == selection))
    }

    fn select(&self, selection: &str) -> (r: Step) {
        Step::Done(quiet_outcome(MenuResult::Input(String::from_str(selection))))
    }
}

/// The screens, one variant for each kind.
#[derive(Debug, Clone, PartialEq, Eq)]
pub enum Screen {
    Mode(ModeMenu),
    Search(SearchMenu),
    Albums(PlaybackMenu<Album>),
    Tracks(PlaybackMenu<Track>),
    Playlists(PlaybackMenu<Playlist>),
    Artists(PlaybackMenu<Artist>),
    Devices(DeviceMenu),
    Input(InputMenu),
}

impl Screen {
    pub open spec fn prompt_text(&self) -> Seq<char> {
        match self {
            Screen::Mode(_) => "Rofify"@,
            Screen::Search(_) => "Search"@,
            Screen::Albums(_) => Album::prompt_text(),
            Screen::Tracks(_) => Track::prompt_text(),
            Screen::Playlists(_) => Playlist::prompt_text(),
            Screen::Artists(_) => Artist::prompt_text(),
            Screen::Devices(_) => "Select Device"@,
            Screen::Input(m) => m.prompt_message@,
        }
    }

    /// The prompt that the picker shows above the lines.
    pub fn prompt(&self) -> (r: String)
        ensures
            r@ == self.prompt_text(),
    {
        match self {
            Screen::Mode(_) => String::from_str("Rofify"),
            Screen::Search(_) => String::from_str("Search"),
            Screen::Albums(_) => Album::prompt_message(),
            Screen::Tracks(_) => Track::prompt_message(),
            Screen::Playlists(_) => Playlist::prompt_message(),
            Screen::Artists(_) => Artist::prompt_message(),
            Screen::Devices(_) => String::from_str("Select Device"),
            Screen::Input(m) => m.prompt_message.clone(),
        }
    }

    /// Whether the lines of the screen are numbered items.
    pub open spec fn numbered(&self) -> bool {
        ||| self is Mode
        ||| self is Albums
        ||| self is Tracks
        ||| self is Playlists
        ||| self is Artists
        ||| self is Devices
    }

    /// What selecting line `i` of a numbered screen does.
    pub open spec fn bound_action(&self, i: int, r: Step) -> bool {
        match self {
            Screen::Mode(m) => m.bound_action(i, r),
            Screen::Albums(m) => m.bound_action(i, r),
            Screen::Tracks(m) => m.bound_action(i, r),
            Screen::Playlists(m) => m.bound_action(i, r),
            Screen::Artists(m) => m.bound_action(i, r),
            Screen::Devices(m) => m.bound_action(i, r),
            _ => false,
        }
    }
}

impl Menu for Screen {
    /// The lines the screen shows, in order.
    open spec fn lines(&self) -> Seq<Seq<char>> {
        match self {
            Screen::Mode(m) => m.lines(),
            Screen::Search(m) => m.lines(),
            Screen::Albums(m) => m.lines(),
            Screen::Tracks(m) => m.lines(),
            Screen::Playlists(m) => m.lines(),
            Screen::Artists(m) => m.lines(),
            Screen::Devices(m) => m.lines(),
            Screen::Input(m) => m.lines(),
        }
    }

    /// What a selected line leads to on this screen.
    open spec fn selects(&self, selection: Seq<char>, r: Step) -> bool {
        match self {
            Screen::Mode(m) => m.selects(selection, r),
            Screen::Search(m) => m.selects(selection, r),
            Screen::Albums(m) => m.selects(selection, r),
            Screen::Tracks(m) => m.selects(selection, r),
            Screen::Playlists(m) => m.selects(selection, r),
            Screen::Artists(m) => m.selects(selection, r),
            Screen::Devices(m) => m.selects(selection, r),
            Screen::Input(m) => m.selects(selection, r),
        }
    }

    /// The lines to hand to the picker.
    fn items(&self) -> (r: Vec<String>) {
        match self {
            Screen::Mode(m) => m.items(),
            Screen::Search(m) => m.items(),
            Screen::Albums(m) => m.items(),
            Screen::Tracks(m) => m.items(),
            Screen::Playlists(m) => m.items(),
            Screen::Artists(m) => m.items(),
            Screen::Devices(m) => m.items(),
            Screen::Input(m) => m.items(),
        }
    }

    /// Handles the line the picker returned (empty when it was cancelled).
    fn select(&self, selection: &str) -> (r: Step) {
        match self {
            Screen::Mode(m) => m.select(selection),
            Screen::Search(m) => m.select(selection),
            Screen::Albums(m) => m.select(selection),
            Screen::Tracks(m) => m.select(selection),
            Screen::Playlists(m) => m.select(selection),
            Screen::Artists(m) => m.select(selection),
            Screen::Devices(m) => m.select(selection),
            Screen::Input(m) => m.select(selection),
        }
    }
}

/// On every screen but the one that asks for text, an empty line (the
/// picker was cancelled) leaves the screen, with no report.
pub proof fn lemma_empty_selection_goes_back(s: Screen, r: Step)
    requires
        !(s is Input),
        s.selects(Seq::empty(), r),
    ensures
        done_quietly(r, MenuResult::Back),
{
    assert(selection_index_of(Seq::empty()) == Err::<usize, IndexError>(IndexError::Empty));
}

/// On a numbered screen, a line `"<n>: ..."` does exactly what line `n` is
/// bound to when `n` is within the list, and is refused as a fault when it
/// is not.
pub proof fn lemma_numbered_selection(s: Screen, n: usize, rest: Seq<char>, r: Step)
    requires
        s.numbered(),
        s.selects(decimal(n as nat) + ": "@ + rest, r),
    ensures
        n < s.lines().len() ==> s.bound_action(n as int, r),
        n >= s.lines().len() ==> r == Step::OutOfRange(n),
{
    lemma_numbered_line_index(n, rest);
}

/// On a numbered screen, picking the line shown at position `i` does
/// exactly what item `i` is bound to.
pub proof fn lemma_picking_a_line(s: Screen, i: int, r: Step)
    requires
        s.numbered(),
        0 <= i < s.lines().len(),
        i <= usize::MAX,
        s.selects(s.lines()[i], r),
    ensures
        s.bound_action(i, r),
{
    let entry = match s {
        Screen::Mode(_) => Mode::listed()[i].text(),
        Screen::Albums(m) => m.items@[i].entry(),
        Screen::Tracks(m) => m.items@[i].entry(),
        Screen::Playlists(m) => m.items@[i].entry(),
        Screen::Artists(m) => m.items@[i].entry(),
        Screen::Devices(m) => m.devices@[i].entry(),
        _ => Seq::empty(),
    };
    assert(s.lines()[i] == line_prefix(i as nat) + entry);
    assert(line_prefix(i as nat) + entry =~= decimal(i as nat) + ": "@ + entry);
    lemma_numbered_line_index(i as usize, entry);
}

} // verus!
