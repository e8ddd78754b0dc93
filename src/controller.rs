//! One-shot transport actions. The decisions are made here from the
//! playback context that the caller fetched; the caller makes the one call
//! that the plan names and shows its notification once the call succeeded.
use vstd::prelude::*;
use vstd::string::*;
use crate::items::Track;
use crate::notify::{enotify, error_notice, notice_is, notify, Notification};
use crate::text::{concat, join, joined, texts};

verus! {

#[derive(Debug, Clone, Copy, PartialEq, Eq, Structural)]
pub enum Action {
    PlayPause,
    Next,
    Previous,
    Like,
    Shuffle,
    Repeat,
    OnChange,
}

impl Action {
    pub open spec fn text(&self) -> Seq<char> {
        match self {
            Action::PlayPause => "play-pause"@,
            Action::Next => "next"@,
            Action::Previous => "previous"@,
            Action::Like => "like"@,
            Action::Shuffle => "shuffle"@,
            Action::Repeat => "repeat"@,
            Action::OnChange => "on-change"@,
        }
    }

    /// The name of the action on the command line.
    pub fn to_string(&self) -> (r: String)
        ensures
            r@ == self.text(),
    {
        match self {
            Action::PlayPause => String::from_str("play-pause"),
            Action::Next => String::from_str("next"),
            Action::Previous => String::from_str("previous"),
            Action::Like => String::from_str("like"),
            Action::Shuffle => String::from_str("shuffle"),
            Action::Repeat => String::from_str("repeat"),
            Action::OnChange => String::from_str("on-change"),
        }
    }

    /// Whether the action reads the current playback context.
    pub fn needs_context(&self) -> (r: bool)
        ensures
            r == !(*self == Action::Next || *self == Action::Previous),
    {
        match self {
            Action::Next | Action::Previous => false,
            _ => true,
        }
    }
}

#[derive(Debug, Clone, Copy, PartialEq, Eq, Structural)]
pub enum RepeatState {
    Off,
    Context,
    Track,
}

impl RepeatState {
    /// The state that the repeat action moves to: off, then the whole
    /// context, then the one track, then off again.
    pub open spec fn following(&self) -> RepeatState {
        match self {
            RepeatState::Off => RepeatState::Context,
            RepeatState::Context => RepeatState::Track,
            RepeatState::Track => RepeatState::Off,
        }
    }

    pub open spec fn text(&self) -> Seq<char> {
        match self {
            RepeatState::Off => "off"@,
            RepeatState::Context => "context"@,
            RepeatState::Track => "track"@,
        }
    }

    /// The state that the repeat action moves to.
    pub fn next(&self) -> (r: RepeatState)
        ensures
            r == self.following(),
    {
        match self {
            RepeatState::Off => RepeatState::Context,
            RepeatState::Context => RepeatState::Track,
            RepeatState::Track => RepeatState::Off,
        }
    }

    /// The state's name as the notification shows it.
    pub fn name(&self) -> (r: &'static str)
        ensures
            r@ == self.text(),
    {
        match self {
            RepeatState::Off => "off",
            RepeatState::Context => "context",
            RepeatState::Track => "track",
        }
    }
}

/// What is playing.
#[derive(Debug, Clone, PartialEq, Eq)]
pub enum PlayingItem {
    Track(Track),
    /// Something that is no track, such as an episode.
    Other,
}

/// The current playback, as the service reports it.
#[derive(Debug, Clone, PartialEq, Eq)]
pub struct PlaybackContext {
    pub is_playing: bool,
    pub shuffle_state: bool,
    pub repeat_state: RepeatState,
    pub item: Option<PlayingItem>,
}

/// One call to the service (or, for the cover art, a download).
#[derive(Debug, Clone, PartialEq, Eq)]
pub enum Command {
    Pause,
    Resume,
    NextTrack,
    PreviousTrack,
    SetShuffle(bool),
    SetRepeat(RepeatState),
    /// Ask whether the track is among the saved tracks.
    CheckSaved(String),
    /// Add the track to the saved tracks.
    AddSaved(String),
    /// Download the cover art at this address and save it as the icon.
    FetchCoverArt(String),
}

/// The call to make, and what to show once it succeeded.
#[derive(Debug, Clone, PartialEq, Eq)]
pub struct Plan {
    pub command: Option<Command>,
    pub notice: Option<Notification>,
}

/// Why an action failed.
#[derive(Debug, Clone, PartialEq, Eq)]
pub enum Error {
    Io(String),
    Client(String),
    Http(String),
    Image(String),
    /// Nothing is playing.
    NoContext,
    /// What is playing is no track.
    NotTrack,
    /// The track playing carries no identifier.
    NoId,
    /// The track playing has no cover art.
    NoCoverArt,
}

impl Error {
    pub open spec fn message_text(&self) -> Seq<char> {
        match self {
            Error::Io(m) => "i/o error: "@ + m@,
            Error::Client(m) => "Error from spotify client: "@ + m@,
            Error::Http(m) => "Http error: "@ + m@,
            Error::Image(m) => "Image error: "@ + m@,
            Error::NoContext => "Nothing is playing right now."@,
            Error::NotTrack => "Item is not a playable track."@,
            Error::NoId => "The track has no id."@,
            Error::NoCoverArt => "The track has no cover art."@,
        }
    }

    /// The error in words.
    pub fn message(&self) -> (r: String)
        ensures
            r@ == self.message_text(),
    {
        match self {
            Error::Io(m) => concat("i/o error: ", m.as_str()),
            Error::Client(m) => concat("Error from spotify client: ", m.as_str()),
            Error::Http(m) => concat("Http error: ", m.as_str()),
            Error::Image(m) => concat("Image error: ", m.as_str()),
            Error::NoContext => String::from_str("Nothing is playing right now."),
            Error::NotTrack => String::from_str("Item is not a playable track."),
            Error::NoId => String::from_str("The track has no id."),
            Error::NoCoverArt => String::from_str("The track has no cover art."),
        }
    }
}

/// A track as one line: name, album and artists.
pub open spec fn track_text(t: Track) -> Seq<char> {
    t.name@ + " | "@ + t.album@ + " | "@ + joined(texts(t.artists@), ", "@)
}

/// The track as one line: name, album and artists.
pub fn track_summary(t: &Track) -> (r: String)
    ensures
        r@ == track_text(*t),
{
    let mut s = concat(t.name.as_str(), " | ");
    s.append(t.album.as_str());
    s.append(" | ");
    let artists = join(&t.artists, ", ");
    s.append(artists.as_str());
    s
}

/// `p` makes the call `c`.
pub open spec fn calls(p: Plan, c: Command) -> bool {
    p.command == Some(c)
}

/// `p` makes the call `c` and shows nothing.
pub open spec fn calls_quietly(p: Plan, c: Command) -> bool {
    p.command == Some(c) && p.notice is None
}

/// What `action` does given the current playback (`None`: nothing plays).
pub open spec fn plans(action: Action, context: Option<PlaybackContext>, r: Result<Plan, Error>) -> bool {
    match action {
        Action::Next => r matches Ok(p) && calls_quietly(p, Command::NextTrack),
        Action::Previous => r matches Ok(p) && calls_quietly(p, Command::PreviousTrack),
        Action::PlayPause => match context {
            Some(c) if c.is_playing => r matches Ok(p) && calls_quietly(p, Command::Pause),
            _ => r matches Ok(p) && calls_quietly(p, Command::Resume),
        },
        _ => match context {
            None => r == Err::<Plan, Error>(Error::NoContext),
            Some(c) => match action {
                Action::Shuffle => r matches Ok(p) && (calls(p, Command::SetShuffle(!c.shuffle_state))
                    && (p.notice matches Some(n) && notice_is(n, "Shuffle"@, if c.shuffle_state { "disabled"@ } else { "enabled"@ }, None))),
                Action::Repeat => r matches Ok(p) && (calls(p, Command::SetRepeat(c.repeat_state.following()))
                    && (p.notice matches Some(n) && notice_is(n, "Repeat"@, c.repeat_state.following().text(), None))),
                Action::Like => match c.item {
                    Some(PlayingItem::Track(t)) => match t.id {
                        Some(id) => r matches Ok(p) && calls_quietly(p, Command::CheckSaved(id)),
                        None => r == Err::<Plan, Error>(Error::NoId),
                    },
                    _ => r == Err::<Plan, Error>(Error::NotTrack),
                },
                _ => match c.item {
                    Some(PlayingItem::Track(t)) => if t.album_images@.len() > 0 {
                        r matches Ok(p) && calls_quietly(p, Command::FetchCoverArt(t.album_images@.last()))
                    } else {
                        r == Err::<Plan, Error>(Error::NoCoverArt)
                    },
                    _ => r == Err::<Plan, Error>(Error::NotTrack),
                },
            },
        },
    }
}

fn quietly(c: Command) -> (r: Plan)
    ensures
        calls_quietly(r, c),
{
    Plan { command: Some(c), notice: None }
}

/// Plans `action` given the current playback (`None`: nothing plays; for
/// next and previous it is not read). Play-pause resumes when nothing plays.
pub fn plan(action: Action, context: Option<PlaybackContext>) -> (r: Result<Plan, Error>)
    ensures
        plans(action, context, r),
{
    match action {
        Action::Next => Ok(quietly(Command::NextTrack)),
        Action::Previous => Ok(quietly(Command::PreviousTrack)),
        Action::PlayPause => match context {
            Some(c) => {
                if c.is_playing {
                    Ok(quietly(Command::Pause))
                } else {
                    Ok(quietly(Command::Resume))
                }
            },
            None => Ok(quietly(Command::Resume)),
        },
        _ => match context {
            None => Err(Error::NoContext),
            Some(c) => match action {
                Action::Shuffle => {
                    let body = if c.shuffle_state { "disabled" } else { "enabled" };
                    Ok(Plan { command: Some(Command::SetShuffle(!c.shuffle_state)), notice: Some(notify("Shuffle", body, None)) })
                },
                Action::Repeat => {
                    let next = c.repeat_state.next();
                    Ok(Plan { command: Some(Command::SetRepeat(next)), notice: Some(notify("Repeat", next.name(), None)) })
                },
                Action::Like => match c.item {
                    Some(PlayingItem::Track(t)) => match t.id {
                        Some(id) => Ok(quietly(Command::CheckSaved(id))),
                        None => Err(Error::NoId),
                    },
                    _ => Err(Error::NotTrack),
                },
                _ => match c.item {
                    Some(PlayingItem::Track(t)) => {
                        let n = t.album_images.len();
                        if n > 0 {
                            Ok(quietly(Command::FetchCoverArt(t.album_images[n - 1].clone())))
                        } else {
                            Err(Error::NoCoverArt)
                        }
                    },
                    _ => Err(Error::NotTrack),
                },
            },
        },
    }
}

/// The second half of liking the track `t` with identifier `id`, once it is
/// known whether it was saved already: add it if it was not, and say which.
pub fn like_followup(t: &Track, id: String, already_saved: bool) -> (r: Plan)
    ensures
        already_saved ==> r.command is None && (r.notice matches Some(n) && notice_is(n, "Already in liked songs:"@, track_text(*t), None)),
        !already_saved ==> r.command == Some(Command::AddSaved(id)) && (r.notice matches Some(n) && notice_is(n, "Added to liked songs:"@, track_text(*t), None)),
{
    let line = track_summary(t);
    if already_saved {
        Plan { command: None, notice: Some(notify("Already in liked songs:", line.as_str(), None)) }
    } else {
        Plan { command: Some(Command::AddSaved(id)), notice: Some(notify("Added to liked songs:", line.as_str(), None)) }
    }
}

/// The notification about the track `t` that started, with its cover art
/// saved at `icon_path`.
pub fn track_change_notice(t: &Track, icon_path: String) -> (r: Notification)
    ensures
        notice_is(r, t.name@, joined(texts(t.artists@), ", "@) + " - "@ + t.album@, Some(icon_path@)),
{
    let mut body = join(&t.artists, ", ");
    body.append(" - ");
    body.append(t.album.as_str());
    notify(t.name.as_str(), body.as_str(), Some(icon_path))
}

/// The report of a failed action.
pub fn failure_notice(e: &Error) -> (r: Notification)
    ensures
        error_notice(r, "Failed to perform action: "@ + e.message_text()),
{
    let body = concat("Failed to perform action: ", e.message().as_str());
    enotify(body.as_str())
}

/// The exit status of a one-shot action: 0 when it succeeded, 1 otherwise.
pub fn exit_code<T>(outcome: &Result<T, Error>) -> (r: i32)
    ensures
        r == if outcome is Ok { 0i32 } else { 1i32 },
{
    match outcome {
        Ok(_) => 0,
        Err(_) => 1,
    }
}

} // verus!
