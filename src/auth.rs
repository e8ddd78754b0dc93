//! The decisions of authentication, as a state machine: each event (what an
//! outside step reported) moves the flow to its next phase and names the
//! next outside step. The caller performs the steps: reading and writing the
//! token cache, refreshing, the authorization page and its local callback,
//! the token exchange.
use vstd::prelude::*;
use vstd::string::*;
use crate::menu::{InputMenu, MenuResult};
use crate::notify::{enotify, error_notice, notice_is, notify, Notification};
use crate::redirect::{code_from_redirect_url, last_value, url_query_pairs, RedirectError};
use crate::text::concat;

verus! {

/// Why authentication failed.
#[derive(Debug, Clone, PartialEq, Eq)]
pub enum Error {
    /// The token cache could not be written; the message.
    Io(String),
    /// The service refused a call; the message.
    Client(String),
    /// A pasted address is no URL; the parser's message.
    UrlParse(String),
    /// A pasted address lacks a parameter; its name.
    UrlMissingParam(String),
    /// The text-entry screen ended without text; what was expected.
    MenuResult(String),
    /// An event came that the current phase does not wait for.
    OutOfOrder,
}

impl Error {
    pub open spec fn message_text(&self) -> Seq<char> {
        match self {
            Error::Io(m) => "i/o error: "@ + m@,
            Error::Client(m) => "Error from spotify client: "@ + m@,
            Error::UrlParse(m) => "Failed to parse url: "@ + m@,
            Error::UrlMissingParam(m) => "Url missing required param: "@ + m@,
            Error::MenuResult(m) => "Invalid menu result: "@ + m@,
            Error::OutOfOrder => "authentication steps came out of order"@,
        }
    }

    /// The error in words.
    pub fn message(&self) -> (r: String)
        ensures
            r@ == self.message_text(),
    {
        match self {
            Error::Io(m) => concat("i/o error: ", m.as_str()),
            Error::Client(m) => concat("Error from spotify client: ", m.as_str()),
            Error::UrlParse(m) => concat("Failed to parse url: ", m.as_str()),
            Error::UrlMissingParam(m) => concat("Url missing required param: ", m.as_str()),
            Error::MenuResult(m) => concat("Invalid menu result: ", m.as_str()),
            Error::OutOfOrder => String::from_str("authentication steps came out of order"),
        }
    }
}

/// The phases of authentication.
#[derive(Debug, Clone, Copy, PartialEq, Eq, Structural)]
pub enum AuthState {
    /// The token cache is being read.
    ColdStart,
    /// An unexpired token was found and installed; it is being persisted.
    CacheHit,
    /// An expired token was found; it is being refreshed.
    Refreshing,
    /// The authorization page is open and the local callback listens.
    AwaitingCode,
    /// The callback failed; the user is asked for the address by hand.
    ManualEntry,
    /// A code is being exchanged for a token.
    Exchanging,
    /// A new token is being persisted.
    Persisting,
    Authenticated,
    Failed,
}

/// What reading the token cache found.
#[derive(Debug, Clone, Copy, PartialEq, Eq, Structural)]
pub enum CacheRead {
    /// No cached token.
    Missing,
    /// A cache that could not be read or parsed.
    Unreadable,
    /// A token that has not expired.
    Fresh,
    /// A token that has expired.
    Expired,
}

/// What an outside step reported.
#[derive(Debug, PartialEq, Eq)]
pub enum AuthEvent {
    CacheRead(CacheRead),
    /// Whether the refresh produced a new token (a revoked refresh
    /// credential, or any failure of the call, is `false`).
    Refreshed(bool),
    /// The local callback received this code.
    CodeReceived(String),
    /// The local callback could not listen, or no request came in time; why.
    ListenerFailed(String),
    /// What the text-entry screen for the address returned.
    Entered(MenuResult),
    /// How exchanging the code went.
    Exchanged(Result<(), String>),
    /// How writing the token cache went.
    Persisted(Result<(), String>),
}

/// The next outside step.
#[derive(Debug, Clone, PartialEq, Eq)]
pub enum AuthAction {
    /// Read the token cache, installing any token found.
    ReadCache,
    /// Refresh the installed token.
    Refresh,
    /// Make a fresh verifier and challenge, build the authorization address,
    /// copy it to the clipboard, open it in a browser, and listen for the
    /// callback once.
    BeginAuthorization,
    /// Show the notification, then ask for the address on the text-entry
    /// screen of `prompt_screen`.
    AskRedirectUrl(Notification),
    /// Exchange this code for a token.
    Exchange(String),
    /// Write the installed token to the cache.
    Persist,
    /// Done: the client holds a valid token.
    Finish,
    /// Stop with this error.
    Abort(Error),
}

pub open spec fn listener_failure_text(m: Seq<char>) -> Seq<char> {
    "Failed to automatically refresh token: "@ + m + ". Please enter redirect URL manually."@
}

pub open spec fn expected_input_text() -> Seq<char> {
    "expected result to be a simple input string"@
}

/// The phase after `event` in phase `s`. Events a phase does not wait for
/// fail the flow; the two final phases stay as they are.
pub open spec fn next_phase(s: AuthState, event: AuthEvent) -> AuthState {
    match (s, event) {
        (AuthState::Authenticated, _) => AuthState::Authenticated,
        (AuthState::Failed, _) => AuthState::Failed,
        (AuthState::ColdStart, AuthEvent::CacheRead(c)) => match c {
            CacheRead::Fresh => AuthState::CacheHit,
            CacheRead::Expired => AuthState::Refreshing,
            _ => AuthState::AwaitingCode,
        },
        (AuthState::Refreshing, AuthEvent::Refreshed(ok)) => if ok {
            AuthState::Persisting
        } else {
            AuthState::AwaitingCode
        },
        (AuthState::AwaitingCode, AuthEvent::CodeReceived(_)) => AuthState::Exchanging,
        (AuthState::AwaitingCode, AuthEvent::ListenerFailed(_)) => AuthState::ManualEntry,
        (AuthState::ManualEntry, AuthEvent::Entered(MenuResult::Input(url))) => match url_query_pairs(url@) {
            Some(pairs) if last_value(pairs, "code"@) is Some => AuthState::Exchanging,
            _ => AuthState::Failed,
        },
        (AuthState::Exchanging, AuthEvent::Exchanged(r)) => if r is Ok {
            AuthState::Persisting
        } else {
            AuthState::Failed
        },
        (AuthState::CacheHit, AuthEvent::Persisted(r)) => if r is Ok {
            AuthState::Authenticated
        } else {
            AuthState::Failed
        },
        (AuthState::Persisting, AuthEvent::Persisted(r)) => if r is Ok {
            AuthState::Authenticated
        } else {
            AuthState::Failed
        },
        _ => AuthState::Failed,
    }
}

/// Whether `a` is the step that follows `event` in phase `s`.
pub open spec fn next_action(s: AuthState, event: AuthEvent, a: AuthAction) -> bool {
    match (s, event) {
        (AuthState::Authenticated, _) => a == AuthAction::Finish,
        (AuthState::Failed, _) => a == AuthAction::Abort(Error::OutOfOrder),
        (AuthState::ColdStart, AuthEvent::CacheRead(c)) => match c {
            CacheRead::Fresh => a == AuthAction::Persist,
            CacheRead::Expired => a == AuthAction::Refresh,
            _ => a == AuthAction::BeginAuthorization,
        },
        (AuthState::Refreshing, AuthEvent::Refreshed(ok)) => if ok {
            a == AuthAction::Persist
        } else {
            a == AuthAction::BeginAuthorization
        },
        (AuthState::AwaitingCode, AuthEvent::CodeReceived(code)) => a == AuthAction::Exchange(code),
        (AuthState::AwaitingCode, AuthEvent::ListenerFailed(m)) => a matches AuthAction::AskRedirectUrl(n)
            && error_notice(n, listener_failure_text(m@)),
        (AuthState::ManualEntry, AuthEvent::Entered(MenuResult::Input(url))) => match url_query_pairs(url@) {
            None => a matches AuthAction::Abort(Error::UrlParse(_)),
            Some(pairs) => match last_value(pairs, "code"@) {
                Some(v) => a matches AuthAction::Exchange(c) && c@ == v,
                None => a matches AuthAction::Abort(Error::UrlMissingParam(p)) && p@ == "code"@,
            },
        },
        (AuthState::ManualEntry, AuthEvent::Entered(_)) => a matches AuthAction::Abort(Error::MenuResult(m))
            && m@ == expected_input_text(),
        (AuthState::Exchanging, AuthEvent::Exchanged(r)) => match r {
            Ok(()) => a == AuthAction::Persist,
            Err(m) => a == AuthAction::Abort(Error::Client(m)),
        },
        (AuthState::CacheHit, AuthEvent::Persisted(r)) => match r {
            Ok(()) => a == AuthAction::Finish,
            Err(m) => a == AuthAction::Abort(Error::Io(m)),
        },
        (AuthState::Persisting, AuthEvent::Persisted(r)) => match r {
            Ok(()) => a == AuthAction::Finish,
            Err(m) => a == AuthAction::Abort(Error::Io(m)),
        },
        _ => a == AuthAction::Abort(Error::OutOfOrder),
    }
}

/// The phases that a series of events leads through from `s`, one for each
/// event.
pub open spec fn phases(s: AuthState, events: Seq<AuthEvent>) -> Seq<AuthState>
    decreases events.len(),
{
    if events.len() == 0 {
        Seq::empty()
    } else {
        let t = next_phase(s, events[0]);
        seq![t] + phases(t, events.drop_first())
    }
}

/// The phase that a series of events leads to from `s`.
pub open spec fn final_phase(s: AuthState, events: Seq<AuthEvent>) -> AuthState
    decreases events.len(),
{
    if events.len() == 0 {
        s
    } else {
        final_phase(next_phase(s, events[0]), events.drop_first())
    }
}

/// The phases from which no authorization page is opened any more: a token
/// is in hand and being persisted, or the flow has ended.
pub open spec fn settled(s: AuthState) -> bool {
    ||| s == AuthState::CacheHit
    ||| s == AuthState::Persisting
    ||| s == AuthState::Authenticated
    ||| s == AuthState::Failed
}

/// The authorization page is opened, and the callback started, only on
/// entering the phase that waits for the code.
pub proof fn lemma_authorization_begins_only_awaiting_code(s: AuthState, e: AuthEvent, a: AuthAction)
    requires
        next_action(s, e, a),
        a == AuthAction::BeginAuthorization,
    ensures
        next_phase(s, e) == AuthState::AwaitingCode,
{
}

/// From a settled phase every later phase is settled.
pub proof fn lemma_settled_stays(s: AuthState, events: Seq<AuthEvent>)
    requires
        settled(s),
    ensures
        forall|i: int| 0 <= i < phases(s, events).len() ==> settled(#[trigger] phases(s, events)[i]),
        phases(s, events).len() == events.len(),
        settled(final_phase(s, events)),
    decreases events.len(),
{
    if events.len() > 0 {
        let t = next_phase(s, events[0]);
        lemma_settled_stays(t, events.drop_first());
        assert forall|i: int| 0 <= i < phases(s, events).len() implies settled(#[trigger] phases(s, events)[i]) by {
            if i > 0 {
                assert(phases(s, events)[i] == phases(t, events.drop_first())[i - 1]);
            }
        }
    }
}

/// Once authenticated, the flow stays authenticated.
pub proof fn lemma_authenticated_stays(events: Seq<AuthEvent>)
    ensures
        final_phase(AuthState::Authenticated, events) == AuthState::Authenticated,
    decreases events.len(),
{
    if events.len() > 0 {
        lemma_authenticated_stays(events.drop_first());
    }
}

/// With an unexpired token in the cache, no phase of the flow waits for a
/// code, so no authorization page is opened and no callback started; once
/// the token is persisted the flow is authenticated.
pub proof fn lemma_fresh_cache_skips_authorization(rest: Seq<AuthEvent>)
    ensures
        ({
            let events = seq![AuthEvent::CacheRead(CacheRead::Fresh)] + rest;
            &&& forall|i: int| 0 <= i < events.len() ==> #[trigger] phases(AuthState::ColdStart, events)[i] != AuthState::AwaitingCode
            &&& forall|i: int| 0 <= i < events.len() ==> #[trigger] phases(AuthState::ColdStart, events)[i] != AuthState::ManualEntry
            &&& rest.len() > 0 && rest[0] == AuthEvent::Persisted(Ok(())) ==> final_phase(AuthState::ColdStart, events) == AuthState::Authenticated
        }),
{
    let events = seq![AuthEvent::CacheRead(CacheRead::Fresh)] + rest;
    assert(events[0] == AuthEvent::CacheRead(CacheRead::Fresh));
    assert(events.drop_first() =~= rest);
    lemma_settled_stays(AuthState::CacheHit, rest);
    let all = phases(AuthState::ColdStart, events);
    assert forall|i: int| 0 <= i < events.len() implies #[trigger] settled(all[i]) by {
        if i > 0 {
            assert(all[i] == phases(AuthState::CacheHit, rest)[i - 1]);
        }
    }
    assert(forall|i: int| 0 <= i < events.len() ==> #[trigger] all[i] != AuthState::AwaitingCode) by {
        assert forall|i: int| 0 <= i < events.len() implies #[trigger] all[i] != AuthState::AwaitingCode by {
            assert(settled(all[i]));
        }
    }
    assert(forall|i: int| 0 <= i < events.len() ==> #[trigger] all[i] != AuthState::ManualEntry) by {
        assert forall|i: int| 0 <= i < events.len() implies #[trigger] all[i] != AuthState::ManualEntry by {
            assert(settled(all[i]));
        }
    }
    if rest.len() > 0 && rest[0] == AuthEvent::Persisted(Ok(())) {
        lemma_authenticated_stays(rest.drop_first());
    }
}

/// With an expired token in the cache whose refresh succeeds, the flow goes
/// through refreshing and never waits for a code; once the token is
/// persisted the flow is authenticated.
pub proof fn lemma_refreshed_cache_skips_authorization(rest: Seq<AuthEvent>)
    ensures
        ({
            let events = seq![AuthEvent::CacheRead(CacheRead::Expired), AuthEvent::Refreshed(true)] + rest;
            &&& phases(AuthState::ColdStart, events)[0] == AuthState::Refreshing
            &&& forall|i: int| 0 <= i < events.len() ==> #[trigger] phases(AuthState::ColdStart, events)[i] != AuthState::AwaitingCode
            &&& rest.len() > 0 && rest[0] == AuthEvent::Persisted(Ok(())) ==> final_phase(AuthState::ColdStart, events) == AuthState::Authenticated
        }),
{
    let events = seq![AuthEvent::CacheRead(CacheRead::Expired), AuthEvent::Refreshed(true)] + rest;
    let tail = events.drop_first();
    assert(events[0] == AuthEvent::CacheRead(CacheRead::Expired));
    assert(tail[0] == AuthEvent::Refreshed(true));
    assert(tail.drop_first() =~= rest);
    lemma_settled_stays(AuthState::Persisting, rest);
    let all = phases(AuthState::ColdStart, events);
    let after = phases(AuthState::Refreshing, tail);
    assert(all == seq![AuthState::Refreshing] + after);
    assert(after == seq![AuthState::Persisting] + phases(AuthState::Persisting, rest));
    assert forall|i: int| 0 <= i < events.len() implies #[trigger] all[i] != AuthState::AwaitingCode by {
        if i >= 2 {
            assert(all[i] == phases(AuthState::Persisting, rest)[i - 2]);
            assert(settled(phases(AuthState::Persisting, rest)[i - 2]));
        }
    }
    if rest.len() > 0 && rest[0] == AuthEvent::Persisted(Ok(())) {
        assert(final_phase(AuthState::ColdStart, events) == final_phase(AuthState::Refreshing, tail));
        assert(final_phase(AuthState::Refreshing, tail) == final_phase(AuthState::Persisting, rest));
        lemma_authenticated_stays(rest.drop_first());
    }
}

/// With an expired token in the cache whose refresh fails (say, the refresh
/// credential was revoked), the flow goes on to wait for a code, opening the
/// authorization page; it does not fail.
pub proof fn lemma_failed_refresh_awaits_code(a: AuthAction)
    requires
        next_action(AuthState::Refreshing, AuthEvent::Refreshed(false), a),
    ensures
        phases(
            AuthState::ColdStart,
            seq![AuthEvent::CacheRead(CacheRead::Expired), AuthEvent::Refreshed(false)],
        ) == seq![AuthState::Refreshing, AuthState::AwaitingCode],
        a == AuthAction::BeginAuthorization,
{
    let events = seq![AuthEvent::CacheRead(CacheRead::Expired), AuthEvent::Refreshed(false)];
    assert(events.drop_first() =~= seq![AuthEvent::Refreshed(false)]);
    assert(events.drop_first().drop_first() =~= Seq::<AuthEvent>::empty());
    assert(phases(AuthState::AwaitingCode, Seq::<AuthEvent>::empty()) =~= Seq::<AuthState>::empty());
    assert(phases(AuthState::Refreshing, events.drop_first()) =~= seq![AuthState::AwaitingCode]);
    assert(phases(AuthState::ColdStart, events) =~= seq![AuthState::Refreshing, AuthState::AwaitingCode]);
}

pub open spec fn browser_failure_text(e: Seq<char>) -> Seq<char> {
    "Error when trying to open URL in your browser: "@ + e
        + ". Please navigate to login page manually (login URL copied to clipboard)."@
}

/// What to tell the user once the authorization page was (or could not be)
/// opened in a browser; a failure only warns, the flow goes on.
pub fn login_notice(opened: Result<(), String>) -> (r: Notification)
    ensures
        match opened {
            Ok(()) => notice_is(r, "Login"@, "Opened login page in your browser (login URL copied to clipboard)."@, None),
            Err(e) => error_notice(r, browser_failure_text(e@)),
        },
{
    match opened {
        Ok(()) => notify("Login", "Opened login page in your browser (login URL copied to clipboard).", None),
        Err(e) => {
            let mut body = concat("Error when trying to open URL in your browser: ", e.as_str());
            body.append(". Please navigate to login page manually (login URL copied to clipboard).");
            enotify(body.as_str())
        },
    }
}

/// The report of a failed authentication.
pub fn failure_notice(e: &Error) -> (r: Notification)
    ensures
        error_notice(r, "Failed to authenticate with spotify: "@ + e.message_text()),
{
    let body = concat("Failed to authenticate with spotify: ", e.message().as_str());
    enotify(body.as_str())
}

/// The prompt of the text-entry screen that asks for the address.
pub fn redirect_url_prompt() -> (r: InputMenu)
    ensures
        r.prompt_message@ == "Enter the URL you were redirected to"@,
{
    InputMenu::new(String::from_str("Enter the URL you were redirected to"))
}

impl AuthState {
    /// The first phase and its step: read the token cache.
    pub fn start() -> (r: (AuthState, AuthAction))
        ensures
            r == (AuthState::ColdStart, AuthAction::ReadCache),
    {
        (AuthState::ColdStart, AuthAction::ReadCache)
    }

    /// The phase after `event`, and the step to take next.
    pub fn next(self, event: AuthEvent) -> (r: (AuthState, AuthAction))
        ensures
            r.0 == next_phase(self, event),
            next_action(self, event, r.1),
    {
        match (self, event) {
            (AuthState::Authenticated, _) => (AuthState::Authenticated, AuthAction::Finish),
            (AuthState::Failed, _) => (AuthState::Failed, AuthAction::Abort(Error::OutOfOrder)),
            (AuthState::ColdStart, AuthEvent::CacheRead(c)) => match c {
                CacheRead::Fresh => (AuthState::CacheHit, AuthAction::Persist),
                CacheRead::Expired => (AuthState::Refreshing, AuthAction::Refresh),
                _ => (AuthState::AwaitingCode, AuthAction::BeginAuthorization),
            },
            (AuthState::Refreshing, AuthEvent::Refreshed(ok)) => {
                if ok {
                    (AuthState::Persisting, AuthAction::Persist)
                } else {
                    (AuthState::AwaitingCode, AuthAction::BeginAuthorization)
                }
            },
            (AuthState::AwaitingCode, AuthEvent::CodeReceived(code)) => (AuthState::Exchanging, AuthAction::Exchange(code)),
            (AuthState::AwaitingCode, AuthEvent::ListenerFailed(m)) => {
                let mut body = concat("Failed to automatically refresh token: ", m.as_str());
                body.append(". Please enter redirect URL manually.");
                (AuthState::ManualEntry, AuthAction::AskRedirectUrl(enotify(body.as_str())))
            },
            (AuthState::ManualEntry, AuthEvent::Entered(entered)) => match entered {
                MenuResult::Input(url) => match code_from_redirect_url(url.as_str()) {
                    Ok(code) => (AuthState::Exchanging, AuthAction::Exchange(code)),
                    Err(RedirectError::Parse(m)) => (AuthState::Failed, AuthAction::Abort(Error::UrlParse(m))),
                    Err(RedirectError::MissingCode) => (
                        AuthState::Failed,
                        AuthAction::Abort(Error::UrlMissingParam(String::from_str("code"))),
                    ),
                },
                _ => (
                    AuthState::Failed,
                    AuthAction::Abort(Error::MenuResult(String::from_str("expected result to be a simple input string"))),
                ),
            },
            (AuthState::Exchanging, AuthEvent::Exchanged(r)) => match r {
                Ok(()) => (AuthState::Persisting, AuthAction::Persist),
                Err(m) => (AuthState::Failed, AuthAction::Abort(Error::Client(m))),
            },
            (AuthState::CacheHit, AuthEvent::Persisted(r)) => match r {
                Ok(()) => (AuthState::Authenticated, AuthAction::Finish),
                Err(m) => (AuthState::Failed, AuthAction::Abort(Error::Io(m))),
            },
            (AuthState::Persisting, AuthEvent::Persisted(r)) => match r {
                Ok(()) => (AuthState::Authenticated, AuthAction::Finish),
                Err(m) => (AuthState::Failed, AuthAction::Abort(Error::Io(m))),
            },
            _ => (AuthState::Failed, AuthAction::Abort(Error::OutOfOrder)),
        }
    }

    /// Whether the flow has ended.
    pub fn is_final(&self) -> (r: bool)
        ensures
            r == (*self == AuthState::Authenticated || *self == AuthState::Failed),
    {
        match self {
            AuthState::Authenticated | AuthState::Failed => true,
            _ => false,
        }
    }
}

} // verus!
