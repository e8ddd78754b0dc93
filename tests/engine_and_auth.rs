use rofify::auth::{redirect_url_prompt, AuthAction, AuthEvent, AuthState, CacheRead, Error};
use rofify::controller::{exit_code, like_followup, plan, track_change_notice, track_summary, Action, Command, Error as ControlFailure, Plan, PlaybackContext, PlayingItem, RepeatState};
use rofify::items::{SearchKind, Track};
use rofify::listener::{CallbackListener, CallbackReply};
use rofify::menu::{InputMenu, MenuResult, Screen};
use rofify::mode::ModeMenu;
use rofify::navigator::Navigator;
use rofify::redirect::{code_from_redirect_url, code_param, RedirectError};
use rofify::search::SearchMenu;

fn search(kind: SearchKind) -> Screen {
    Screen::Search(SearchMenu::new(kind))
}

#[test]
fn pushing_then_backing_out_ends_the_loop() {
    for n in 0..5 {
        let mut nav = Navigator::empty();
        for _ in 0..n {
            nav.push(search(SearchKind::Track));
        }
        assert_eq!(nav.depth(), n);
        let mut rounds = 0;
        while let Some(screen) = nav.next() {
            nav.apply(screen, MenuResult::Back);
            rounds += 1;
        }
        assert_eq!(rounds, n);
        assert!(nav.is_done());
    }
}

#[test]
fn opening_a_screen_keeps_the_one_below() {
    let mut nav = Navigator::new(Screen::Mode(ModeMenu::new()));
    let top = nav.next().unwrap();
    nav.apply(top, MenuResult::Menu(search(SearchKind::Album)));
    assert_eq!(nav.depth(), 2);
    let s = nav.next().unwrap();
    assert_eq!(s, search(SearchKind::Album));
    nav.apply(s, MenuResult::Back);
    assert_eq!(nav.next(), Some(Screen::Mode(ModeMenu::new())));
    assert!(nav.is_done());
}

#[test]
fn exit_and_input_clear_the_stack() {
    let mut nav = Navigator::new(Screen::Mode(ModeMenu::new()));
    nav.push(search(SearchKind::Track));
    let s = nav.next().unwrap();
    nav.apply(s, MenuResult::Exit);
    assert!(nav.is_done());
    let mut nav = Navigator::new(Screen::Input(InputMenu::new("x".to_string())));
    nav.push(search(SearchKind::Track));
    let s = nav.next().unwrap();
    nav.apply(s, MenuResult::Input("t".to_string()));
    assert_eq!(nav.next(), None);
}

#[test]
fn fresh_cache_is_persisted_without_authorization() {
    let (s, a) = AuthState::start();
    assert_eq!((s, a), (AuthState::ColdStart, AuthAction::ReadCache));
    let (s, a) = s.next(AuthEvent::CacheRead(CacheRead::Fresh));
    assert_eq!((s, a.clone()), (AuthState::CacheHit, AuthAction::Persist));
    let (s, a) = s.next(AuthEvent::Persisted(Ok(())));
    assert_eq!((s, a), (AuthState::Authenticated, AuthAction::Finish));
    assert!(s.is_final());
}

#[test]
fn expired_cache_is_refreshed() {
    let (s, a) = AuthState::ColdStart.next(AuthEvent::CacheRead(CacheRead::Expired));
    assert_eq!((s, a), (AuthState::Refreshing, AuthAction::Refresh));
    let (s, a) = s.next(AuthEvent::Refreshed(true));
    assert_eq!((s, a), (AuthState::Persisting, AuthAction::Persist));
    let (s, _) = s.next(AuthEvent::Persisted(Ok(())));
    assert_eq!(s, AuthState::Authenticated);
}

#[test]
fn revoked_refresh_awaits_code() {
    let (s, _) = AuthState::ColdStart.next(AuthEvent::CacheRead(CacheRead::Expired));
    let (s, a) = s.next(AuthEvent::Refreshed(false));
    assert_eq!((s, a), (AuthState::AwaitingCode, AuthAction::BeginAuthorization));
}

#[test]
fn missing_or_corrupt_cache_awaits_code() {
    for c in [CacheRead::Missing, CacheRead::Unreadable] {
        let (s, a) = AuthState::ColdStart.next(AuthEvent::CacheRead(c));
        assert_eq!((s, a), (AuthState::AwaitingCode, AuthAction::BeginAuthorization));
    }
}

#[test]
fn callback_code_is_exchanged_then_persisted() {
    let (s, a) = AuthState::AwaitingCode.next(AuthEvent::CodeReceived("c0de".to_string()));
    assert_eq!((s, a), (AuthState::Exchanging, AuthAction::Exchange("c0de".to_string())));
    let (s, a) = s.next(AuthEvent::Exchanged(Ok(())));
    assert_eq!((s, a), (AuthState::Persisting, AuthAction::Persist));
    let (s, a) = s.next(AuthEvent::Persisted(Err("read-only".to_string())));
    assert_eq!((s, a.clone()), (AuthState::Failed, AuthAction::Abort(Error::Io("read-only".to_string()))));
    if let AuthAction::Abort(e) = a {
        assert_eq!(e.message(), "i/o error: read-only");
    }
}

#[test]
fn failed_exchange_fails() {
    let (s, a) = AuthState::Exchanging.next(AuthEvent::Exchanged(Err("bad code".to_string())));
    assert_eq!((s, a), (AuthState::Failed, AuthAction::Abort(Error::Client("bad code".to_string()))));
}

#[test]
fn listener_failure_falls_back_to_manual_entry() {
    let (s, a) = AuthState::AwaitingCode.next(AuthEvent::ListenerFailed("timed out".to_string()));
    assert_eq!(s, AuthState::ManualEntry);
    match a {
        AuthAction::AskRedirectUrl(n) => {
            assert_eq!(n.summary, "Error");
            assert_eq!(n.body, "Failed to automatically refresh token: timed out. Please enter redirect URL manually.");
        },
        other => panic!("unexpected {:?}", other),
    }
    assert_eq!(redirect_url_prompt().prompt_message, "Enter the URL you were redirected to");
    let url = "http://localhost:8888/callback?code=abc123&state=s".to_string();
    let (s, a) = AuthState::ManualEntry.next(AuthEvent::Entered(MenuResult::Input(url)));
    assert_eq!((s, a), (AuthState::Exchanging, AuthAction::Exchange("abc123".to_string())));
}

#[test]
fn manual_entry_errors() {
    let url = "http://localhost:8888/callback?state=s".to_string();
    let (s, a) = AuthState::ManualEntry.next(AuthEvent::Entered(MenuResult::Input(url)));
    assert_eq!((s, a), (AuthState::Failed, AuthAction::Abort(Error::UrlMissingParam("code".to_string()))));
    let (s, a) = AuthState::ManualEntry.next(AuthEvent::Entered(MenuResult::Input("not a url".to_string())));
    assert_eq!(s, AuthState::Failed);
    assert!(matches!(a, AuthAction::Abort(Error::UrlParse(_))));
    let (s, a) = AuthState::ManualEntry.next(AuthEvent::Entered(MenuResult::Back));
    assert_eq!(s, AuthState::Failed);
    assert_eq!(a, AuthAction::Abort(Error::MenuResult("expected result to be a simple input string".to_string())));
}

#[test]
fn events_out_of_order_fail() {
    let (s, a) = AuthState::ColdStart.next(AuthEvent::Refreshed(true));
    assert_eq!((s, a), (AuthState::Failed, AuthAction::Abort(Error::OutOfOrder)));
    let (s, a) = AuthState::Authenticated.next(AuthEvent::Refreshed(false));
    assert_eq!((s, a), (AuthState::Authenticated, AuthAction::Finish));
}

#[test]
fn redirect_code_parsing() {
    assert_eq!(code_from_redirect_url("http://localhost/callback?code=a&code=b"), Ok("b".to_string()));
    assert_eq!(code_from_redirect_url("http://localhost/callback?code=a%20b+c"), Ok("a b c".to_string()));
    assert_eq!(code_from_redirect_url("http://localhost/callback"), Err(RedirectError::MissingCode));
    assert!(matches!(code_from_redirect_url("localhost/callback?code=x"), Err(RedirectError::Parse(_))));
    let pairs = vec![("state".to_string(), "s".to_string()), ("code".to_string(), "k".to_string())];
    assert_eq!(code_param(&pairs), Some("k".to_string()));
    assert_eq!(code_param(&vec![]), None);
}

#[test]
fn callback_listener_accepts_once() {
    let mut l = CallbackListener::new();
    assert!(!l.has_code());
    assert_eq!(l.handle(None), CallbackReply::MissingCode);
    assert!(!l.has_code());
    assert_eq!(l.handle(Some("first".to_string())), CallbackReply::Accepted);
    assert_eq!(l.handle(Some("second".to_string())), CallbackReply::AlreadyServed);
    assert_eq!(l.handle(None), CallbackReply::AlreadyServed);
    assert_eq!(l.code(), Some("first".to_string()));
    assert_eq!(CallbackReply::Accepted.body(), "success!");
}

fn playing(item: Option<PlayingItem>, is_playing: bool, shuffle: bool, repeat: RepeatState) -> Option<PlaybackContext> {
    Some(PlaybackContext { is_playing, shuffle_state: shuffle, repeat_state: repeat, item })
}

fn song(id: Option<&str>, images: Vec<&str>) -> Track {
    Track {
        id: id.map(|s| s.to_string()),
        name: "Song".to_string(),
        album: "LP".to_string(),
        artists: vec!["A".to_string(), "B".to_string()],
        album_images: images.into_iter().map(|s| s.to_string()).collect(),
    }
}

#[test]
fn like_with_nothing_playing_fails_without_calls() {
    let r = plan(Action::Like, None);
    assert_eq!(r, Err(ControlFailure::NoContext));
    assert_eq!(exit_code(&r), 1);
    assert_eq!(ControlFailure::NoContext.message(), "Nothing is playing right now.");
}

#[test]
fn transport_plans() {
    let quiet = |c: Command| Ok(Plan { command: Some(c), notice: None });
    assert_eq!(plan(Action::Next, None), quiet(Command::NextTrack));
    assert_eq!(plan(Action::Previous, None), quiet(Command::PreviousTrack));
    assert_eq!(plan(Action::PlayPause, None), quiet(Command::Resume));
    assert_eq!(plan(Action::PlayPause, playing(None, true, false, RepeatState::Off)), quiet(Command::Pause));
    assert_eq!(plan(Action::PlayPause, playing(None, false, false, RepeatState::Off)), quiet(Command::Resume));
    assert_eq!(plan(Action::Shuffle, None), Err(ControlFailure::NoContext));
    let p = plan(Action::Shuffle, playing(None, true, true, RepeatState::Off)).unwrap();
    assert_eq!(p.command, Some(Command::SetShuffle(false)));
    assert_eq!(p.notice.unwrap().body, "disabled");
    let p = plan(Action::Repeat, playing(None, true, true, RepeatState::Context)).unwrap();
    assert_eq!(p.command, Some(Command::SetRepeat(RepeatState::Track)));
    let n = p.notice.unwrap();
    assert_eq!((n.summary.as_str(), n.body.as_str()), ("Repeat", "track"));
    let p = plan(Action::Repeat, playing(None, true, true, RepeatState::Track)).unwrap();
    assert_eq!(p.command, Some(Command::SetRepeat(RepeatState::Off)));
    assert_eq!(exit_code(&Ok::<(), ControlFailure>(())), 0);
    assert_eq!(Action::OnChange.to_string(), "on-change");
    assert!(!Action::Next.needs_context());
    assert!(Action::Like.needs_context());
}

#[test]
fn like_and_on_change_plans() {
    let t = song(Some("tid"), vec!["big", "small"]);
    let ctx = playing(Some(PlayingItem::Track(t.clone())), true, false, RepeatState::Off);
    assert_eq!(plan(Action::Like, ctx.clone()), Ok(Plan { command: Some(Command::CheckSaved("tid".to_string())), notice: None }));
    assert_eq!(plan(Action::OnChange, ctx), Ok(Plan { command: Some(Command::FetchCoverArt("small".to_string())), notice: None }));
    assert_eq!(plan(Action::Like, playing(Some(PlayingItem::Other), true, false, RepeatState::Off)), Err(ControlFailure::NotTrack));
    assert_eq!(plan(Action::Like, playing(Some(PlayingItem::Track(song(None, vec![]))), true, false, RepeatState::Off)), Err(ControlFailure::NoId));
    assert_eq!(plan(Action::OnChange, playing(Some(PlayingItem::Track(song(None, vec![]))), true, false, RepeatState::Off)), Err(ControlFailure::NoCoverArt));
    assert_eq!(track_summary(&t), "Song | LP | A, B");
    let p = like_followup(&t, "tid".to_string(), false);
    assert_eq!(p.command, Some(Command::AddSaved("tid".to_string())));
    assert_eq!(p.notice.clone().unwrap().summary, "Added to liked songs:");
    assert_eq!(p.notice.unwrap().body, "Song | LP | A, B");
    let p = like_followup(&t, "tid".to_string(), true);
    assert_eq!(p.command, None);
    assert_eq!(p.notice.unwrap().summary, "Already in liked songs:");
    let n = track_change_notice(&t, "/icons/cover.png".to_string());
    assert_eq!(n.summary, "Song");
    assert_eq!(n.body, "A, B - LP");
    assert_eq!(n.icon, Some("/icons/cover.png".to_string()));
}

#[test]
fn error_messages() {
    assert_eq!(ControlFailure::Io("disk".to_string()).message(), "i/o error: disk");
    assert_eq!(ControlFailure::Client("401".to_string()).message(), "Error from spotify client: 401");
    assert_eq!(ControlFailure::Http("dns".to_string()).message(), "Http error: dns");
    assert_eq!(ControlFailure::Image("png".to_string()).message(), "Image error: png");
    assert_eq!(ControlFailure::NotTrack.message(), "Item is not a playable track.");
    assert_eq!(ControlFailure::NoId.message(), "The track has no id.");
    assert_eq!(ControlFailure::NoCoverArt.message(), "The track has no cover art.");
    assert_eq!(rofify::controller::failure_notice(&ControlFailure::NoContext).body, "Failed to perform action: Nothing is playing right now.");
    assert_eq!(Error::Client("x".to_string()).message(), "Error from spotify client: x");
    assert_eq!(Error::UrlParse("relative URL without a base".to_string()).message(), "Failed to parse url: relative URL without a base");
    assert_eq!(Error::UrlMissingParam("code".to_string()).message(), "Url missing required param: code");
    assert_eq!(Error::MenuResult("m".to_string()).message(), "Invalid menu result: m");
    assert_eq!(Error::OutOfOrder.message(), "authentication steps came out of order");
    assert_eq!(rofify::auth::failure_notice(&Error::Io("ro".to_string())).body, "Failed to authenticate with spotify: i/o error: ro");
    let ok = rofify::auth::login_notice(Ok(()));
    assert_eq!((ok.summary.as_str(), ok.body.as_str()), ("Login", "Opened login page in your browser (login URL copied to clipboard)."));
    let err = rofify::auth::login_notice(Err("no browser".to_string()));
    assert_eq!(err.summary, "Error");
    assert_eq!(err.body, "Error when trying to open URL in your browser: no browser. Please navigate to login page manually (login URL copied to clipboard).");
}
