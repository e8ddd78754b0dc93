use rofify::device::{device_after_pick, device_id, device_switched, devices_fetched, DeviceChoice, DeviceMenu, DeviceSwitch};
use rofify::config::Config;
use rofify::items::{Album, Artist, ContextKind, Device, ListItem, PlaybackRequest, Playlist, SearchKind, StartPlayback, Track};
use rofify::menu::{InputMenu, Menu, MenuResult, Outcome, Request, Screen, Step};
use rofify::mode::{liked_songs_fetched, playlists_fetched, Mode, ModeMenu, ParseModeError};
use rofify::playback::{playback_started, AlbumMenu, Error, PlaybackMenu};
use rofify::search::{search_finished, SearchMenu, SearchResults};
use std::str::FromStr;

fn track(id: Option<&str>, name: &str) -> Track {
    Track {
        id: id.map(|s| s.to_string()),
        name: name.to_string(),
        album: "Album".to_string(),
        artists: vec!["A".to_string(), "B".to_string()],
        album_images: vec!["big".to_string(), "small".to_string()],
    }
}

fn all_screens() -> Vec<Screen> {
    vec![
        Screen::Mode(ModeMenu::new()),
        Screen::Search(SearchMenu::new(SearchKind::Album)),
        Screen::Tracks(PlaybackMenu::new(vec![track(Some("t1"), "One")])),
        Screen::Albums(PlaybackMenu::new(vec![])),
        Screen::Playlists(PlaybackMenu::new(vec![Playlist { id: "p".to_string(), name: "P".to_string(), owner: None }])),
        Screen::Artists(PlaybackMenu::new(vec![Artist { id: "a".to_string(), name: "Art".to_string() }])),
        Screen::Devices(DeviceMenu::new(vec![Device { id: Some("d".to_string()), name: "Desk".to_string() }])),
    ]
}

fn back_with_error(step: Step, body: &str) {
    match step {
        Step::Done(Outcome { result: MenuResult::Back, notice: Some(n) }) => {
            assert_eq!(n.summary, "Error");
            assert_eq!(n.body, body);
        },
        other => panic!("unexpected step {:?}", other),
    }
}

#[test]
fn empty_selection_goes_back_quietly_on_every_screen() {
    for s in all_screens() {
        assert_eq!(s.select(""), Step::Done(Outcome { result: MenuResult::Back, notice: None }));
    }
}

#[test]
fn text_entry_screen_returns_the_text() {
    let s = Screen::Input(InputMenu::new("Enter".to_string()));
    assert_eq!(s.items(), Vec::<String>::new());
    assert_eq!(s.prompt(), "Enter");
    assert_eq!(s.select("http://x"), Step::Done(Outcome { result: MenuResult::Input("http://x".to_string()), notice: None }));
}

#[test]
fn mode_menu_lists_modes_in_order() {
    let m = ModeMenu::new();
    assert_eq!(
        m.items(),
        vec![
            "0: Artist Search",
            "1: Album Search",
            "2: Track Search",
            "3: Playlist Search",
            "4: My Playlists",
            "5: Liked Songs",
            "6: Device",
        ]
    );
    assert_eq!(Mode::all().len(), 7);
    for mode in Mode::all() {
        assert_eq!(Mode::from_str(&mode.to_string()), Ok(mode));
    }
    assert_eq!(Mode::from_str("Nope"), Err(ParseModeError));
}

#[test]
fn mode_menu_selection() {
    let m = ModeMenu::new();
    assert_eq!(
        m.select("2: Track Search"),
        Step::Done(Outcome { result: MenuResult::Menu(Screen::Search(SearchMenu::new(SearchKind::Track))), notice: None })
    );
    assert_eq!(m.select("4: My Playlists"), Step::Call(Request::Playlists));
    assert_eq!(m.select("5: Liked Songs"), Step::Call(Request::LikedSongs { max: 100 }));
    assert_eq!(m.select("6: Device"), Step::Call(Request::Devices));
    assert_eq!(m.select("7: nothing"), Step::OutOfRange(7));
    back_with_error(m.select("Dance"), "Failed to get index of selected item \"Dance\": invalid digit found in string");
    back_with_error(m.select(":abc"), "Failed to get index of selected item \":abc\": cannot parse integer from empty string");
}

#[test]
fn every_mode_line_selects_its_mode() {
    let m = ModeMenu::new();
    for line in m.items() {
        assert!(!matches!(m.select(&line), Step::OutOfRange(_)));
        assert!(!matches!(m.select(&line), Step::Done(Outcome { result: MenuResult::Back, .. })));
    }
}

#[test]
fn mode_lists_fetched() {
    let p = Playlist { id: "p1".to_string(), name: "Mix".to_string(), owner: Some("me".to_string()) };
    assert_eq!(
        playlists_fetched(Ok(vec![p.clone()])),
        Outcome { result: MenuResult::Menu(Screen::Playlists(PlaybackMenu::new(vec![p]))), notice: None }
    );
    let o = playlists_fetched(Err("offline".to_string()));
    assert_eq!(o.result, MenuResult::Back);
    assert_eq!(o.notice.unwrap().body, "Failed to get playlists: offline");
    let o = liked_songs_fetched(Err("401".to_string()));
    assert_eq!(o.notice.unwrap().body, "Failed to get liked songs: 401");
    let o = devices_fetched(Err("x".to_string()));
    assert_eq!(o.notice.unwrap().body, "Failed to get devices: x");
}

#[test]
fn search_menu() {
    let s = SearchMenu::new(SearchKind::Track);
    assert_eq!(s.items(), Vec::<String>::new());
    assert_eq!(
        s.select("abc"),
        Step::Call(Request::Search { query: "abc".to_string(), kind: SearchKind::Track, limit: 25 })
    );
    assert_eq!(search_finished("abc", Ok(SearchResults::Other)).result, MenuResult::Exit);
    let o = search_finished("abc", Err("timeout".to_string()));
    assert_eq!(o.result, MenuResult::Back);
    assert_eq!(o.notice.unwrap().body, "Failed to get results for search \"abc\": timeout");
}

#[test]
fn track_search_renders_and_plays_second_result() {
    let results = vec![track(Some("id0"), "Zero"), track(Some("id1"), "One"), track(Some("id2"), "Two")];
    let outcome = search_finished("abc", Ok(SearchResults::Tracks(results)));
    assert_eq!(outcome.notice, None);
    let screen = match outcome.result {
        MenuResult::Menu(s) => s,
        other => panic!("unexpected {:?}", other),
    };
    let lines = screen.items();
    assert_eq!(lines, vec!["0: Zero | Album | A, B", "1: One | Album | A, B", "2: Two | Album | A, B"]);
    assert_eq!(screen.prompt(), "Select Track");
    assert_eq!(screen.select(&lines[1]), Step::Call(Request::Play(PlaybackRequest::Track { id: "id1".to_string() })));
}

#[test]
fn playback_menu_faults_and_reports() {
    let m: PlaybackMenu<Track> = PlaybackMenu::new(vec![track(Some("id0"), "Zero"), track(None, "Nameless")]);
    assert_eq!(m.select("5: gone"), Step::OutOfRange(5));
    back_with_error(m.select("x: y"), "Failed to get index of selected item \"x: y\": invalid digit found in string");
    back_with_error(m.select("1: Nameless"), "Failed to start playback: no id found for Nameless");
    back_with_error(m.select(":abc"), "Failed to get index of selected item \":abc\": cannot parse integer from empty string");
    assert_eq!(playback_started(Ok(())), Outcome { result: MenuResult::Exit, notice: None });
    let o = playback_started(Err(Error::Client("403".to_string())));
    assert_eq!(o.result, MenuResult::Back);
    assert_eq!(o.notice.unwrap().body, "Failed to start playback: spotify client error: 403");
}

#[test]
fn item_lines_and_requests() {
    let album = Album { id: Some("al".to_string()), name: "Blue".to_string(), artists: vec!["X".to_string()] };
    assert_eq!(album.list_item(3), "3: Blue | X");
    assert_eq!(album.playback_request(), Ok(PlaybackRequest::Context { kind: ContextKind::Album, id: "al".to_string() }));
    let p = Playlist { id: "pl".to_string(), name: "Mix".to_string(), owner: None };
    assert_eq!(p.list_item(0), "0: Mix | ");
    assert_eq!(p.playback_request(), Ok(PlaybackRequest::Context { kind: ContextKind::Playlist, id: "pl".to_string() }));
    let a = Artist { id: "ar".to_string(), name: "Band".to_string() };
    assert_eq!(a.list_item(10), "10: Band");
    assert_eq!(Artist::prompt_message(), "Select Artist");
    let albums: AlbumMenu = PlaybackMenu::new(vec![album]);
    assert_eq!(albums.select("0: Blue | X"), Step::Call(Request::Play(PlaybackRequest::Context { kind: ContextKind::Album, id: "al".to_string() })));
}

#[test]
fn device_menu() {
    let m = DeviceMenu::new(vec![
        Device { id: Some("d0".to_string()), name: "Desk".to_string() },
        Device { id: None, name: "Phone".to_string() },
    ]);
    assert_eq!(m.items(), vec!["0: Desk", "1: Phone"]);
    assert_eq!(m.select("0: Desk"), Step::Call(Request::SwitchDevice { id: "d0".to_string(), name: "Desk".to_string() }));
    back_with_error(m.select("1: Phone"), "Device Phone has no ID");
    assert_eq!(m.select("2: x"), Step::OutOfRange(2));
    back_with_error(m.select(":abc"), "Failed to get index of selected item \":abc\": cannot parse integer from empty string");
}

#[test]
fn device_switch_results() {
    let o = device_switched("Desk", DeviceSwitch::Switched);
    assert_eq!(o.result, MenuResult::Exit);
    let n = o.notice.unwrap();
    assert_eq!(n.summary, "Device set to Desk");
    assert_eq!(n.body, "");
    let o = device_switched("Desk", DeviceSwitch::TransferFailed("busy".to_string()));
    assert_eq!(o.result, MenuResult::Back);
    assert_eq!(o.notice.unwrap().body, "Failed to switch playback to Desk: busy");
    let o = device_switched("Desk", DeviceSwitch::StoreFailed("ro".to_string()));
    assert_eq!(o.notice.unwrap().body, "Failed to set device to Desk: ro");
    let o = device_switched("Desk", DeviceSwitch::ConfigUnreadable("bad".to_string()));
    assert_eq!(o.notice.unwrap().body, "Failed to load config: bad");
}

#[test]
fn device_resolution() {
    let with = Config { device_id: Some("d".to_string()), program: None, redirect_uri_port: None };
    assert_eq!(device_id(Ok(with.clone())), (DeviceChoice::Use(Some("d".to_string())), None));
    assert_eq!(device_id(Ok(Config::default())), (DeviceChoice::Pick, None));
    let (choice, notice) = device_id(Err("missing".to_string()));
    assert_eq!(choice, DeviceChoice::Use(None));
    assert_eq!(notice.unwrap().body, "Failed to load device id from config: missing");
    assert_eq!(device_after_pick(Ok(with)).0, Some("d".to_string()));
    assert_eq!(device_after_pick(Ok(Config::default())), (None, None));
}
