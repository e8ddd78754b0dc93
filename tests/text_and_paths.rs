use rofify::config::{app_config_dir, redirect_uri, token_cache_path, Config, MenuProgram};
use rofify::notify::{app_icon_path, cover_art_icon_path, enotify, icons_dir, join_path, notify};
use rofify::selection::{quote, selection_index, IndexError};
use rofify::text::{decimal_text, join, same_text, signed_decimal_text};
use rofify::visual::{format_duration, format_two_digit_int};

#[test]
fn decimal_rendering() {
    assert_eq!(decimal_text(0), "0");
    assert_eq!(decimal_text(7), "7");
    assert_eq!(decimal_text(1234), "1234");
    assert_eq!(decimal_text(u64::MAX), "18446744073709551615");
    assert_eq!(signed_decimal_text(-45), "-45");
    assert_eq!(signed_decimal_text(i64::MIN), "-9223372036854775808");
}

#[test]
fn joining_and_comparing() {
    let parts = vec!["a".to_string(), "b".to_string(), "c".to_string()];
    assert_eq!(join(&parts, ", "), "a, b, c");
    assert_eq!(join(&Vec::new(), ", "), "");
    assert_eq!(join(&vec!["solo".to_string()], ", "), "solo");
    assert!(same_text("Device", "Device"));
    assert!(!same_text("Device", "Devic"));
    assert!(!same_text("Device", "device"));
    assert_eq!(quote("x y"), "\"x y\"");
}

#[test]
fn selection_index_reads_the_number_before_the_colon() {
    assert_eq!(selection_index("12: Song | Album | Artist"), Ok(12));
    assert_eq!(selection_index("0: a"), Ok(0));
    assert_eq!(selection_index("5"), Ok(5));
    assert_eq!(selection_index("+3: x"), Ok(3));
    assert_eq!(selection_index("007: x"), Ok(7));
}

#[test]
fn selection_index_errors() {
    assert_eq!(selection_index(""), Err(IndexError::Empty));
    assert_eq!(selection_index(": nothing before"), Err(IndexError::Empty));
    assert_eq!(selection_index("abc"), Err(IndexError::InvalidDigit));
    assert_eq!(selection_index("-1: x"), Err(IndexError::InvalidDigit));
    assert_eq!(selection_index("+: x"), Err(IndexError::InvalidDigit));
    assert_eq!(selection_index("1 2: x"), Err(IndexError::InvalidDigit));
    assert_eq!(selection_index("99999999999999999999999: x"), Err(IndexError::PosOverflow));
    assert_eq!(IndexError::InvalidDigit.message(), "invalid digit found in string");
    assert_eq!(IndexError::Empty.message(), "cannot parse integer from empty string");
}

#[test]
fn icon_paths() {
    assert_eq!(icons_dir("/home/u"), "/home/u/.local/share/rofify/icons");
    assert_eq!(app_icon_path("/home/u"), "/home/u/.local/share/rofify/icons/rofify.png");
    assert_eq!(cover_art_icon_path("/home/u/"), "/home/u/.local/share/rofify/icons/cover.png");
    assert_eq!(join_path("", "a"), "a");
}

#[test]
fn notifications() {
    let e = enotify("boom");
    assert_eq!(e.summary, "Error");
    assert_eq!(e.body, "boom");
    assert_eq!(e.icon, None);
    assert_eq!(e.icon_path("/h"), "/h/.local/share/rofify/icons/rofify.png");
    let n = notify("Repeat", "track", Some("/tmp/i.png".to_string()));
    assert_eq!(n.summary, "Repeat");
    assert_eq!(n.icon_path("/h"), "/tmp/i.png");
}

#[test]
fn config_paths_and_defaults() {
    assert_eq!(app_config_dir("/home/u"), "/home/u/.config/rofify");
    assert_eq!(token_cache_path("/home/u"), "/home/u/.config/rofify/.spotify_token_cache.json");
    assert_eq!(redirect_uri(8888), "http://localhost:8888/callback");
    assert_eq!(redirect_uri(0), "http://localhost:0/callback");
    let c = Config::default().with_defaults();
    assert_eq!(c.program, Some(MenuProgram::Rofi));
    assert_eq!(c.redirect_uri_port, Some(8888));
    assert_eq!(c.device_id, None);
    let c = Config { device_id: None, program: Some(MenuProgram::DMenu), redirect_uri_port: Some(9000) }
        .with_defaults()
        .with_device("dev1".to_string());
    assert_eq!(c.program, Some(MenuProgram::DMenu));
    assert_eq!(c.callback_port(), 9000);
    assert_eq!(c.device_id, Some("dev1".to_string()));
    assert_eq!(MenuProgram::Rofi.command("Rofify"), vec!["rofi", "-dmenu", "-p", "Rofify"]);
    assert_eq!(MenuProgram::DMenu.command("Search"), vec!["dmenu", "-p", "Search"]);
}

#[test]
fn two_digit_numbers_and_durations() {
    assert_eq!(format_two_digit_int(7), "07");
    assert_eq!(format_two_digit_int(42), "42");
    assert_eq!(format_two_digit_int(0), "00");
    assert_eq!(format_two_digit_int(123), "123");
    assert_eq!(format_two_digit_int(-5), "-1-5");
    assert_eq!(format_duration(125), "02:05");
    assert_eq!(format_duration(0), "00:00");
    assert_eq!(format_duration(3599), "59:59");
    assert_eq!(format_duration(3600), "60:00");
}
