//! Desktop notifications as plain values, and where the icons they show live.
//! Delivering a notification is left to the caller.
use vstd::prelude::*;
use vstd::string::*;
use crate::text::concat;

verus! {

pub const ICONS_DIR: &'static str = ".local/share/rofify/icons";
pub const APP_ICON: &'static str = "rofify.png";
pub const COVER_ART_ICON: &'static str = "cover.png";

/// A notification to be shown: a summary line, a body, and the icon to show
/// with it (the application's icon when none is given).
#[derive(Debug, Clone, PartialEq, Eq)]
pub struct Notification {
    pub summary: String,
    pub body: String,
    pub icon: Option<String>,
}

/// `part` appended to the path `base` as one more component: a separator
/// goes between them unless `base` is empty or already ends in one.
pub open spec fn path_joined(base: Seq<char>, part: Seq<char>) -> Seq<char> {
    if base.len() == 0 || base.last() == '/' {
        base + part
    } else {
        base + seq!['/'] + part
    }
}

/// Appends the relative path `part` to `base`.
pub fn join_path(base: &str, part: &str) -> (r: String)
    ensures
        r@ == path_joined(base@, part@),
{
    let n = base.unicode_len();
    if n == 0 || base.get_char(n - 1) == '/' {
        concat(base, part)
    } else {
        let mut s = concat(base, "/");
        proof { reveal_strlit("/"); }
        s.append(part);
        s
    }
}

pub open spec fn icons_dir_of(home: Seq<char>) -> Seq<char> {
    path_joined(home, ICONS_DIR@)
}

pub open spec fn app_icon_path_of(home: Seq<char>) -> Seq<char> {
    path_joined(icons_dir_of(home), APP_ICON@)
}

pub open spec fn cover_art_icon_path_of(home: Seq<char>) -> Seq<char> {
    path_joined(icons_dir_of(home), COVER_ART_ICON@)
}

/// The directory under the home directory `home` that holds the icons.
pub fn icons_dir(home: &str) -> (r: String)
    ensures
        r@ == icons_dir_of(home@),
{
    join_path(home, ICONS_DIR)
}

/// Where the application's own icon is kept.
pub fn app_icon_path(home: &str) -> (r: String)
    ensures
        r@ == app_icon_path_of(home@),
{
    let dir = icons_dir(home);
    join_path(dir.as_str(), APP_ICON)
}

/// Where the cover art of the track now playing is saved.
pub fn cover_art_icon_path(home: &str) -> (r: String)
    ensures
        r@ == cover_art_icon_path_of(home@),
{
    let dir = icons_dir(home);
    join_path(dir.as_str(), COVER_ART_ICON)
}

/// Whether `n` reads `summary` over `body` and shows `icon`.
pub open spec fn notice_is(
    n: Notification,
    summary: Seq<char>,
    body: Seq<char>,
    icon: Option<Seq<char>>,
) -> bool {
    &&& n.summary@ == summary
    &&& n.body@ == body
    &&& match (n.icon, icon) {
        (None, None) => true,
        (Some(a), Some(b)) => a@ == b,
        _ => false,
    }
}

/// Whether `n` reports an error described by `body`.
pub open spec fn error_notice(n: Notification, body: Seq<char>) -> bool {
    notice_is(n, "Error"@, body, None)
}

/// A notification with the given summary, body and icon.
pub fn notify(summary: &str, body: &str, icon: Option<String>) -> (r: Notification)
    ensures
        r.summary@ == summary@,
        r.body@ == body@,
        r.icon == icon,
{
    Notification { summary: String::from_str(summary), body: String::from_str(body), icon }
}

/// A notification that reports an error.
pub fn enotify(body: &str) -> (r: Notification)
    ensures
        error_notice(r, body@),
{
    notify("Error", body, None)
}

impl Notification {
    /// The icon to show: the one given, else the application's icon under
    /// the home directory `home`.
    pub fn icon_path(&self, home: &str) -> (r: String)
        ensures
            r@ == match self.icon {
                Some(i) => i@,
                None => app_icon_path_of(home@),
            },
    {
        match &self.icon {
            Some(i) => i.clone(),
            None => app_icon_path(home),
        }
    }
}

} // verus!
