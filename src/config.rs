//! The persisted configuration and the places and addresses derived from it.
//! Reading and writing the configuration file is left to the caller.
use vstd::prelude::*;
use vstd::string::*;
use crate::notify::{join_path, path_joined};
use crate::text::{concat, decimal, decimal_text, texts};

verus! {

pub const CONFIG_DIR: &'static str = ".config";
pub const APP_NAME: &'static str = "rofify";
pub const CONFIG_NAME: &'static str = "config";
pub const TOKEN_CACHE_FILE: &'static str = ".spotify_token_cache.json";
pub const DEFAULT_REDIRECT_URI_PORT: u16 = 8888;

/// The external picker that shows the menus.
#[derive(Debug, Clone, Copy, PartialEq, Eq, Structural)]
pub enum MenuProgram {
    Rofi,
    DMenu,
}

pub const DEFAULT_PROGRAM: MenuProgram = MenuProgram::Rofi;

impl MenuProgram {
    pub open spec fn argv(&self, prompt: Seq<char>) -> Seq<Seq<char>> {
        match self {
            MenuProgram::Rofi => seq!["rofi"@, "-dmenu"@, "-p"@, prompt],
            MenuProgram::DMenu => seq!["dmenu"@, "-p"@, prompt],
        }
    }

    /// The program and the arguments that start the picker in its
    /// line-selection mode, showing `prompt`.
    pub fn command(&self, prompt: &str) -> (r: Vec<String>)
        ensures
            texts(r@) == self.argv(prompt@),
    {
        let mut v: Vec<String> = Vec::new();
        match self {
            MenuProgram::Rofi => {
                v.push(String::from_str("rofi"));
                v.push(String::from_str("-dmenu"));
            },
            MenuProgram::DMenu => {
                v.push(String::from_str("dmenu"));
            },
        }
        v.push(String::from_str("-p"));
        v.push(String::from_str(prompt));
        assert(texts(v@) =~= self.argv(prompt@));
        v
    }
}

/// The persisted configuration. A field left out of the file is `None`.
#[derive(Debug, Clone, PartialEq, Eq)]
pub struct Config {
    pub device_id: Option<String>,
    pub program: Option<MenuProgram>,
    pub redirect_uri_port: Option<u16>,
}

impl Default for Config {
    fn default() -> (r: Config)
        ensures
            r.device_id is None,
            r.program is None,
            r.redirect_uri_port is None,
    {
        Config { device_id: None, program: None, redirect_uri_port: None }
    }
}

impl Config {
    /// The configuration as it is used once read: an unset picker becomes
    /// rofi and an unset callback port becomes the default one.
    pub fn with_defaults(self) -> (r: Config)
        ensures
            r.device_id == self.device_id,
            r.program == Some(match self.program {
                Some(p) => p,
                None => DEFAULT_PROGRAM,
            }),
            r.redirect_uri_port == Some(match self.redirect_uri_port {
                Some(p) => p,
                None => DEFAULT_REDIRECT_URI_PORT,
            }),
    {
        let program = match self.program {
            Some(p) => p,
            None => DEFAULT_PROGRAM,
        };
        let port = match self.redirect_uri_port {
            Some(p) => p,
            None => DEFAULT_REDIRECT_URI_PORT,
        };
        Config { device_id: self.device_id, program: Some(program), redirect_uri_port: Some(port) }
    }

    /// The configuration with `id` as the default playback device.
    pub fn with_device(self, id: String) -> (r: Config)
        ensures
            r.device_id == Some(id),
            r.program == self.program,
            r.redirect_uri_port == self.redirect_uri_port,
    {
        Config { device_id: Some(id), ..self }
    }

    /// The picker to use.
    pub fn menu_program(&self) -> (r: MenuProgram)
        ensures
            r == match self.program {
                Some(p) => p,
                None => DEFAULT_PROGRAM,
            },
    {
        match self.program {
            Some(p) => p,
            None => DEFAULT_PROGRAM,
        }
    }

    /// The local port that the authorization callback is served on.
    pub fn callback_port(&self) -> (r: u16)
        ensures
            r == match self.redirect_uri_port {
                Some(p) => p,
                None => DEFAULT_REDIRECT_URI_PORT,
            },
    {
        match self.redirect_uri_port {
            Some(p) => p,
            None => DEFAULT_REDIRECT_URI_PORT,
        }
    }
}

pub open spec fn app_config_dir_of(home: Seq<char>) -> Seq<char> {
    path_joined(path_joined(home, CONFIG_DIR@), APP_NAME@)
}

/// The directory under the home directory `home` that holds the
/// configuration and the token cache.
pub fn app_config_dir(home: &str) -> (r: String)
    ensures
        r@ == app_config_dir_of(home@),
{
    let config = join_path(home, CONFIG_DIR);
    join_path(config.as_str(), APP_NAME)
}

/// Where the token cache is kept.
pub fn token_cache_path(home: &str) -> (r: String)
    ensures
        r@ == path_joined(app_config_dir_of(home@), TOKEN_CACHE_FILE@),
{
    let dir = app_config_dir(home);
    join_path(dir.as_str(), TOKEN_CACHE_FILE)
}

pub open spec fn redirect_uri_of(port: u16) -> Seq<char> {
    "http://localhost:"@ + decimal(port as nat) + "/callback"@
}

/// The address that the authorization server sends the browser back to.
pub fn redirect_uri(port: u16) -> (r: String)
    ensures
        r@ == redirect_uri_of(port),
{
    let digits = decimal_text(port as u64);
    let mut s = concat("http://localhost:", digits.as_str());
    s.append("/callback");
    s
}

} // verus!
