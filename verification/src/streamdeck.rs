//! The Stream Deck plugin: where it is installed, the token and port it
//! reaches the control API with, and the status the settings screen shows.
use vstd::prelude::*;
use crate::control;
use crate::ids;
use crate::models::StreamDeckStatus;
use crate::runtime;
use crate::text;

verus! {

pub const PLUGIN_FOLDER_NAME: &'static str = "com.streamry.streamdeck.sdPlugin";
pub const SETTINGS_FILE: &'static str = "streamry-connection.json";

/// `dir` joined with the relative `name`, as a path buffer joins them: a
/// separator is put between them unless `dir` is empty or already ends with
/// one (`/`, or the platform's separator `sep`).
pub open spec fn join_spec(dir: Seq<char>, name: Seq<char>, sep: char) -> Seq<char> {
    if dir.len() == 0 || dir.last() == '/' || dir.last() == sep {
        dir + name
    } else {
        dir + seq![sep] + name
    }
}

pub fn join_path(dir: &str, name: &str, sep: char) -> (r: String)
    ensures
        r@ == join_spec(dir@, name@, sep),
{
    let v = text::chars_of(dir);
    if v.len() == 0 || v[v.len() - 1] == '/' || v[v.len() - 1] == sep {
        text::concat(dir, name)
    } else {
        let mut w = text::chars_of(dir);
        w.push(sep);
        let d = text::string_of(&w);
        text::concat(d.as_str(), name)
    }
}

/// Where the plugin is installed, given the Stream Deck plugins folder
/// (`None` where Stream Deck is not supported).
pub fn install_path(plugins_dir: &Option<String>, sep: char) -> (r: Option<String>)
    ensures
        match plugins_dir {
            Some(d) => r matches Some(p) && p@ == join_spec(d@, PLUGIN_FOLDER_NAME@, sep),
            None => r is None,
        },
{
    match plugins_dir {
        Some(d) => Some(join_path(d.as_str(), PLUGIN_FOLDER_NAME, sep)),
        None => None,
    }
}

/// A stored port setting read as a port number, else `dflt`.
pub open spec fn port_or_spec(stored: Option<String>, dflt: u16) -> u16 {
    match stored {
        Some(s) => match text::parse_unsigned_seq(s@, 65535) {
            Some(n) => n as u16,
            None => dflt,
        },
        None => dflt,
    }
}

pub fn port_or(stored: &Option<String>, dflt: u16) -> (r: u16)
    ensures
        r == port_or_spec(*stored, dflt),
{
    match stored {
        Some(s) => match text::parse_unsigned(s.as_str(), 65535) {
            Some(n) => n as u16,
            None => dflt,
        },
        None => dflt,
    }
}

/// The control token to use: the stored one when set, else a new one
/// (32 hex digits) that must then be stored, with the API switched on.
pub struct TokenChoice {
    pub token: String,
    pub fresh: bool,
}

pub fn choose_token(stored: Option<String>) -> (r: TokenChoice)
    ensures
        (stored matches Some(t) && t@.len() > 0) ==> !r.fresh && r.token == stored->0,
        !(stored matches Some(t) && t@.len() > 0) ==> r.fresh && r.token@.len() == 32
            && forall|i: int| 0 <= i < 32 ==> ids::is_lower_hex(#[trigger] r.token@[i]),
{
    match stored {
        Some(t) => {
            if !t.as_str().is_empty() {
                return TokenChoice { token: t, fresh: false };
            }
        },
        None => {},
    }
    TokenChoice { token: ids::new_token(), fresh: true }
}

/// With a new token the port setting is written when it is stored empty.
pub fn port_needs_default(stored: &Option<String>) -> (r: bool)
    ensures
        r == (stored matches Some(s) && s@.len() == 0),
{
    match stored {
        Some(s) => s.as_str().is_empty(),
        None => false,
    }
}

/// What the plugin reads to reach the control API.
#[derive(Debug, Clone)]
pub struct PluginConnection {
    pub base_url: String,
    pub token: String,
    pub port: u16,
}

pub fn plugin_connection(port: u16, token: &str) -> (r: PluginConnection)
    ensures
        r.base_url@ == "http://127.0.0.1:"@ + text::decimal(port as nat),
        r.token@ == token@,
        r.port == port,
{
    PluginConnection {
        base_url: text::concat("http://127.0.0.1:", text::u64_text(port as u64).as_str()),
        token: text::own(token),
        port,
    }
}

/// Where the connection file goes: into the installed plugin's folder; an
/// error where Stream Deck is not supported or the plugin is not installed.
pub fn connection_file_target(install: &Option<String>, exists: bool, sep: char) -> (r: Result<String, String>)
    ensures
        match install {
            None => r matches Err(e) && e@ == "Stream Deck is not supported on this OS (Windows and macOS only)."@,
            Some(p) => if exists {
                r matches Ok(f) && f@ == join_spec(p@, SETTINGS_FILE@, sep)
            } else {
                r matches Err(e) && e@ == "Plugin is not installed yet."@
            },
        },
{
    match install {
        None => Err(text::own("Stream Deck is not supported on this OS (Windows and macOS only).")),
        Some(p) => {
            if exists {
                Ok(join_path(p.as_str(), SETTINGS_FILE, sep))
            } else {
                Err(text::own("Plugin is not installed yet."))
            }
        },
    }
}

/// The hint the settings screen shows.
pub open spec fn status_message_spec(supported: bool, installed: bool, enabled: bool) -> Seq<char> {
    if !supported {
        "Stream Deck integration is available on Windows and macOS."@
    } else if !installed {
        "Plugin not installed. Click Install to add Streamry actions to Stream Deck."@
    } else if !enabled {
        "Plugin installed. Enable the control API so Stream Deck can reach Streamry."@
    } else {
        "Installed. Restart Stream Deck if actions don’t appear, then find Streamry in the action list."@
    }
}

pub fn status_message(supported: bool, installed: bool, enabled: bool) -> (r: String)
    ensures
        r@ == status_message_spec(supported, installed, enabled),
{
    if !supported {
        text::own("Stream Deck integration is available on Windows and macOS.")
    } else if !installed {
        text::own("Plugin not installed. Click Install to add Streamry actions to Stream Deck.")
    } else if !enabled {
        text::own("Plugin installed. Enable the control API so Stream Deck can reach Streamry.")
    } else {
        text::own("Installed. Restart Stream Deck if actions don’t appear, then find Streamry in the action list.")
    }
}

/// The state of the integration: supported where there is a plugins folder,
/// the control API on when its setting is `1`, its port as stored (else the
/// default), and whether a token is stored.
pub fn status(
    install_path: Option<String>,
    installed: bool,
    enabled_setting: &Option<String>,
    port_setting: &Option<String>,
    token_setting: &Option<String>,
    control_running: bool,
) -> (r: StreamDeckStatus)
    ensures
        r.supported == install_path is Some,
        r.install_path == install_path,
        r.installed == installed,
        r.control_enabled == runtime::flag_set(*enabled_setting),
        r.control_port == port_or_spec(*port_setting, control::DEFAULT_PORT),
        r.control_running == control_running,
        r.has_token == (token_setting matches Some(t) && t@.len() > 0),
        r.message@ == status_message_spec(install_path is Some, installed, runtime::flag_set(*enabled_setting)),
{
    let supported = install_path.is_some();
    let enabled = runtime::is_flag_set(enabled_setting);
    let has_token = match token_setting {
        Some(t) => !t.as_str().is_empty(),
        None => false,
    };
    StreamDeckStatus {
        installed,
        install_path,
        control_enabled: enabled,
        control_port: port_or(port_setting, control::DEFAULT_PORT),
        control_running,
        has_token,
        supported,
        message: status_message(supported, installed, enabled),
    }
}

} // verus!
