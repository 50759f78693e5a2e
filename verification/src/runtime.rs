//! The bot's connection state as the dashboard shows it, and how
//! connecting, disconnecting and resetting change it.
use vstd::prelude::*;
use crate::json::{self, JsonValue};
use crate::models::TwitchUser;
use crate::text;

verus! {

/// The bot's connection state.
#[derive(Debug, Clone)]
pub struct RuntimeStatus {
    pub connected: bool,
    pub connecting: bool,
    pub bot_login: Option<String>,
    pub channel: Option<String>,
    pub live: bool,
    pub last_error: Option<String>,
    pub chat_lines: u64,
    pub setup_complete: bool,
    /// The ad-break listener is subscribed.
    pub ads_listening: bool,
    /// Why the ad-break listener is not working, when it is not.
    pub ads_error: Option<String>,
}

/// What other parts of the app ask the chat connection to send.
#[derive(Debug, Clone)]
pub enum ChatOutbound {
    Message(String),
}

impl RuntimeStatus {
    /// The state at start-up: nothing connected, nothing known.
    pub fn initial() -> (r: RuntimeStatus)
        ensures
            !r.connected && !r.connecting && !r.live && !r.setup_complete,
            r.bot_login is None && r.channel is None && r.last_error is None,
            r.chat_lines == 0,
            !r.ads_listening && r.ads_error is None,
    {
        RuntimeStatus {
            connected: false,
            connecting: false,
            bot_login: None,
            channel: None,
            live: false,
            last_error: None,
            chat_lines: 0,
            setup_complete: false,
            ads_listening: false,
            ads_error: None,
        }
    }
}

/// The text `1` that stored flags hold when set.
pub open spec fn flag_set(v: Option<String>) -> bool {
    v matches Some(s) && s@ == "1"@
}

pub fn is_flag_set(v: &Option<String>) -> (r: bool)
    ensures
        r == flag_set(*v),
{
    match v {
        Some(s) => text::str_eq(s.as_str(), "1"),
        None => false,
    }
}

/// The status the dashboard gets: the live state with the setup flag,
/// channel and bot login as stored.
pub fn status_view(
    rt: &RuntimeStatus,
    setup_complete: &Option<String>,
    channel: Option<String>,
    bot_login: Option<String>,
) -> (r: RuntimeStatus)
    ensures
        r == (RuntimeStatus {
            setup_complete: flag_set(*setup_complete),
            channel,
            bot_login,
            ..*rt
        }),
{
    RuntimeStatus {
        connected: rt.connected,
        connecting: rt.connecting,
        bot_login,
        channel,
        live: rt.live,
        last_error: rt.last_error.clone(),
        chat_lines: rt.chat_lines,
        setup_complete: is_flag_set(setup_complete),
        ads_listening: rt.ads_listening,
        ads_error: rt.ads_error.clone(),
    }
}

// ---------------------------------------------------------------------------
// Connecting
// ---------------------------------------------------------------------------

/// What a connection attempt does to the status: whether it starts, and the
/// status after it. It is refused, with nothing changed, while the bot is
/// connected or connecting; else the bot is now connecting with no error.
pub open spec fn connect_step(rt: RuntimeStatus) -> (bool, RuntimeStatus) {
    if rt.connected || rt.connecting {
        (false, rt)
    } else {
        (true, RuntimeStatus { connecting: true, last_error: None, ..rt })
    }
}

/// Starts a connection attempt: `false`, with nothing changed, when the bot
/// is already connected or connecting; else it is now connecting with no
/// error.
pub fn begin_connect(rt: &mut RuntimeStatus) -> (r: bool)
    ensures
        (r, *final(rt)) == connect_step(*old(rt)),
        r == !(old(rt).connected || old(rt).connecting),
{
    if rt.connected || rt.connecting {
        return false;
    }
    rt.connecting = true;
    rt.last_error = None;
    true
}

/// The settings a connection needs: a client id and a channel.
pub fn connect_settings_ok(client_id: &str, channel: &str) -> (r: Result<(), String>)
    ensures
        r is Ok <==> (client_id@.len() > 0 && channel@.len() > 0),
        r matches Err(e) ==> e@ == "Connect Twitch and set a channel first."@,
{
    if client_id.is_empty() || channel.is_empty() {
        Err(text::own("Connect Twitch and set a channel first."))
    } else {
        Ok(())
    }
}

/// A connection attempt that failed before the chat loop started.
pub fn connect_failed(rt: &mut RuntimeStatus)
    ensures
        *final(rt) == (RuntimeStatus { connecting: false, ..*old(rt) }),
{
    rt.connecting = false;
}

/// The account the bot chats as: the stored bot login, else the channel.
pub fn bot_login_for(bot_login: String, channel: &str) -> (r: String)
    ensures
        r@ == if bot_login@.len() == 0 { channel@ } else { bot_login@ },
{
    if bot_login.as_str().is_empty() { text::own(channel) } else { bot_login }
}

/// The chat loop is running.
pub fn connected(rt: &mut RuntimeStatus, channel: String, bot_login: String)
    ensures
        *final(rt) == (RuntimeStatus {
            connected: true,
            connecting: false,
            channel: Some(channel),
            bot_login: Some(bot_login),
            ..*old(rt)
        }),
{
    rt.connected = true;
    rt.connecting = false;
    rt.channel = Some(channel);
    rt.bot_login = Some(bot_login);
}

/// The chat loop ended, with its error if it failed.
pub fn chat_loop_ended(rt: &mut RuntimeStatus, result: Result<(), String>)
    ensures
        *final(rt) == (RuntimeStatus {
            connected: false,
            connecting: false,
            last_error: match result {
                Err(e) => Some(e),
                Ok(_) => old(rt).last_error,
            },
            ..*old(rt)
        }),
{
    rt.connected = false;
    rt.connecting = false;
    match result {
        Err(e) => {
            rt.last_error = Some(e);
        },
        Ok(_) => {},
    }
}

/// The bot was disconnected (or logged out).
pub fn disconnected(rt: &mut RuntimeStatus)
    ensures
        *final(rt) == (RuntimeStatus { connected: false, connecting: false, ..*old(rt) }),
{
    rt.connected = false;
    rt.connecting = false;
}

/// The app was reset: disconnected, with nothing known of the account,
/// channel, errors, chat lines or stream.
pub fn reset_runtime(rt: &mut RuntimeStatus)
    ensures
        *final(rt) == (RuntimeStatus {
            connected: false,
            connecting: false,
            bot_login: None,
            channel: None,
            last_error: None,
            chat_lines: 0,
            live: false,
            ..*old(rt)
        }),
{
    rt.connected = false;
    rt.connecting = false;
    rt.bot_login = None;
    rt.channel = None;
    rt.last_error = None;
    rt.chat_lines = 0;
    rt.live = false;
}

/// At start-up the bot connects by itself once setup is complete and a
/// client id and channel are stored.
pub fn should_auto_connect(setup_complete: &Option<String>, client_id: &Option<String>, channel: &Option<String>) -> (r: bool)
    ensures
        r == (flag_set(*setup_complete) && (client_id matches Some(c) && c@.len() > 0)
            && (channel matches Some(c) && c@.len() > 0)),
{
    let setup = is_flag_set(setup_complete);
    let has_client = match client_id {
        Some(c) => !c.as_str().is_empty(),
        None => false,
    };
    let has_channel = match channel {
        Some(c) => !c.as_str().is_empty(),
        None => false,
    };
    setup && has_client && has_channel
}

/// The stream went live or offline: `Some` of the automation trigger to run
/// when that changed the state.
pub fn set_live(rt: &mut RuntimeStatus, live: bool) -> (r: Option<String>)
    ensures
        old(rt).live == live ==> r is None && *final(rt) == *old(rt),
        old(rt).live != live ==> *final(rt) == (RuntimeStatus { live, ..*old(rt) })
            && (r matches Some(t) && t@ == (if live { "stream_online"@ } else { "stream_offline"@ })),
{
    if rt.live == live {
        return None;
    }
    rt.live = live;
    if live { Some(text::own("stream_online")) } else { Some(text::own("stream_offline")) }
}

/// One more chat line was seen.
pub fn count_chat_line(rt: &mut RuntimeStatus)
    ensures
        *final(rt) == (RuntimeStatus {
            chat_lines: if old(rt).chat_lines < u64::MAX { (old(rt).chat_lines + 1) as u64 } else { u64::MAX },
            ..*old(rt)
        }),
{
    rt.chat_lines = rt.chat_lines.saturating_add(1);
}

// ---------------------------------------------------------------------------
// Signing in
// ---------------------------------------------------------------------------

/// The stored client id a device login needs.
pub fn client_id_for_login(stored: Option<String>) -> (r: Result<String, String>)
    ensures
        (stored matches Some(c) && c@.len() > 0) ==> r == Ok::<String, String>(stored->0),
        !(stored matches Some(c) && c@.len() > 0) ==> (r matches Err(e)
            && e@ == "Add your Twitch Client ID in Settings first (from dev.twitch.tv)."@),
{
    match stored {
        Some(c) => {
            if c.as_str().is_empty() {
                Err(text::own("Add your Twitch Client ID in Settings first (from dev.twitch.tv)."))
            } else {
                Ok(c)
            }
        },
        None => Err(text::own("Add your Twitch Client ID in Settings first (from dev.twitch.tv).")),
    }
}

/// The settings written once a device login has found the user: the bot
/// login and user id, and, in streamer mode (the default), the channel.
pub fn login_settings(user: &TwitchUser, account_mode: &Option<String>) -> (r: Vec<(String, String)>)
    ensures
        r@.len() == (if account_mode is None || (account_mode matches Some(m) && m@ == "streamer"@) { 3int } else { 2int }),
        r@[0].0@ == "bot_login"@ && r@[0].1 == user.login,
        (account_mode is None || (account_mode matches Some(m) && m@ == "streamer"@)) ==> r@[1].0@ == "channel"@
            && r@[1].1 == user.login && r@[2].0@ == "bot_user_id"@ && r@[2].1 == user.id,
        !(account_mode is None || (account_mode matches Some(m) && m@ == "streamer"@)) ==> r@[1].0@ == "bot_user_id"@
            && r@[1].1 == user.id,
{
    let streamer = match account_mode {
        Some(m) => text::str_eq(m.as_str(), "streamer"),
        None => true,
    };
    let mut out: Vec<(String, String)> = Vec::new();
    out.push((text::own("bot_login"), user.login.clone()));
    if streamer {
        out.push((text::own("channel"), user.login.clone()));
    }
    out.push((text::own("bot_user_id"), user.id.clone()));
    out
}

/// The poll interval of a device login: at least one second.
pub fn poll_interval(interval: u64) -> (r: u64)
    ensures
        r == (if interval > 1 { interval } else { 1 }),
{
    if interval > 1 { interval } else { 1 }
}

/// The ad-break listener's state changed.
pub fn set_ads_state(rt: &mut RuntimeStatus, listening: bool, error: Option<String>)
    ensures
        *final(rt) == (RuntimeStatus { ads_listening: listening, ads_error: error, ..*old(rt) }),
{
    rt.ads_listening = listening;
    rt.ads_error = error;
}


/// The stream is live when Twitch's streams answer lists a stream.
pub fn stream_is_live(body: &JsonValue) -> (r: bool)
    ensures
        r == (json::get(*body, "data"@) matches Some(JsonValue::Array(a)) && a@.len() > 0),
{
    match json::get_member(body, "data") {
        Some(JsonValue::Array(a)) => a.len() > 0,
        _ => false,
    }
}


// ---------------------------------------------------------------------------
// Laws
// ---------------------------------------------------------------------------

/// Law: asking to connect while a connection is starting or running does
/// nothing. After one connection attempt, a second one leaves the status as
/// it was, and when the first one started, the second is refused.
pub proof fn connect_is_idempotent(rt: RuntimeStatus)
    ensures
        connect_step(rt).0 ==> connect_step(connect_step(rt).1) == (false, connect_step(rt).1),
        connect_step(connect_step(rt).1).1 == connect_step(rt).1,
{
}

} // verus!
