//! The local control API that the Stream Deck plugin calls: who may call
//! it, and what its requests answer.
use vstd::prelude::*;
use crate::giveaway;
use crate::models::{Automation, ChatCommand, Giveaway, GiveawayWinner, MediaClip};
use crate::runtime::RuntimeStatus;
use crate::text;
use crate::updates;

verus! {

/// The port the control API listens on.
pub const DEFAULT_PORT: u16 = 1920;

/// The request header that carries the control token.
pub const TOKEN_HEADER: &'static str = "x-streamry-token";

/// Whether the control API is on, and the token callers must present.
#[derive(Debug, Clone)]
pub struct ControlHub {
    pub enabled: bool,
    pub token: String,
    pub port: u16,
}

impl ControlHub {
    pub fn new(port: u16, enabled: bool, token: String) -> (r: ControlHub)
        ensures
            r == (ControlHub { enabled, token, port }),
    {
        ControlHub { enabled, token, port }
    }

    pub fn set_enabled(&mut self, enabled: bool)
        ensures
            *final(self) == (ControlHub { enabled, ..*old(self) }),
    {
        self.enabled = enabled;
    }

    pub fn set_token(&mut self, token: String)
        ensures
            *final(self) == (ControlHub { token, ..*old(self) }),
    {
        self.token = token;
    }

    pub fn is_enabled(&self) -> (r: bool)
        ensures
            r == self.enabled,
    {
        self.enabled
    }

    pub fn token_snapshot(&self) -> (r: String)
        ensures
            r == self.token,
    {
        self.token.clone()
    }
}

/// An error answer: its HTTP status and message.
#[derive(Debug, Clone)]
pub struct ApiError {
    pub status: u16,
    pub message: String,
}

/// The answer to a request's credentials: `503` while the API is off or
/// has no token, `401` when the presented token (empty when the header is
/// missing) is not the configured one.
pub open spec fn auth_spec(enabled: bool, token: Seq<char>, provided: Seq<char>, r: Result<(), ApiError>) -> bool {
    if !enabled {
        r matches Err(e) && e.status == 503 && e.message@ == "Stream Deck control API is disabled"@
    } else if token.len() == 0 {
        r matches Err(e) && e.status == 503 && e.message@ == "Stream Deck control token not configured"@
    } else if provided != token {
        r matches Err(e) && e.status == 401 && e.message@ == "Invalid or missing token"@
    } else {
        r is Ok
    }
}

pub fn require_auth(hub: &ControlHub, provided: &str) -> (r: Result<(), ApiError>)
    ensures
        auth_spec(hub.enabled, hub.token@, provided@, r),
{
    if !hub.is_enabled() {
        return Err(ApiError { status: 503, message: text::own("Stream Deck control API is disabled") });
    }
    let expected = hub.token_snapshot();
    if expected.as_str().is_empty() {
        return Err(ApiError { status: 503, message: text::own("Stream Deck control token not configured") });
    }
    if !text::str_eq(provided, expected.as_str()) {
        return Err(ApiError { status: 401, message: text::own("Invalid or missing token") });
    }
    Ok(())
}

/// An error of the app answered with a status.
pub fn api_error(status: u16, message: String) -> (r: ApiError)
    ensures
        r.status == status && r.message == message,
{
    ApiError { status, message }
}

/// The chat message a request asks to send: its text trimmed, refused
/// when that is empty.
pub fn chat_message(body: &str) -> (r: Result<String, ApiError>)
    ensures
        text::trim_seq(body@).len() > 0 ==> (r matches Ok(m) && m@ == text::trim_seq(body@)),
        text::trim_seq(body@).len() == 0 ==> (r matches Err(e) && e.status == 400 && e.message@ == "Message is empty"@),
{
    let msg = text::trim(body);
    if msg.as_str().is_empty() {
        Err(ApiError { status: 400, message: text::own("Message is empty") })
    } else {
        Ok(msg)
    }
}

/// The answer when a chat message cannot be sent because the bot is not
/// connected.
pub fn not_connected() -> (r: ApiError)
    ensures
        r.status == 400 && r.message@ == "Bot is not connected."@,
{
    ApiError { status: 400, message: text::own("Bot is not connected.") }
}

/// The answer when a requested media clip does not exist.
pub fn media_not_found() -> (r: ApiError)
    ensures
        r.status == 404 && r.message@ == "Media clip not found"@,
{
    ApiError { status: 404, message: text::own("Media clip not found") }
}

// ---------------------------------------------------------------------------
// Answers
// ---------------------------------------------------------------------------

/// The status the plugin shows.
#[derive(Debug, Clone)]
pub struct StatusResponse {
    pub ok: bool,
    pub connected: bool,
    pub connecting: bool,
    pub channel: Option<String>,
    pub version: String,
    pub control_enabled: bool,
}

pub fn status_response(rt: &RuntimeStatus, control_enabled: bool) -> (r: StatusResponse)
    ensures
        r.ok,
        r.connected == rt.connected,
        r.connecting == rt.connecting,
        r.channel == rt.channel,
        r.version@ == "0.1.0"@,
        r.control_enabled == control_enabled,
{
    StatusResponse {
        ok: true,
        connected: rt.connected,
        connecting: rt.connecting,
        channel: rt.channel.clone(),
        version: updates::current_version(),
        control_enabled,
    }
}

/// A command or automation as the plugin lists it.
#[derive(Debug, Clone)]
pub struct IdNameEnabled {
    pub id: String,
    pub name: String,
    pub enabled: bool,
}

#[derive(Debug, Clone)]
pub struct AutomationItem {
    pub id: String,
    pub name: String,
    pub enabled: bool,
    pub trigger_type: String,
}

#[derive(Debug, Clone)]
pub struct GiveawayItem {
    pub id: String,
    pub title: String,
    pub enabled: bool,
    pub active: bool,
}

#[derive(Debug, Clone)]
pub struct MediaItem {
    pub id: String,
    pub name: String,
}

pub fn command_items(cmds: &Vec<ChatCommand>) -> (r: Vec<IdNameEnabled>)
    ensures
        r@.len() == cmds@.len(),
        forall|i: int| 0 <= i < cmds@.len() ==> (#[trigger] r@[i]).id == cmds@[i].id && r@[i].name == cmds@[i].name
            && r@[i].enabled == cmds@[i].enabled,
{
    let mut out: Vec<IdNameEnabled> = Vec::new();
    let mut i: usize = 0;
    while i < cmds.len()
        invariant
            i <= cmds.len(),
            out@.len() == i,
            forall|j: int| 0 <= j < i ==> (#[trigger] out@[j]).id == cmds@[j].id && out@[j].name == cmds@[j].name
                && out@[j].enabled == cmds@[j].enabled,
        decreases cmds.len() - i,
    {
        let c = &cmds[i];
        out.push(IdNameEnabled { id: c.id.clone(), name: c.name.clone(), enabled: c.enabled });
        i += 1;
    }
    out
}

pub fn automation_items(autos: &Vec<Automation>) -> (r: Vec<AutomationItem>)
    ensures
        r@.len() == autos@.len(),
        forall|i: int| 0 <= i < autos@.len() ==> (#[trigger] r@[i]).id == autos@[i].id && r@[i].name == autos@[i].name
            && r@[i].enabled == autos@[i].enabled && r@[i].trigger_type == autos@[i].trigger_type,
{
    let mut out: Vec<AutomationItem> = Vec::new();
    let mut i: usize = 0;
    while i < autos.len()
        invariant
            i <= autos.len(),
            out@.len() == i,
            forall|j: int| 0 <= j < i ==> (#[trigger] out@[j]).id == autos@[j].id && out@[j].name == autos@[j].name
                && out@[j].enabled == autos@[j].enabled && out@[j].trigger_type == autos@[j].trigger_type,
        decreases autos.len() - i,
    {
        let a = &autos[i];
        out.push(AutomationItem {
            id: a.id.clone(),
            name: a.name.clone(),
            enabled: a.enabled,
            trigger_type: a.trigger_type.clone(),
        });
        i += 1;
    }
    out
}

/// The giveaways, each marked active when it is the one with the open run.
pub fn giveaway_items(list: &Vec<Giveaway>, active_id: &Option<String>) -> (r: Vec<GiveawayItem>)
    ensures
        r@.len() == list@.len(),
        forall|i: int| 0 <= i < list@.len() ==> (#[trigger] r@[i]).id == list@[i].id && r@[i].title == list@[i].title
            && r@[i].enabled == list@[i].enabled
            && r@[i].active == (active_id matches Some(a) && a@ == list@[i].id@),
{
    let mut out: Vec<GiveawayItem> = Vec::new();
    let mut i: usize = 0;
    while i < list.len()
        invariant
            i <= list.len(),
            out@.len() == i,
            forall|j: int| 0 <= j < i ==> (#[trigger] out@[j]).id == list@[j].id && out@[j].title == list@[j].title
                && out@[j].enabled == list@[j].enabled
                && out@[j].active == (active_id matches Some(a) && a@ == list@[j].id@),
        decreases list.len() - i,
    {
        let g = &list[i];
        let active = match active_id {
            Some(a) => text::str_eq(a.as_str(), g.id.as_str()),
            None => false,
        };
        out.push(GiveawayItem { id: g.id.clone(), title: g.title.clone(), enabled: g.enabled, active });
        i += 1;
    }
    out
}

pub fn media_items(clips: &Vec<MediaClip>) -> (r: Vec<MediaItem>)
    ensures
        r@.len() == clips@.len(),
        forall|i: int| 0 <= i < clips@.len() ==> (#[trigger] r@[i]).id == clips@[i].id && r@[i].name == clips@[i].name,
{
    let mut out: Vec<MediaItem> = Vec::new();
    let mut i: usize = 0;
    while i < clips.len()
        invariant
            i <= clips.len(),
            out@.len() == i,
            forall|j: int| 0 <= j < i ==> (#[trigger] out@[j]).id == clips@[j].id && out@[j].name == clips@[j].name,
        decreases clips.len() - i,
    {
        out.push(MediaItem { id: clips[i].id.clone(), name: clips[i].name.clone() });
        i += 1;
    }
    out
}

// ---------------------------------------------------------------------------
// Activity log lines
// ---------------------------------------------------------------------------

/// The title logged when a giveaway is started: its title, else `Giveaway`
/// when it is not in the list.
pub fn started_giveaway_title(list: &Vec<Giveaway>, id: &str) -> (r: String)
    ensures
        (exists|i: int| 0 <= i < list@.len() && (#[trigger] list@[i]).id@ == id@) ==> (exists|i: int|
            0 <= i < list@.len() && list@[i].id@ == id@ && r == (#[trigger] list@[i]).title
                && forall|j: int| 0 <= j < i ==> (#[trigger] list@[j]).id@ != id@),
        !(exists|i: int| 0 <= i < list@.len() && (#[trigger] list@[i]).id@ == id@) ==> r@ == "Giveaway"@,
{
    let mut i: usize = 0;
    while i < list.len()
        invariant
            i <= list.len(),
            forall|j: int| 0 <= j < i ==> (#[trigger] list@[j]).id@ != id@,
        decreases list.len() - i,
    {
        if text::str_eq(list[i].id.as_str(), id) {
            return list[i].title.clone();
        }
        i += 1;
    }
    text::own("Giveaway")
}

/// The log line of a draw from the plugin: `Winner(s): @a, @b (Stream Deck)`.
pub fn draw_detail(winners: &Vec<GiveawayWinner>) -> (r: String)
    ensures
        r@ == "Winner(s): "@ + giveaway::mentions(winners@) + " (Stream Deck)"@,
{
    let names = giveaway::winner_mentions(winners);
    let a = text::concat("Winner(s): ", names.as_str());
    text::concat(a.as_str(), " (Stream Deck)")
}

/// The log line of a clip played from the plugin.
pub fn played_detail(media_type: &str) -> (r: String)
    ensures
        r@ == "Played "@ + media_type@ + " on overlay (Stream Deck)"@,
{
    let a = text::concat("Played ", media_type);
    text::concat(a.as_str(), " on overlay (Stream Deck)")
}

/// The log line of a chat message sent from the plugin.
pub fn chat_detail(msg: &str) -> (r: String)
    ensures
        r@ == msg@ + " (Stream Deck)"@,
{
    text::concat(msg, " (Stream Deck)")
}


// ---------------------------------------------------------------------------
// Laws
// ---------------------------------------------------------------------------

/// Law: only the holder of the configured token gets through. A request is
/// admitted exactly when the API is on, a token is configured, and the
/// request presents that token.
pub proof fn only_token_holder_admitted(enabled: bool, token: Seq<char>, provided: Seq<char>, r: Result<(), ApiError>)
    requires
        auth_spec(enabled, token, provided, r),
    ensures
        r is Ok <==> (enabled && token.len() > 0 && provided == token),
{
}

} // verus!
