//! Ad-break triggers: the decisions of the EventSub WebSocket session that
//! listens for `channel.ad_break.begin`, and of the ad-schedule poll that
//! backs it up.
use vstd::prelude::*;
use crate::clock;
use crate::json::{self, JsonNumber, JsonValue};
use crate::text;

verus! {

pub const EVENTSUB_WS: &'static str = "wss://eventsub.wss.twitch.tv/ws";

/// Duplicate ad starts within this many seconds are ignored (EventSub and
/// the schedule poll can both report one ad).
pub const AD_DEDUP_SECS: u64 = 90;

/// The keep-alive Twitch uses until a welcome says otherwise.
pub const DEFAULT_KEEPALIVE_SECS: u64 = 10;

/// The activity-log title of ad-trigger events.
pub const AD_TRIGGERS_TITLE: &'static str = "Ad triggers";

// ---------------------------------------------------------------------------
// Reading numbers and texts
// ---------------------------------------------------------------------------

/// A JSON value read as a count of seconds: a number as an unsigned
/// integer, else through its `f64` reading (saturating); a string whose
/// trimmed text is a decimal number.
pub open spec fn json_u64_spec(v: JsonValue) -> Option<u64> {
    match v {
        JsonValue::Number(n) => match n.as_u64 {
            Some(x) => Some(x),
            None => match n.as_i64 {
                Some(i) => if i >= 0 { Some(i as u64) } else { n.float_as_u64 },
                None => n.float_as_u64,
            },
        },
        JsonValue::Str(s) => match text::parse_unsigned_seq(text::trim_seq(s@), u64::MAX as nat) {
            Some(x) => Some(x as u64),
            None => None,
        },
        _ => None,
    }
}

pub fn json_u64(v: &JsonValue) -> (r: Option<u64>)
    ensures
        r == json_u64_spec(*v),
{
    match v {
        JsonValue::Number(n) => match n.as_u64 {
            Some(x) => Some(x),
            None => match n.as_i64 {
                Some(i) => if i >= 0 { Some(i as u64) } else { n.float_as_u64 },
                None => n.float_as_u64,
            },
        },
        JsonValue::Str(s) => {
            let t = text::trim(s.as_str());
            text::parse_unsigned(t.as_str(), u64::MAX)
        },
        _ => None,
    }
}

/// The non-empty text of the member `key`.
pub open spec fn nonempty_str(v: JsonValue, key: Seq<char>) -> Option<Seq<char>> {
    match json::get_str(v, key) {
        Some(s) => if s.len() > 0 { Some(s) } else { None },
        None => None,
    }
}

fn nonempty_member(v: &JsonValue, key: &str) -> (r: Option<String>)
    ensures
        match nonempty_str(*v, key@) {
            Some(s) => r matches Some(x) && x@ == s,
            None => r is None,
        },
{
    match json::get_member(v, key) {
        Some(m) => match json::as_str(m) {
            Some(s) => if s.is_empty() { None } else { Some(text::own(s)) },
            None => None,
        },
        None => None,
    }
}

/// The text of the member `key`, or the empty text.
pub open spec fn str_or_empty(v: Option<JsonValue>, key: Seq<char>) -> Seq<char> {
    match v {
        Some(x) => match json::get_str(x, key) {
            Some(s) => s,
            None => Seq::empty(),
        },
        None => Seq::empty(),
    }
}

fn member_text_or_empty(v: Option<&JsonValue>, key: &str) -> (r: String)
    ensures
        r@ == str_or_empty(match v { Some(x) => Some(*x), None => None }, key@),
{
    match v {
        Some(x) => match json::get_member(x, key) {
            Some(m) => match json::as_str(m) {
                Some(s) => text::own(s),
                None => String::new(),
            },
            None => String::new(),
        },
        None => String::new(),
    }
}

// ---------------------------------------------------------------------------
// The session loop
// ---------------------------------------------------------------------------

/// How long to wait before opening a new session after one failed: a
/// minute when the failure needs the streamer to act, else five seconds.
pub open spec fn retry_wait_spec(err: Seq<char>) -> u64 {
    if text::contains_seq(err, "channel:read:ads"@) || text::contains_seq(err, "Authorize"@)
        || text::contains_seq(err, "streamer"@) {
        60
    } else {
        5
    }
}

pub fn retry_wait_secs(err: &str) -> (r: u64)
    ensures
        r == retry_wait_spec(err@),
{
    if text::contains(err, "channel:read:ads") || text::contains(err, "Authorize") || text::contains(err, "streamer") {
        60
    } else {
        5
    }
}

/// A session is given up when nothing arrives for twice its keep-alive, and
/// never sooner than 20 seconds.
pub fn idle_limit_secs(keepalive_secs: u64) -> (r: u64)
    ensures
        r == (if keepalive_secs * 2 > u64::MAX {
            u64::MAX
        } else if keepalive_secs * 2 > 20 {
            (keepalive_secs * 2) as u64
        } else {
            20
        }),
{
    let d = if keepalive_secs > u64::MAX / 2 { u64::MAX } else { keepalive_secs * 2 };
    if d > 20 { d } else { 20 }
}

/// The session details of a welcome or reconnect message.
#[derive(Debug, Clone)]
pub struct SessionInfo {
    pub id: String,
    pub reconnect_url: Option<String>,
    pub keepalive_timeout_seconds: Option<u64>,
}

/// What a session knows: whether its ad subscription is in place, its
/// keep-alive, and whether it was opened on a reconnect URL (whose
/// subscriptions carry over).
#[derive(Debug, Clone)]
pub struct SessionState {
    pub subscribed: bool,
    pub keepalive_secs: u64,
    pub on_reconnect_url: bool,
}

pub fn new_session(url: &str) -> (r: SessionState)
    ensures
        !r.subscribed,
        r.keepalive_secs == DEFAULT_KEEPALIVE_SECS,
        r.on_reconnect_url == (url@ != EVENTSUB_WS@),
{
    SessionState {
        subscribed: false,
        keepalive_secs: DEFAULT_KEEPALIVE_SECS,
        on_reconnect_url: !text::str_eq(url, EVENTSUB_WS),
    }
}

/// The kinds of message the session reads.
#[derive(Debug, Clone, Copy, PartialEq, Eq, Structural)]
pub enum MessageKind {
    Welcome,
    Reconnect,
    Notification,
    Keepalive,
    Revocation,
    Other,
}

pub fn message_kind(message_type: &str) -> (r: MessageKind)
    ensures
        r == (if message_type@ == "session_welcome"@ {
            MessageKind::Welcome
        } else if message_type@ == "session_reconnect"@ {
            MessageKind::Reconnect
        } else if message_type@ == "notification"@ {
            MessageKind::Notification
        } else if message_type@ == "session_keepalive"@ {
            MessageKind::Keepalive
        } else if message_type@ == "revocation"@ {
            MessageKind::Revocation
        } else {
            MessageKind::Other
        }),
{
    if text::str_eq(message_type, "session_welcome") {
        MessageKind::Welcome
    } else if text::str_eq(message_type, "session_reconnect") {
        MessageKind::Reconnect
    } else if text::str_eq(message_type, "notification") {
        MessageKind::Notification
    } else if text::str_eq(message_type, "session_keepalive") {
        MessageKind::Keepalive
    } else if text::str_eq(message_type, "revocation") {
        MessageKind::Revocation
    } else {
        MessageKind::Other
    }
}

/// A welcome's keep-alive, when it gives a positive one.
pub open spec fn keepalive_after(current: u64, info: SessionInfo) -> u64 {
    match info.keepalive_timeout_seconds {
        Some(k) => if k > 0 { k } else { current },
        None => current,
    }
}

/// What to do after a welcome.
#[derive(Debug, Clone, Copy, PartialEq, Eq, Structural)]
pub enum WelcomeAction {
    /// The subscription is in place: listening.
    Armed,
    /// Create the ad-break subscription for this session now.
    Subscribe,
}

/// A welcome: its keep-alive is taken; a session that is subscribed, or
/// was opened on a reconnect URL, is listening; else it must subscribe.
pub fn on_welcome(s: &mut SessionState, info: &SessionInfo) -> (r: WelcomeAction)
    ensures
        final(s).keepalive_secs == keepalive_after(old(s).keepalive_secs, *info),
        final(s).on_reconnect_url == old(s).on_reconnect_url,
        (old(s).subscribed || old(s).on_reconnect_url) ==> r == WelcomeAction::Armed && final(s).subscribed,
        !(old(s).subscribed || old(s).on_reconnect_url) ==> r == WelcomeAction::Subscribe && !final(s).subscribed,
{
    match info.keepalive_timeout_seconds {
        Some(k) => {
            if k > 0 {
                s.keepalive_secs = k;
            }
        },
        None => {},
    }
    if s.subscribed || s.on_reconnect_url {
        s.subscribed = true;
        WelcomeAction::Armed
    } else {
        WelcomeAction::Subscribe
    }
}

/// The subscription was created, or a reconnect carried it over.
pub fn mark_subscribed(s: &mut SessionState)
    ensures
        *final(s) == (SessionState { subscribed: true, ..*old(s) }),
{
    s.subscribed = true;
}

/// A reconnect message: the URL to move to, when it gives one.
pub fn reconnect_target(info: &SessionInfo) -> (r: Option<String>)
    ensures
        match info.reconnect_url {
            Some(u) => if u@.len() > 0 { r == Some(u) } else { r is None },
            None => r is None,
        },
{
    match &info.reconnect_url {
        Some(u) => if u.as_str().is_empty() { None } else { Some(u.clone()) },
        None => None,
    }
}

/// The welcome on the new connection after a reconnect: its keep-alive
/// is taken.
pub fn on_reconnect_welcome(s: &mut SessionState, info: &SessionInfo)
    ensures
        *final(s) == (SessionState { keepalive_secs: keepalive_after(old(s).keepalive_secs, *info), ..*old(s) }),
{
    match info.keepalive_timeout_seconds {
        Some(k) => {
            if k > 0 {
                s.keepalive_secs = k;
            }
        },
        None => {},
    }
}

/// A notification is an ad break when its metadata or its payload's
/// subscription says `channel.ad_break.begin`.
pub open spec fn is_ad_break_spec(subscription_type: Option<String>, payload: JsonValue) -> bool {
    (subscription_type matches Some(t) && t@ == "channel.ad_break.begin"@)
        || match json::get(payload, "subscription"@) {
            Some(sub) => json::get_str(sub, "type"@) == Some("channel.ad_break.begin"@),
            None => false,
        }
}

pub fn is_ad_break_notification(subscription_type: &Option<String>, payload: &JsonValue) -> (r: bool)
    ensures
        r == is_ad_break_spec(*subscription_type, *payload),
{
    match subscription_type {
        Some(t) => {
            if text::str_eq(t.as_str(), "channel.ad_break.begin") {
                return true;
            }
        },
        None => {},
    }
    match json::get_member(payload, "subscription") {
        Some(sub) => match json::get_member(sub, "type") {
            Some(t) => match json::as_str(t) {
                Some(s) => text::str_eq(s, "channel.ad_break.begin"),
                None => false,
            },
            None => false,
        },
        None => false,
    }
}

/// The message logged and shown when Twitch revokes the subscription.
pub fn revoked_error() -> (r: String)
    ensures
        r@ == "Ad EventSub subscription was revoked. Reconnect the bot."@,
{
    text::own("Ad EventSub subscription was revoked. Reconnect the bot.")
}

// ---------------------------------------------------------------------------
// Ad breaks
// ---------------------------------------------------------------------------

/// The ad event of a notification's payload: its `event` member, or the
/// payload itself when it carries `duration_seconds`.
pub open spec fn ad_event_of(payload: JsonValue) -> Option<JsonValue> {
    match json::get(payload, "event"@) {
        Some(e) => Some(e),
        None => if json::get(payload, "duration_seconds"@) is Some { Some(payload) } else { None },
    }
}

/// An ad break's length in seconds: as given (at least 1), else 60.
pub open spec fn ad_duration(event: JsonValue) -> u64 {
    let d = match json::get(event, "duration_seconds"@) {
        Some(v) => match json_u64_spec(v) {
            Some(x) => x,
            None => 60,
        },
        None => 60,
    };
    if d > 1 { d } else { 1 }
}

/// Who the ad automations run for: the broadcaster's name, else login,
/// else the connected channel, else `channel`.
pub open spec fn ad_user(event: JsonValue, channel: Option<String>) -> Seq<char> {
    match nonempty_str(event, "broadcaster_user_name"@) {
        Some(n) => n,
        None => match nonempty_str(event, "broadcaster_user_login"@) {
            Some(l) => l,
            None => match channel {
                Some(c) => c@,
                None => "channel"@,
            },
        },
    }
}

/// An ad break to run automations for: who for, and how long.
#[derive(Debug, Clone)]
pub struct AdBreak {
    pub user: String,
    pub duration_secs: u64,
}

/// The ad break a notification's payload announces; `None` when it
/// carries no event.
pub fn ad_break_of(payload: &JsonValue, channel: &Option<String>) -> (r: Option<AdBreak>)
    ensures
        match ad_event_of(*payload) {
            Some(e) => r matches Some(b) && b.user@ == ad_user(e, *channel) && b.duration_secs == ad_duration(e),
            None => r is None,
        },
{
    let event = match json::get_member(payload, "event") {
        Some(e) => e,
        None => match json::get_member(payload, "duration_seconds") {
            Some(_) => payload,
            None => {
                return None;
            },
        },
    };
    let d = match json::get_member(event, "duration_seconds") {
        Some(v) => match json_u64(v) {
            Some(x) => x,
            None => 60,
        },
        None => 60,
    };
    let duration_secs = if d > 1 { d } else { 1 };
    let user = match nonempty_member(event, "broadcaster_user_name") {
        Some(n) => n,
        None => match nonempty_member(event, "broadcaster_user_login") {
            Some(l) => l,
            None => match channel {
                Some(c) => c.clone(),
                None => text::own("channel"),
            },
        },
    };
    Some(AdBreak { user, duration_secs })
}

/// The log line of an ad event without payload.
pub fn empty_ad_event_message() -> (r: String)
    ensures
        r@ == "Received an ad event with no payload — ignored."@,
{
    text::own("Received an ad event with no payload — ignored.")
}

/// An ad start counts unless another counted less than the dedup window
/// ago (`now` and `last` in Unix seconds; a clock that went back counts as
/// no time passed).
pub open spec fn ad_start_counts(now: u64, last: u64) -> bool {
    (if now >= last { now - last } else { 0 }) >= AD_DEDUP_SECS
}

/// Records an ad start at `now` when it counts; says whether it did.
pub fn register_ad_start(last_fire: &mut u64, now: u64) -> (r: bool)
    ensures
        r == ad_start_counts(now, *old(last_fire)),
        r ==> *final(last_fire) == now,
        !r ==> *final(last_fire) == *old(last_fire),
{
    if now.saturating_sub(*last_fire) < AD_DEDUP_SECS {
        return false;
    }
    *last_fire = now;
    true
}

/// The log line of an ad start.
pub fn ad_start_detail(duration: u64, source: &str) -> (r: String)
    ensures
        r@ == "Started ("@ + text::decimal(duration as nat) + "s via "@ + source@
            + ") — running ad_start automations"@,
{
    let a = text::concat("Started (", text::u64_text(duration).as_str());
    let b = text::concat(a.as_str(), "s via ");
    let c = text::concat(b.as_str(), source);
    text::concat(c.as_str(), ") — running ad_start automations")
}

/// Each ad start opens a new generation; the end of an ad runs only when no
/// later ad started (or the listener stopped) meanwhile.
pub fn next_generation(generation: &mut u64) -> (r: u64)
    ensures
        *final(generation) == (if *old(generation) < u64::MAX { (*old(generation) + 1) as u64 } else { 0 }),
        r == *final(generation),
{
    *generation = generation.wrapping_add(1);
    *generation
}

pub fn ad_end_runs(current: u64, started: u64) -> (r: bool)
    ensures
        r == (current == started),
{
    current == started
}

// ---------------------------------------------------------------------------
// Subscribing
// ---------------------------------------------------------------------------

/// Why creating the subscription failed: a conflict with an existing one
/// (its id, empty when unknown), or another error.
#[derive(Debug, Clone)]
pub enum CreateSubError {
    Conflict(String),
    Other(String),
}

impl CreateSubError {
    /// How the error reads in messages.
    pub fn message(&self) -> (r: String)
        ensures
            r@ == match self {
                CreateSubError::Conflict(id) => "conflict id="@ + id@,
                CreateSubError::Other(s) => s@,
            },
    {
        match self {
            CreateSubError::Conflict(id) => text::concat("conflict id=", id.as_str()),
            CreateSubError::Other(s) => text::own(s.as_str()),
        }
    }
}

/// The first item of a JSON array (or the member `0` of an object).
pub open spec fn first_item(v: JsonValue) -> Option<JsonValue> {
    match v {
        JsonValue::Array(items) => if items@.len() > 0 { Some(items@[0]) } else { None },
        JsonValue::Object(o) => json::member(o@, "0"@),
        _ => None,
    }
}

/// The id of the existing subscription in a conflict answer: its `id`, else
/// `data[0].id`, else empty.
pub open spec fn conflict_id_spec(body: Option<JsonValue>) -> Seq<char> {
    match body {
        None => Seq::empty(),
        Some(v) => match json::get_str(v, "id"@) {
            Some(id) => id,
            None => match json::get(v, "data"@) {
                Some(d) => match first_item(d) {
                    Some(row) => match json::get_str(row, "id"@) {
                        Some(id) => id,
                        None => Seq::empty(),
                    },
                    None => Seq::empty(),
                },
                None => Seq::empty(),
            },
        },
    }
}

fn first_item_of(v: &JsonValue) -> (r: Option<&JsonValue>)
    ensures
        match r {
            Some(x) => first_item(*v) == Some(*x),
            None => first_item(*v) is None,
        },
{
    match v {
        JsonValue::Array(items) => if items.len() > 0 { Some(&items[0]) } else { None },
        JsonValue::Object(_) => json::get_member(v, "0"),
        _ => None,
    }
}

fn str_member(v: &JsonValue, key: &str) -> (r: Option<String>)
    ensures
        match json::get_str(*v, key@) {
            Some(s) => r matches Some(x) && x@ == s,
            None => r is None,
        },
{
    match json::get_member(v, key) {
        Some(m) => match json::as_str(m) {
            Some(s) => Some(text::own(s)),
            None => None,
        },
        None => None,
    }
}

/// The answer to a subscription request: created on success; a conflict
/// on `409` (with the id read from the body, when it is JSON); else the
/// status line and body.
pub fn create_outcome(success: bool, status: u16, status_line: &str, body_text: &str, body: &Option<JsonValue>) -> (r: Result<(), CreateSubError>)
    ensures
        success ==> r is Ok,
        !success && status == 409 ==> (r matches Err(CreateSubError::Conflict(id))
            && id@ == conflict_id_spec(*body)),
        !success && status != 409 ==> (r matches Err(CreateSubError::Other(m))
            && m@ == status_line@ + ": "@ + body_text@),
{
    if success {
        return Ok(());
    }
    if status == 409 {
        let id = match body {
            None => String::new(),
            Some(v) => match str_member(v, "id") {
                Some(id) => id,
                None => match json::get_member(v, "data") {
                    Some(d) => match first_item_of(d) {
                        Some(row) => match str_member(row, "id") {
                            Some(id) => id,
                            None => String::new(),
                        },
                        None => String::new(),
                    },
                    None => String::new(),
                },
            },
        };
        return Err(CreateSubError::Conflict(id));
    }
    let a = text::concat(status_line, ": ");
    Err(CreateSubError::Other(text::concat(a.as_str(), body_text)))
}

/// The message when the subscription could not be created, with a hint
/// when the error is about authorisation.
pub open spec fn subscribe_error_spec(msg: Seq<char>) -> Seq<char> {
    let hint = if text::contains_seq(msg, "authorization"@) || text::contains_seq(msg, "403"@) {
        " Needs channel:read:ads from the broadcaster account — reconnect Twitch (or Authorize streamer for ads) in Settings."@
    } else {
        Seq::empty()
    };
    "Could not subscribe to ad breaks."@ + hint + " ("@ + msg + ")"@
}

pub fn subscribe_error(msg: &str) -> (r: String)
    ensures
        r@ == subscribe_error_spec(msg@),
{
    proof { reveal_strlit(""); }
    assert(""@ =~= Seq::<char>::empty());
    let hint = if text::contains(msg, "authorization") || text::contains(msg, "403") {
        " Needs channel:read:ads from the broadcaster account — reconnect Twitch (or Authorize streamer for ads) in Settings."
    } else {
        ""
    };
    let a = text::concat("Could not subscribe to ad breaks.", hint);
    let b = text::concat(a.as_str(), " (");
    let c = text::concat(b.as_str(), msg);
    text::concat(c.as_str(), ")")
}

/// The message when the subscription failed again after a conflict was
/// cleared.
pub fn conflict_retry_error(e: &CreateSubError) -> (r: String)
    ensures
        r@ == "Could not subscribe to ad breaks after clearing conflict: "@ + match e {
            CreateSubError::Conflict(id) => "conflict id="@ + id@,
            CreateSubError::Other(s) => s@,
        },
{
    text::concat("Could not subscribe to ad breaks after clearing conflict: ", e.message().as_str())
}

/// The log line once ad breaks are listened for.
pub fn listening_message() -> (r: String)
    ensures
        r@ == "Listening for midroll ad breaks (EventSub + schedule backup)."@,
{
    text::own("Listening for midroll ad breaks (EventSub + schedule backup).")
}

/// The subscriptions to delete before subscribing again: those for this
/// broadcaster that belong to another session and have an id.
pub open spec fn is_stale(sub: JsonValue, broadcaster_id: Seq<char>, session: Seq<char>) -> bool {
    &&& str_or_empty(json::get(sub, "condition"@), "broadcaster_user_id"@) == broadcaster_id
    &&& str_or_empty(json::get(sub, "transport"@), "session_id"@) != session
    &&& json::get_str(sub, "id"@) is Some
}

pub open spec fn stale_ids_spec(subs: Seq<JsonValue>, broadcaster_id: Seq<char>, session: Seq<char>) -> Seq<Seq<char>>
    decreases subs.len(),
{
    if subs.len() == 0 {
        Seq::empty()
    } else {
        let r = stale_ids_spec(subs.drop_last(), broadcaster_id, session);
        let sub = subs.last();
        if is_stale(sub, broadcaster_id, session) {
            r.push(json::get_str(sub, "id"@)->0)
        } else {
            r
        }
    }
}

pub fn stale_subscription_ids(subs: &Vec<JsonValue>, broadcaster_id: &str, session: &str) -> (r: Vec<String>)
    ensures
        text::views_of_strings(r@) == stale_ids_spec(subs@, broadcaster_id@, session@),
{
    let mut out: Vec<String> = Vec::new();
    let mut i: usize = 0;
    assert(subs@.take(0) =~= Seq::<JsonValue>::empty());
    assert(text::views_of_strings(out@) =~= Seq::<Seq<char>>::empty());
    while i < subs.len()
        invariant
            i <= subs.len(),
            text::views_of_strings(out@) == stale_ids_spec(subs@.take(i as int), broadcaster_id@, session@),
        decreases subs.len() - i,
    {
        assert(subs@.take(i + 1).drop_last() =~= subs@.take(i as int));
        let sub = &subs[i];
        let cond = member_text_or_empty(json::get_member(sub, "condition"), "broadcaster_user_id");
        let sess = member_text_or_empty(json::get_member(sub, "transport"), "session_id");
        if text::str_eq(cond.as_str(), broadcaster_id) && !text::str_eq(sess.as_str(), session) {
            match str_member(sub, "id") {
                Some(id) => {
                    let ghost before = out@;
                    out.push(id);
                    assert(text::views_of_strings(out@) =~= text::views_of_strings(before).push(out@.last()@));
                },
                None => {},
            }
        }
        i += 1;
    }
    assert(subs@.take(subs.len() as int) =~= subs@);
    out
}

// ---------------------------------------------------------------------------
// Who may listen for ads
// ---------------------------------------------------------------------------

/// What Twitch says of a token: whose it is and what it may do.
#[derive(Debug, Clone)]
pub struct TokenInfo {
    pub login: String,
    pub user_id: String,
    pub scopes: Vec<String>,
}

pub open spec fn has_scope(scopes: Seq<String>, scope: Seq<char>) -> bool {
    exists|i: int| 0 <= i < scopes.len() && (#[trigger] scopes[i])@ == scope
}

fn has_ads_scope(scopes: &Vec<String>) -> (r: bool)
    ensures
        r == has_scope(scopes@, "channel:read:ads"@),
{
    let mut i: usize = 0;
    while i < scopes.len()
        invariant
            i <= scopes.len(),
            forall|j: int| 0 <= j < i ==> (#[trigger] scopes@[j])@ != "channel:read:ads"@,
        decreases scopes.len() - i,
    {
        if text::str_eq(scopes[i].as_str(), "channel:read:ads") {
            return true;
        }
        i += 1;
    }
    false
}

/// What is wrong with a dedicated streamer token for ads, if anything: it
/// must be the channel's own (ASCII case aside) and hold the ads scope.
pub open spec fn ads_token_problem(info: TokenInfo, channel: Seq<char>) -> Option<Seq<char>> {
    let same = text::eq_ignore_ascii_case_seq(info.login@, text::lower(channel));
    if !same {
        Some("Ads authorization is for “"@ + info.login@ + "”, but the channel is “"@ + channel
            + "”. Authorize while logged in as the streamer."@)
    } else if !has_scope(info.scopes@, "channel:read:ads"@) {
        Some("Streamer ads login is missing channel:read:ads. Authorize the streamer again in Settings."@)
    } else {
        None
    }
}

/// A dedicated streamer token for ads: usable (`Ok`) when it is the
/// channel's own with the ads scope; an error when it is the channel's
/// without the scope, or another account's (see `ads_token_problem`).
pub fn check_ads_token(info: &TokenInfo, channel: &str) -> (r: Result<(), String>)
    ensures
        match ads_token_problem(*info, channel@) {
            None => r is Ok,
            Some(e) => r matches Err(x) && x@ == e,
        },
{
    let lc = text::to_lower(channel);
    if text::eq_ignore_ascii_case(info.login.as_str(), lc.as_str()) {
        if !has_ads_scope(&info.scopes) {
            return Err(text::own(
                "Streamer ads login is missing channel:read:ads. Authorize the streamer again in Settings.",
            ));
        }
        return Ok(());
    }
    let a = text::concat("Ads authorization is for “", info.login.as_str());
    let b = text::concat(a.as_str(), "”, but the channel is “");
    let c = text::concat(b.as_str(), channel);
    Err(text::concat(c.as_str(), "”. Authorize while logged in as the streamer."))
}

/// The token the ad triggers use, as far as the streamer's ads token decides.
#[derive(Debug, Clone)]
pub enum AdsCredentials {
    /// Use this token, of this user id.
    Ready(String, String),
    /// The ads token is there but unusable, for this reason.
    Refused(String),
    /// No ads token could be read: try the bot's own token.
    TryMain,
}

/// The streamer's ads token (with what Twitch says of it), when it could be
/// loaded and read, decides: it is used when `check_ads_token` admits it,
/// else its problem is the answer. The bot's own token is tried only
/// without it.
pub fn ads_credentials(ads: Option<(String, TokenInfo)>, channel: &str) -> (r: AdsCredentials)
    ensures
        match ads {
            None => r is TryMain,
            Some((t, info)) => match ads_token_problem(info, channel@) {
                None => r matches AdsCredentials::Ready(tok, uid) && tok == t && uid == info.user_id,
                Some(e) => r matches AdsCredentials::Refused(x) && x@ == e,
            },
        },
{
    match ads {
        None => AdsCredentials::TryMain,
        Some((token, info)) => match check_ads_token(&info, channel) {
            Ok(()) => AdsCredentials::Ready(token, info.user_id),
            Err(e) => AdsCredentials::Refused(e),
        },
    }
}

/// The bot's own token used for ads: it must be the channel's, with the
/// ads scope.
pub fn check_main_token(info: &TokenInfo, channel: &str) -> (r: Result<(), String>)
    ensures
        ({
            let same = text::eq_ignore_ascii_case_seq(info.login@, text::lower(channel@));
            &&& !same ==> (r matches Err(e) && e@ == "Ad triggers need the streamer’s Twitch login. Chat is connected as “"@
                + info.login@ + "”. In Settings, use “Authorize streamer for ads” while logged into Twitch as "@ + channel@
                + "."@)
            &&& (same && !has_scope(info.scopes@, "channel:read:ads"@)) ==> (r matches Err(e)
                && e@ == "Missing channel:read:ads. Reconnect Twitch in Settings so the ads permission is granted."@)
            &&& (same && has_scope(info.scopes@, "channel:read:ads"@)) ==> r is Ok
        }),
{
    let lc = text::to_lower(channel);
    if !text::eq_ignore_ascii_case(info.login.as_str(), lc.as_str()) {
        let a = text::concat("Ad triggers need the streamer’s Twitch login. Chat is connected as “", info.login.as_str());
        let b = text::concat(a.as_str(), "”. In Settings, use “Authorize streamer for ads” while logged into Twitch as ");
        let c = text::concat(b.as_str(), channel);
        return Err(text::concat(c.as_str(), "."));
    }
    if !has_ads_scope(&info.scopes) {
        return Err(text::own("Missing channel:read:ads. Reconnect Twitch in Settings so the ads permission is granted."));
    }
    Ok(())
}

// ---------------------------------------------------------------------------
// The ad-schedule poll
// ---------------------------------------------------------------------------

/// The last ad of the schedule answer: its key (`last_ad_at` as text) and
/// length; `None` when no ad ran yet; an error when the answer has no row
/// or no `last_ad_at`.
pub open spec fn last_ad_spec(body: JsonValue) -> Result<Option<(Seq<char>, u64)>, Seq<char>> {
    let row = match json::get(body, "data"@) {
        Some(JsonValue::Array(items)) => if items@.len() > 0 { Some(items@[0]) } else { None },
        _ => None,
    };
    match row {
        None => Err("empty ads schedule"@),
        Some(row) => match json::get(row, "last_ad_at"@) {
            None => Err("no last_ad_at"@),
            Some(last) => {
                let key = match last {
                    JsonValue::Str(s) => if s@.len() > 0 { Some(s@) } else { None },
                    JsonValue::Number(n) => Some(n.text@),
                    _ => None,
                };
                match key {
                    None => Ok(None),
                    Some(k) => if k == "0"@ {
                        Ok(None)
                    } else {
                        Ok(Some((k, ad_duration_of_row(row))))
                    },
                }
            },
        },
    }
}

/// The length of a scheduled ad: `duration` (at least 1), else 60.
pub open spec fn ad_duration_of_row(row: JsonValue) -> u64 {
    let d = match json::get(row, "duration"@) {
        Some(v) => match json_u64_spec(v) {
            Some(x) => x,
            None => 60,
        },
        None => 60,
    };
    if d > 1 { d } else { 1 }
}

pub fn last_ad_of(body: &JsonValue) -> (r: Result<Option<(String, u64)>, String>)
    ensures
        match last_ad_spec(*body) {
            Err(e) => r matches Err(x) && x@ == e,
            Ok(None) => r matches Ok(None),
            Ok(Some((k, d))) => r matches Ok(Some((x, y))) && x@ == k && y == d,
        },
{
    let row = match json::get_member(body, "data") {
        Some(JsonValue::Array(items)) => if items.len() > 0 { Some(&items[0]) } else { None },
        _ => None,
    };
    let row = match row {
        Some(r) => r,
        None => {
            return Err(text::own("empty ads schedule"));
        },
    };
    let last = match json::get_member(row, "last_ad_at") {
        Some(l) => l,
        None => {
            return Err(text::own("no last_ad_at"));
        },
    };
    let key = match last {
        JsonValue::Str(s) => if s.as_str().is_empty() { None } else { Some(text::own(s.as_str())) },
        JsonValue::Number(n) => Some(text::own(n.text.as_str())),
        _ => None,
    };
    let key = match key {
        Some(k) => k,
        None => {
            return Ok(None);
        },
    };
    if text::str_eq(key.as_str(), "0") {
        return Ok(None);
    }
    let d = match json::get_member(row, "duration") {
        Some(v) => match json_u64(v) {
            Some(x) => x,
            None => 60,
        },
        None => 60,
    };
    Ok(Some((key, if d > 1 { d } else { 1 })))
}

/// What the poll remembers: the last ad it saw, and whether it has seen the
/// schedule once.
#[derive(Debug, Clone)]
pub struct PollerState {
    pub seen_last: Option<String>,
    pub primed: bool,
}

pub fn new_poller() -> (r: PollerState)
    ensures
        r.seen_last is None && !r.primed,
{
    PollerState { seen_last: None, primed: false }
}

/// When the ad recorded as `k` ran: an RFC 3339 time, or a whole number of
/// seconds since the epoch (the schedule may give `last_ad_at` as a number).
pub open spec fn ad_time(k: Seq<char>) -> Option<(int, int)> {
    match clock::rfc3339_instant(k) {
        Some(t) => Some((t.0 as int, t.1 as int)),
        None => match text::parse_unsigned_seq(k, i64::MAX as nat) {
            Some(n) => Some((n as int, 0int)),
            None => None,
        },
    }
}

/// The ad `k` ran later than the ad recorded as `p`.
pub open spec fn ad_advances(p: Seq<char>, k: Seq<char>) -> bool {
    match (ad_time(p), ad_time(k)) {
        (Some(a), Some(b)) => !clock::instant_le(b, a),
        _ => false,
    }
}

/// Reads when the ad recorded as `k` ran (see `ad_time`).
fn ad_time_of(k: &str) -> (r: Option<clock::Instant>)
    ensures
        match ad_time(k@) {
            Some(t) => r matches Some(x) && x.0 == t.0 && x.1 == t.1,
            None => r is None,
        },
{
    match clock::parse_rfc3339(k) {
        Some(t) => Some(t),
        None => match text::parse_unsigned(k, 9223372036854775807u64) {
            Some(n) => Some((n as i64, 0u32)),
            None => None,
        },
    }
}

/// One read of the schedule: the poller's state after it, and the length
/// of the ad it starts, if any (see `poll_observed`).
pub open spec fn poll_spec(s: PollerState, seen: Result<Option<(String, u64)>, String>, eventsub_armed: bool) -> (PollerState, Option<u64>) {
    match seen {
        Err(_) => (s, None),
        Ok(None) => (PollerState { primed: true, ..s }, None),
        Ok(Some((k, d))) => if !s.primed {
            (PollerState { seen_last: Some(k), primed: true }, None)
        } else {
            let fire = match s.seen_last {
                None => true,
                Some(p) => ad_advances(p@, k@),
            };
            let record = match s.seen_last {
                None => true,
                Some(p) => ad_time(p@) is None || ad_advances(p@, k@),
            };
            (
                if record { PollerState { seen_last: Some(k), ..s } } else { s },
                if fire && !eventsub_armed { Some(if d > 1 { d } else { 1u64 }) } else { None },
            )
        },
    }
}

/// One read of the schedule (`Ok(None)`: no ad yet; `Err`: it could not
/// be read). The first read only records what it sees. After that, an ad
/// that ran later than the recorded one (or any ad, when none was recorded)
/// is recorded and, when EventSub is not listening, starts an ad of the
/// given length (`Some`); an earlier or unreadable one changes nothing. A
/// recorded value that is not a time is replaced by the next one, which
/// starts nothing.
pub fn poll_observed(s: &mut PollerState, seen: Result<Option<(String, u64)>, String>, eventsub_armed: bool) -> (r: Option<u64>)
    ensures
        (*final(s), r) == poll_spec(*old(s), seen, eventsub_armed),
{
    match seen {
        Err(_) => None,
        Ok(None) => {
            s.primed = true;
            None
        },
        Ok(Some((k, d))) => {
            if !s.primed {
                s.seen_last = Some(k);
                s.primed = true;
                return None;
            }
            let (record, fire) = match &s.seen_last {
                None => (true, true),
                Some(prev) => match ad_time_of(prev.as_str()) {
                    None => (true, false),
                    Some(tp) => match ad_time_of(k.as_str()) {
                        Some(tk) => if clock::not_later(tk, tp) { (false, false) } else { (true, true) },
                        None => (false, false),
                    },
                },
            };
            if record {
                s.seen_last = Some(k);
            }
            if fire && !eventsub_armed { Some(if d > 1 { d } else { 1 }) } else { None }
        },
    }
}

/// The account an ad from the schedule runs automations for: the connected
/// channel, else the configured one.
pub fn poll_user(connected_channel: Option<String>, channel: &str) -> (r: String)
    ensures
        r@ == match connected_channel {
            Some(c) => c@,
            None => channel@,
        },
{
    match connected_channel {
        Some(c) => c,
        None => text::own(channel),
    }
}


// ---------------------------------------------------------------------------
// Laws
// ---------------------------------------------------------------------------

/// Law: counted ad starts are at least the dedup window apart. Once a start
/// at `t1` counted (the last start is then `t1`), a report at any `t2`
/// within the window after it does not count.
pub proof fn ad_starts_are_spaced(t1: u64, t2: u64)
    requires
        t1 <= t2 < t1 + AD_DEDUP_SECS,
    ensures
        !ad_start_counts(t2, t1),
{
}

/// The poller's state after the first `n` reads of the schedule, starting
/// fresh; `armed[j]` says whether EventSub was listening at read `j`.
pub open spec fn polls_state(seens: Seq<Result<Option<(String, u64)>, String>>, armed: Seq<bool>, n: nat) -> PollerState
    decreases n,
{
    if n == 0 {
        PollerState { seen_last: None, primed: false }
    } else {
        poll_spec(polls_state(seens, armed, (n - 1) as nat), seens[n - 1], armed[n - 1]).0
    }
}

/// The length of the ad that read `i` starts, if it starts one.
pub open spec fn poll_fire(seens: Seq<Result<Option<(String, u64)>, String>>, armed: Seq<bool>, i: nat) -> Option<u64> {
    poll_spec(polls_state(seens, armed, i), seens[i as int], armed[i as int]).1
}

proof fn lemma_primed_after(seens: Seq<Result<Option<(String, u64)>, String>>, armed: Seq<bool>, n: nat)
    ensures
        polls_state(seens, armed, n).primed <==> exists|j: int| 0 <= j < n && (#[trigger] seens[j]) is Ok,
    decreases n,
{
    if n > 0 {
        lemma_primed_after(seens, armed, (n - 1) as nat);
        if seens[n - 1] is Ok {
            assert(0 <= n - 1 < n && seens[n - 1] is Ok);
        } else {
            assert forall|j: int| 0 <= j < n && (#[trigger] seens[j]) is Ok implies j < n - 1 by {}
        }
    }
}

/// Law: over successive reads of the ad schedule, the poller starts an ad
/// exactly on a read that follows an earlier successful read (so the first
/// value it ever sees starts none), reports an ad that ran later than the
/// recorded one (or any ad when none is recorded), and finds EventSub not
/// listening; the ad then lasts the reported length, at least one second.
pub proof fn schedule_poll_fires_only_on_later_ads(
    seens: Seq<Result<Option<(String, u64)>, String>>,
    armed: Seq<bool>,
    i: nat,
)
    requires
        i < seens.len(),
        armed.len() == seens.len(),
    ensures
        (forall|j: int| 0 <= j < i ==> !((#[trigger] seens[j]) is Ok)) ==> poll_fire(seens, armed, i) is None,
        poll_fire(seens, armed, i) is Some <==> {
            &&& exists|j: int| 0 <= j < i && (#[trigger] seens[j]) is Ok
            &&& seens[i as int] matches Ok(Some((k, d)))
            &&& !armed[i as int]
            &&& polls_state(seens, armed, i).seen_last matches Some(p) ==> ad_advances(p@, k@)
        },
        seens[i as int] matches Ok(Some((k, d))) ==> (poll_fire(seens, armed, i) is Some
            ==> poll_fire(seens, armed, i) == Some(if d > 1 { d } else { 1u64 })),
{
    lemma_primed_after(seens, armed, i);
}

} // verus!
