//! Importing a StreamElements export: commands, timers, variables and chat
//! alerts.
use vstd::prelude::*;
use crate::db;
use crate::ids;
use crate::json::{self, JsonValue};
use crate::models::{
    Automation, ChatCommand, ChatTimer, CustomVariable, ImportResult, SeAutomationPreview, SeCommandPreview,
    SeImportPreview, SeTimerPreview, SeVariablePreview,
};
use crate::text;

verus! {

// ---------------------------------------------------------------------------
// Export records
// ---------------------------------------------------------------------------

#[derive(Debug, Clone, Copy)]
pub struct SeCooldown {
    pub user: i64,
    pub global: i64,
}

/// A custom command of the export.
#[derive(Debug, Clone)]
pub struct SeCommand {
    pub id: String,
    pub command: String,
    pub reply: String,
    pub enabled: bool,
    pub cooldown: SeCooldown,
    pub access_level: i64,
}

#[derive(Debug, Clone, Copy)]
pub struct SeTimerSchedule {
    pub enabled: bool,
    pub interval: i64,
}

/// A timer of the export, in either of its two shapes (flat `message` and
/// `interval`, or `messages` with `online`/`offline` schedules).
#[derive(Debug, Clone)]
pub struct SeTimer {
    pub id: String,
    pub name: String,
    pub message: String,
    pub interval: i64,
    pub messages: Vec<String>,
    pub online: SeTimerSchedule,
    pub offline: SeTimerSchedule,
    pub chat_lines: i64,
    pub enabled: bool,
}

/// A variable of the export.
#[derive(Debug, Clone)]
pub struct SeVariable {
    pub id: String,
    pub name: String,
    pub value: String,
}

/// Default `enabled` of export records that omit it.
pub fn default_true() -> (r: bool)
    ensures
        r,
{
    true
}

/// Default access level of export commands that omit it.
pub fn default_access() -> (r: i64)
    ensures
        r == 100,
{
    100
}

// ---------------------------------------------------------------------------
// Keys and messages
// ---------------------------------------------------------------------------

/// The key that selects a command for import: its export id, else its name.
pub open spec fn cmd_key_spec(c: SeCommand) -> Seq<char> {
    if c.id@.len() == 0 { c.command@ } else { c.id@ }
}

pub fn cmd_key(c: &SeCommand) -> (r: String)
    ensures
        r@ == cmd_key_spec(*c),
{
    if c.id.as_str().is_empty() { c.command.clone() } else { c.id.clone() }
}

/// The key that selects a variable for import: its export id, else its name.
pub open spec fn var_key_spec(v: SeVariable) -> Seq<char> {
    if v.id@.len() == 0 { v.name@ } else { v.id@ }
}

pub fn var_key(v: &SeVariable) -> (r: String)
    ensures
        r@ == var_key_spec(*v),
{
    if v.id.as_str().is_empty() { v.name.clone() } else { v.id.clone() }
}

/// StreamElements placeholders for the user rewritten as `${user}`.
pub open spec fn se_message_spec(m: Seq<char>) -> Seq<char> {
    let u = "${user}"@;
    text::replace_seq(
        text::replace_seq(
            text::replace_seq(text::replace_seq(text::replace_seq(m, "{user}"@, u), "{name}"@, u), "{username}"@, u),
            "$(user)"@,
            u,
        ),
        "$(name)"@,
        u,
    )
}

/// Rewrites `{user}`, `{name}`, `{username}`, `$(user)` and `$(name)` as `${user}`.
pub fn normalize_se_message(msg: &str) -> (r: String)
    ensures
        r@ == se_message_spec(msg@),
{
    let a = text::replace(msg, "{user}", "${user}");
    let b = text::replace(a.as_str(), "{name}", "${user}");
    let c = text::replace(b.as_str(), "{username}", "${user}");
    let d = text::replace(c.as_str(), "$(user)", "${user}");
    text::replace(d.as_str(), "$(name)", "${user}")
}

/// A timer's interval in minutes: the flat interval, else the online one,
/// else the offline one, else 10.
pub open spec fn se_interval_spec(t: SeTimer) -> i64 {
    if t.interval > 0 {
        t.interval
    } else if t.online.interval > 0 {
        t.online.interval
    } else if t.offline.interval > 0 {
        t.offline.interval
    } else {
        10
    }
}

pub fn se_timer_interval_mins(t: &SeTimer) -> (r: i64)
    ensures
        r == se_interval_spec(*t),
{
    if t.interval > 0 {
        return t.interval;
    }
    if t.online.interval > 0 {
        return t.online.interval;
    }
    if t.offline.interval > 0 {
        return t.offline.interval;
    }
    10
}

/// The timer runs only while live: scheduled online, not offline.
pub fn se_timer_live_only(t: &SeTimer) -> (r: bool)
    ensures
        r == (t.online.enabled && !t.offline.enabled),
{
    t.online.enabled && !t.offline.enabled
}

/// The key that selects a timer for import: its export id, else
/// `{name}:{interval}`.
pub open spec fn timer_key_spec(t: SeTimer) -> Seq<char> {
    if t.id@.len() == 0 {
        t.name@ + seq![':'] + text::signed_decimal(se_interval_spec(t) as int)
    } else {
        t.id@
    }
}

pub fn timer_key(t: &SeTimer) -> (r: String)
    ensures
        r@ == timer_key_spec(*t),
{
    if t.id.as_str().is_empty() {
        let a = text::concat(t.name.as_str(), ":");
        let n = text::i64_text(se_timer_interval_mins(t));
        proof { reveal_strlit(":"); }
        let r = text::concat(a.as_str(), n.as_str());
        assert(r@ =~= t.name@ + seq![':'] + text::signed_decimal(se_interval_spec(*t) as int));
        r
    } else {
        t.id.clone()
    }
}

/// The non-blank messages of a list, trimmed and normalised, in order.
pub open spec fn message_parts(ms: Seq<String>) -> Seq<Seq<char>>
    decreases ms.len(),
{
    if ms.len() == 0 {
        Seq::empty()
    } else {
        let r = message_parts(ms.drop_last());
        let t = text::trim_seq(ms.last()@);
        if t.len() == 0 { r } else { r.push(se_message_spec(t)) }
    }
}

/// Texts joined with ` | `.
pub open spec fn join_bar(parts: Seq<Seq<char>>) -> Seq<char>
    decreases parts.len(),
{
    if parts.len() == 0 {
        Seq::empty()
    } else if parts.len() == 1 {
        parts[0]
    } else {
        join_bar(parts.drop_last()) + seq![' ', '|', ' '] + parts.last()
    }
}

/// A timer's message: the flat message when not blank, else its messages
/// joined with ` | ` (trimmed and normalised).
pub open spec fn se_timer_message_spec(t: SeTimer) -> Seq<char> {
    let flat = text::trim_seq(t.message@);
    if flat.len() > 0 {
        se_message_spec(flat)
    } else {
        join_bar(message_parts(t.messages@))
    }
}

pub fn se_timer_message(t: &SeTimer) -> (r: String)
    ensures
        r@ == se_timer_message_spec(*t),
{
    let flat = text::trim(t.message.as_str());
    if !flat.as_str().is_empty() {
        return normalize_se_message(flat.as_str());
    }
    let mut out = String::new();
    let ghost mut parts: Seq<Seq<char>> = Seq::empty();
    let mut i: usize = 0;
    let mut count: usize = 0;
    proof { reveal_strlit(" | "); }
    assert(t.messages@.take(0) =~= Seq::<String>::empty());
    while i < t.messages.len()
        invariant
            i <= t.messages.len(),
            parts == message_parts(t.messages@.take(i as int)),
            out@ == join_bar(parts),
            count == parts.len(),
            count <= i,
            " | "@ == seq![' ', '|', ' '],
        decreases t.messages.len() - i,
    {
        assert(t.messages@.take(i + 1).drop_last() =~= t.messages@.take(i as int));
        let m = text::trim(t.messages[i].as_str());
        if !m.as_str().is_empty() {
            let n = normalize_se_message(m.as_str());
            if count == 0 {
                out = n;
                assert(parts.push(out@).len() == 1);
            } else {
                let a = text::concat(out.as_str(), " | ");
                out = text::concat(a.as_str(), n.as_str());
                assert(parts.push(n@).drop_last() =~= parts);
            }
            proof { parts = parts.push(n@); }
            count += 1;
        }
        i += 1;
    }
    assert(t.messages@.take(t.messages.len() as int) =~= t.messages@);
    out
}

// ---------------------------------------------------------------------------
// Chat alerts
// ---------------------------------------------------------------------------

/// An alert name with `-`, `_` and spaces removed, after lower-casing.
pub open spec fn trigger_key(raw: Seq<char>) -> Seq<char> {
    text::remove_char_seq(text::remove_char_seq(text::remove_char_seq(text::lower(raw), '-'), '_'), ' ')
}

/// The automation trigger of a StreamElements alert name.
pub open spec fn se_trigger_spec(raw: Seq<char>) -> Option<Seq<char>> {
    let k = trigger_key(raw);
    if k == "subscriber"@ || k == "subscribers"@ || k == "subscription"@ || k == "subscriptions"@
        || k == "sub"@ || k == "subs"@ || k == "resub"@ || k == "resubscribe"@ || k == "gift"@
        || k == "gifted"@ || k == "subgift"@ {
        Some("subscribe"@)
    } else if k == "raid"@ || k == "raids"@ {
        Some("raid"@)
    } else if k == "cheer"@ || k == "cheers"@ || k == "bits"@ || k == "cheerbits"@ {
        Some("cheer"@)
    } else if k == "streamonline"@ || k == "online"@ || k == "live"@ || k == "golive"@
        || k == "liveannouncement"@ {
        Some("stream_online"@)
    } else if k == "streamoffline"@ || k == "offline"@ || k == "endstream"@ {
        Some("stream_offline"@)
    } else {
        None
    }
}

fn one_of(k: &str, names: &Vec<&str>) -> (r: bool)
    ensures
        r == exists|i: int| 0 <= i < names@.len() && k@ == #[trigger] names@[i]@,
{
    let mut i: usize = 0;
    while i < names.len()
        invariant
            i <= names.len(),
            forall|j: int| 0 <= j < i ==> k@ != #[trigger] names@[j]@,
        decreases names.len() - i,
    {
        if text::str_eq(k, names[i]) {
            return true;
        }
        i += 1;
    }
    false
}

/// The automation trigger of a StreamElements alert name, if it has one.
pub fn map_se_trigger(raw: &str) -> (r: Option<String>)
    ensures
        match se_trigger_spec(raw@) {
            Some(t) => r matches Some(x) && x@ == t,
            None => r is None,
        },
{
    let l = text::to_lower(raw);
    let a = text::remove_char(l.as_str(), '-');
    let b = text::remove_char(a.as_str(), '_');
    let k = text::remove_char(b.as_str(), ' ');
    let ks = k.as_str();
    let subs = vec!["subscriber", "subscribers", "subscription", "subscriptions", "sub", "subs",
        "resub", "resubscribe", "gift", "gifted", "subgift"];
    let raids = vec!["raid", "raids"];
    let cheers = vec!["cheer", "cheers", "bits", "cheerbits"];
    let online = vec!["streamonline", "online", "live", "golive", "liveannouncement"];
    let offline = vec!["streamoffline", "offline", "endstream"];
    if one_of(ks, &subs) {
        Some(text::own("subscribe"))
    } else if one_of(ks, &raids) {
        Some(text::own("raid"))
    } else if one_of(ks, &cheers) {
        Some(text::own("cheer"))
    } else if one_of(ks, &online) {
        Some(text::own("stream_online"))
    } else if one_of(ks, &offline) {
        Some(text::own("stream_offline"))
    } else {
        None
    }
}

/// A message text: trimmed, normalised, when not blank.
pub open spec fn message_text(s: Seq<char>) -> Option<Seq<char>> {
    let t = text::trim_seq(s);
    if t.len() > 0 { Some(se_message_spec(t)) } else { None }
}

/// The member names under which alert settings keep their message.
pub open spec fn message_keys() -> Seq<Seq<char>> {
    seq!["message"@, "msg"@, "text"@, "reply"@]
}

/// The first of `keys` whose member is a non-blank string.
pub open spec fn keyed_text(o: Seq<(String, JsonValue)>, keys: Seq<Seq<char>>) -> Option<Seq<char>>
    decreases keys.len(),
{
    if keys.len() == 0 {
        None
    } else {
        match json::member(o, keys[0]) {
            Some(JsonValue::Str(s)) => match message_text(s@) {
                Some(m) => Some(m),
                None => keyed_text(o, keys.drop_first()),
            },
            _ => keyed_text(o, keys.drop_first()),
        }
    }
}

/// The first message of an array: a non-blank string item, or an object
/// item with a non-blank message member.
pub open spec fn array_text(items: Seq<JsonValue>) -> Option<Seq<char>>
    decreases items.len(),
{
    if items.len() == 0 {
        None
    } else {
        let here = match items[0] {
            JsonValue::Str(s) => message_text(s@),
            JsonValue::Object(o) => keyed_text(o@, message_keys()),
            _ => None,
        };
        match here {
            Some(m) => Some(m),
            None => array_text(items.drop_first()),
        }
    }
}

/// The message that an alert setting holds: the value itself when it is a
/// non-blank string; the first message of an array; for an object, the
/// first message found under `message`, `msg`, `text`, `reply`, then
/// `messages`.
pub open spec fn first_message_spec(v: JsonValue) -> Option<Seq<char>>
    decreases v,
{
    match v {
        JsonValue::Str(s) => message_text(s@),
        JsonValue::Array(items) => array_text(items@),
        JsonValue::Object(o) => {
            let i0 = json::member_index(o@, "message"@);
            let i1 = json::member_index(o@, "msg"@);
            let i2 = json::member_index(o@, "text"@);
            let i3 = json::member_index(o@, "reply"@);
            let i4 = json::member_index(o@, "messages"@);
            let m0 = if 0 <= i0 < o@.len() { first_message_spec(o@[i0].1) } else { None };
            let m1 = if 0 <= i1 < o@.len() { first_message_spec(o@[i1].1) } else { None };
            let m2 = if 0 <= i2 < o@.len() { first_message_spec(o@[i2].1) } else { None };
            let m3 = if 0 <= i3 < o@.len() { first_message_spec(o@[i3].1) } else { None };
            let m4 = if 0 <= i4 < o@.len() { first_message_spec(o@[i4].1) } else { None };
            if m0 is Some { m0 } else if m1 is Some { m1 } else if m2 is Some { m2 } else if m3 is Some { m3 } else { m4 }
        },
        _ => None,
    }
}

fn message_text_exec(s: &str) -> (r: Option<String>)
    ensures
        match message_text(s@) {
            Some(m) => r matches Some(x) && x@ == m,
            None => r is None,
        },
{
    let t = text::trim(s);
    if t.as_str().is_empty() { None } else { Some(normalize_se_message(t.as_str())) }
}

fn keyed_text_exec(o: &Vec<(String, JsonValue)>) -> (r: Option<String>)
    ensures
        match keyed_text(o@, message_keys()) {
            Some(m) => r matches Some(x) && x@ == m,
            None => r is None,
        },
{
    let keys = vec!["message", "msg", "text", "reply"];
    let mut i: usize = 0;
    assert(message_keys().subrange(0, 4) =~= message_keys());
    while i < 4
        invariant
            i <= 4,
            keys@.len() == 4,
            forall|j: int| 0 <= j < 4 ==> #[trigger] keys@[j]@ == message_keys()[j],
            keyed_text(o@, message_keys()) == keyed_text(o@, message_keys().subrange(i as int, 4)),
        decreases 4 - i,
    {
        let ghost ks = message_keys().subrange(i as int, 4);
        assert(ks.drop_first() =~= message_keys().subrange(i + 1, 4));
        assert(ks[0] == keys@[i as int]@);
        match json::find_member(o, keys[i]) {
            Some(k) => {
                match &o[k].1 {
                    JsonValue::Str(s) => {
                        let m = message_text_exec(s.as_str());
                        if m.is_some() {
                            return m;
                        }
                    },
                    _ => {},
                }
            },
            None => {},
        }
        i += 1;
    }
    None
}

/// The message that an alert setting holds (see `first_message_spec`).
#[verifier::loop_isolation(false)]
pub fn first_message(val: &JsonValue) -> (r: Option<String>)
    ensures
        match first_message_spec(*val) {
            Some(m) => r matches Some(x) && x@ == m,
            None => r is None,
        },
    decreases val,
{
    match val {
        JsonValue::Str(s) => message_text_exec(s.as_str()),
        JsonValue::Array(items) => {
            let mut i: usize = 0;
            assert(items@.subrange(0, items@.len() as int) =~= items@);
            while i < items.len()
                invariant
                    i <= items.len(),
                    array_text(items@) == array_text(items@.subrange(i as int, items@.len() as int)),
                decreases items.len() - i,
            {
                let ghost rest = items@.subrange(i as int, items@.len() as int);
                assert(rest.drop_first() =~= items@.subrange(i + 1, items@.len() as int));
                assert(rest[0] == items@[i as int]);
                let here = match &items[i] {
                    JsonValue::Str(s) => message_text_exec(s.as_str()),
                    JsonValue::Object(o) => keyed_text_exec(o),
                    _ => None,
                };
                if here.is_some() {
                    return here;
                }
                i += 1;
            }
            None
        },
        JsonValue::Object(o) => {
            let keys = vec!["message", "msg", "text", "reply", "messages"];
            let mut i: usize = 0;
            while i < 5
                invariant
                    i <= 5,
                    keys@.len() == 5,
                    keys@[0]@ == "message"@,
                    keys@[1]@ == "msg"@,
                    keys@[2]@ == "text"@,
                    keys@[3]@ == "reply"@,
                    keys@[4]@ == "messages"@,
                    forall|j: int| 0 <= j < i ==> {
                        let ij = json::member_index(o@, #[trigger] keys@[j]@);
                        !(0 <= ij < o@.len() && first_message_spec(o@[ij].1) is Some)
                    },
                decreases 5 - i,
            {
                match json::find_member(o, keys[i]) {
                    Some(k) => {
                        let m = first_message(&o[k].1);
                        if m.is_some() {
                            return m;
                        }
                    },
                    None => {},
                }
                i += 1;
            }
            None
        },
        _ => None,
    }
}

/// An alert setting is on: a boolean is its own answer, an object its
/// `enabled` member (on when absent or not a boolean), anything else is on.
pub open spec fn event_enabled_spec(v: JsonValue) -> bool {
    match v {
        JsonValue::Bool(b) => b,
        JsonValue::Object(o) => match json::member(o@, "enabled"@) {
            Some(JsonValue::Bool(b)) => b,
            _ => true,
        },
        _ => true,
    }
}

pub fn event_enabled(val: &JsonValue) -> (r: bool)
    ensures
        r == event_enabled_spec(*val),
{
    match val {
        JsonValue::Bool(b) => *b,
        JsonValue::Object(o) => match json::find_member(o, "enabled") {
            Some(k) => match &o[k].1 {
                JsonValue::Bool(b) => *b,
                _ => true,
            },
            None => true,
        },
        _ => true,
    }
}

/// An automation preview, as its texts.
pub type PreviewView = (Seq<char>, Seq<char>, Seq<char>, Seq<char>, bool);

pub open spec fn preview_view(p: SeAutomationPreview) -> PreviewView {
    (p.id@, p.name@, p.trigger_type@, p.action_payload@, p.enabled)
}

pub open spec fn previews_view(ps: Seq<SeAutomationPreview>) -> Seq<PreviewView> {
    ps.map_values(|p: SeAutomationPreview| preview_view(p))
}

/// The id of the automation imported for a trigger.
pub open spec fn alert_id(t: Seq<char>) -> Seq<char> {
    "se-alert:"@ + t
}

pub open spec fn has_alert_id(out: Seq<PreviewView>, id: Seq<char>) -> bool {
    exists|i: int| 0 <= i < out.len() && (#[trigger] out[i]).0 == id
}

/// One alert setting added to the previews: when its name maps to a
/// trigger, it holds a message, and no preview for that trigger exists yet.
pub open spec fn push_alert(out: Seq<PreviewView>, raw: Seq<char>, payload: JsonValue, enabled: bool) -> Seq<PreviewView> {
    match se_trigger_spec(raw) {
        None => out,
        Some(t) => match first_message_spec(payload) {
            None => out,
            Some(m) => if has_alert_id(out, alert_id(t)) {
                out
            } else {
                out.push((alert_id(t), "SE "@ + raw, t, m, enabled))
            },
        },
    }
}

/// Keys of an alert module that are not alert settings.
pub open spec fn is_meta_key(k: Seq<char>) -> bool {
    k == "type"@ || k == "name"@ || k == "module"@ || k == "_id"@ || k == "id"@ || k == "enabled"@
}

/// Each member (skipping meta keys when asked) added as an alert setting.
pub open spec fn push_members(
    out: Seq<PreviewView>,
    members: Seq<(String, JsonValue)>,
    module_enabled: bool,
    skip_meta: bool,
) -> Seq<PreviewView>
    decreases members.len(),
{
    if members.len() == 0 {
        out
    } else {
        let before = push_members(out, members.drop_last(), module_enabled, skip_meta);
        let (k, v) = members.last();
        if skip_meta && is_meta_key(k@) {
            before
        } else {
            push_alert(before, k@, v, module_enabled && event_enabled_spec(v))
        }
    }
}

/// Members under which alert modules keep their settings.
pub open spec fn bucket_keys() -> Seq<Seq<char>> {
    seq!["options"@, "config"@, "settings"@, "events"@]
}

pub open spec fn is_object(v: Option<JsonValue>) -> bool {
    v matches Some(JsonValue::Object(_))
}

/// The settings of every bucket that is an object, bucket by bucket.
pub open spec fn push_buckets(
    out: Seq<PreviewView>,
    o: Seq<(String, JsonValue)>,
    module_enabled: bool,
    keys: Seq<Seq<char>>,
) -> Seq<PreviewView>
    decreases keys.len(),
{
    if keys.len() == 0 {
        out
    } else {
        let before = push_buckets(out, o, module_enabled, keys.drop_last());
        match json::member(o, keys.last()) {
            Some(JsonValue::Object(inner)) => push_members(before, inner@, module_enabled, false),
            _ => before,
        }
    }
}

/// The module's `enabled` member (on when absent or not a boolean).
pub open spec fn module_enabled(o: Seq<(String, JsonValue)>) -> bool {
    match json::member(o, "enabled"@) {
        Some(JsonValue::Bool(b)) => b,
        _ => true,
    }
}

/// The alert settings of an alert module: those in its buckets when it has
/// any, else its own members.
pub open spec fn alerts_spec(o: Seq<(String, JsonValue)>, out: Seq<PreviewView>) -> Seq<PreviewView> {
    let me = module_enabled(o);
    if is_object(json::member(o, "options"@)) || is_object(json::member(o, "config"@))
        || is_object(json::member(o, "settings"@)) || is_object(json::member(o, "events"@)) {
        push_buckets(out, o, me, bucket_keys())
    } else {
        push_members(out, o, me, true)
    }
}

/// The module kind: the first present of `type`, `name`, `module`, when a string.
pub open spec fn type_hint_raw(o: Seq<(String, JsonValue)>) -> Seq<char> {
    let m = if json::member(o, "type"@) is Some {
        json::member(o, "type"@)
    } else if json::member(o, "name"@) is Some {
        json::member(o, "name"@)
    } else {
        json::member(o, "module"@)
    };
    match m {
        Some(JsonValue::Str(s)) => s@,
        _ => Seq::empty(),
    }
}

pub open spec fn has_alert_keys(v: Option<JsonValue>) -> bool {
    match v {
        Some(JsonValue::Object(x)) => json::member(x@, "subscriber"@) is Some || json::member(x@, "raid"@) is Some
            || json::member(x@, "cheer"@) is Some,
        _ => false,
    }
}

/// The object looks like chat-alert settings.
pub open spec fn looks_like_alerts(o: Seq<(String, JsonValue)>) -> bool {
    let hint = text::lower(type_hint_raw(o));
    ||| text::contains_seq(hint, "alert"@)
    ||| text::contains_seq(hint, "chatalert"@)
    ||| json::member(o, "subscriber"@) is Some
    ||| json::member(o, "raid"@) is Some
    ||| json::member(o, "cheer"@) is Some
    ||| has_alert_keys(json::member(o, "options"@))
    ||| has_alert_keys(json::member(o, "config"@))
}

/// Alert automations found in a document: in every array item, and in
/// every object that looks like alert settings, then in its nested
/// `modules`, `data`, `items`, `alerts`, `chatAlerts` and `chatalerts`.
pub open spec fn extract_spec(v: JsonValue, out: Seq<PreviewView>) -> Seq<PreviewView>
    decreases v,
{
    match v {
        JsonValue::Array(items) => extract_items(items@, out),
        JsonValue::Object(o) => {
            let o1 = if looks_like_alerts(o@) { alerts_spec(o@, out) } else { out };
            let c0 = json::member_index(o@, "modules"@);
            let o2 = if 0 <= c0 < o@.len() { extract_spec(o@[c0].1, o1) } else { o1 };
            let c1 = json::member_index(o@, "data"@);
            let o3 = if 0 <= c1 < o@.len() { extract_spec(o@[c1].1, o2) } else { o2 };
            let c2 = json::member_index(o@, "items"@);
            let o4 = if 0 <= c2 < o@.len() { extract_spec(o@[c2].1, o3) } else { o3 };
            let c3 = json::member_index(o@, "alerts"@);
            let o5 = if 0 <= c3 < o@.len() { extract_spec(o@[c3].1, o4) } else { o4 };
            let c4 = json::member_index(o@, "chatAlerts"@);
            let o6 = if 0 <= c4 < o@.len() { extract_spec(o@[c4].1, o5) } else { o5 };
            let c5 = json::member_index(o@, "chatalerts"@);
            if 0 <= c5 < o@.len() { extract_spec(o@[c5].1, o6) } else { o6 }
        },
        _ => out,
    }
}

/// The nested documents of an object, visited up to (not including) stage `n`.
pub open spec fn children_from(o: Seq<(String, JsonValue)>, start: Seq<PreviewView>, n: int) -> Seq<PreviewView>
    decreases n,
{
    if n <= 0 {
        start
    } else {
        let before = children_from(o, start, n - 1);
        let key = if n == 1 { "modules"@ } else if n == 2 { "data"@ } else if n == 3 { "items"@ }
            else if n == 4 { "alerts"@ } else if n == 5 { "chatAlerts"@ } else { "chatalerts"@ };
        let c = json::member_index(o, key);
        if 0 <= c < o.len() { extract_spec(o[c].1, before) } else { before }
    }
}

/// `extract_spec` over the items in order.
pub open spec fn extract_items(items: Seq<JsonValue>, out: Seq<PreviewView>) -> Seq<PreviewView>
    decreases items,
{
    if items.len() == 0 {
        out
    } else {
        extract_spec(items.last(), extract_items(items.drop_last(), out))
    }
}

fn has_alert_id_exec(out: &Vec<SeAutomationPreview>, id: &str) -> (r: bool)
    ensures
        r == has_alert_id(previews_view(out@), id@),
{
    let mut i: usize = 0;
    while i < out.len()
        invariant
            i <= out.len(),
            forall|j: int| 0 <= j < i ==> out@[j].id@ != id@,
        decreases out.len() - i,
    {
        if text::str_eq(out[i].id.as_str(), id) {
            assert(previews_view(out@)[i as int].0 == id@);
            return true;
        }
        i += 1;
    }
    proof {
        if has_alert_id(previews_view(out@), id@) {
            let k = choose|k: int| 0 <= k < previews_view(out@).len() && (#[trigger] previews_view(out@)[k]).0 == id@;
            assert(out@[k].id@ == id@);
        }
    }
    false
}

/// Adds the preview for one alert setting (see `push_alert`).
pub fn push_automation_preview(
    out: &mut Vec<SeAutomationPreview>,
    trigger_raw: &str,
    payload_src: &JsonValue,
    enabled: bool,
)
    ensures
        previews_view(final(out)@) == push_alert(previews_view(old(out)@), trigger_raw@, *payload_src, enabled),
{
    let trigger = match map_se_trigger(trigger_raw) {
        Some(t) => t,
        None => return,
    };
    let message = match first_message(payload_src) {
        Some(m) => m,
        None => return,
    };
    let id = text::concat("se-alert:", trigger.as_str());
    if has_alert_id_exec(out, id.as_str()) {
        return;
    }
    let name = text::concat("SE ", trigger_raw);
    let ghost before = out@;
    out.push(SeAutomationPreview { id, name, trigger_type: trigger, action_payload: message, enabled });
    assert(previews_view(out@) =~= previews_view(before).push(preview_view(out@.last())));
}

fn is_meta_key_exec(k: &str) -> (r: bool)
    ensures
        r == is_meta_key(k@),
{
    text::str_eq(k, "type") || text::str_eq(k, "name") || text::str_eq(k, "module")
        || text::str_eq(k, "_id") || text::str_eq(k, "id") || text::str_eq(k, "enabled")
}

fn push_members_exec(
    out: &mut Vec<SeAutomationPreview>,
    members: &Vec<(String, JsonValue)>,
    me: bool,
    skip_meta: bool,
)
    ensures
        previews_view(final(out)@) == push_members(previews_view(old(out)@), members@, me, skip_meta),
{
    let mut i: usize = 0;
    assert(members@.take(0) =~= Seq::<(String, JsonValue)>::empty());
    while i < members.len()
        invariant
            i <= members.len(),
            previews_view(out@) == push_members(previews_view(old(out)@), members@.take(i as int), me, skip_meta),
        decreases members.len() - i,
    {
        assert(members@.take(i + 1).drop_last() =~= members@.take(i as int));
        assert(members@.take(i + 1).last() == members@[i as int]);
        let k = members[i].0.as_str();
        let v = &members[i].1;
        if !(skip_meta && is_meta_key_exec(k)) {
            let en = me && event_enabled(v);
            push_automation_preview(out, k, v, en);
        }
        i += 1;
    }
    assert(members@.take(members.len() as int) =~= members@);
}

fn member_is_object(o: &Vec<(String, JsonValue)>, key: &str) -> (r: bool)
    ensures
        r == is_object(json::member(o@, key@)),
{
    match json::find_member(o, key) {
        Some(k) => match &o[k].1 {
            JsonValue::Object(_) => true,
            _ => false,
        },
        None => false,
    }
}

fn module_enabled_exec(o: &Vec<(String, JsonValue)>) -> (r: bool)
    ensures
        r == module_enabled(o@),
{
    match json::find_member(o, "enabled") {
        Some(k) => match &o[k].1 {
            JsonValue::Bool(b) => *b,
            _ => true,
        },
        None => true,
    }
}

fn alerts_exec(o: &Vec<(String, JsonValue)>, out: &mut Vec<SeAutomationPreview>)
    ensures
        previews_view(final(out)@) == alerts_spec(o@, previews_view(old(out)@)),
{
    let me = module_enabled_exec(o);
    let any = member_is_object(o, "options") || member_is_object(o, "config")
        || member_is_object(o, "settings") || member_is_object(o, "events");
    if !any {
        push_members_exec(out, o, me, true);
        return;
    }
    let keys = vec!["options", "config", "settings", "events"];
    let mut i: usize = 0;
    assert(bucket_keys().take(0) =~= Seq::<Seq<char>>::empty());
    while i < 4
        invariant
            i <= 4,
            keys@.len() == 4,
            forall|j: int| 0 <= j < 4 ==> #[trigger] keys@[j]@ == bucket_keys()[j],
            previews_view(out@) == push_buckets(previews_view(old(out)@), o@, me, bucket_keys().take(i as int)),
        decreases 4 - i,
    {
        assert(bucket_keys().take(i + 1).drop_last() =~= bucket_keys().take(i as int));
        assert(bucket_keys().take(i + 1).last() == keys@[i as int]@);
        match json::find_member(o, keys[i]) {
            Some(k) => match &o[k].1 {
                JsonValue::Object(inner) => push_members_exec(out, inner, me, false),
                _ => {},
            },
            None => {},
        }
        i += 1;
    }
    assert(bucket_keys().take(4) =~= bucket_keys());
}

fn type_hint_exec(o: &Vec<(String, JsonValue)>) -> (r: String)
    ensures
        r@ == text::lower(type_hint_raw(o@)),
{
    let k = match json::find_member(o, "type") {
        Some(k) => Some(k),
        None => match json::find_member(o, "name") {
            Some(k) => Some(k),
            None => json::find_member(o, "module"),
        },
    };
    let raw = match k {
        Some(k) => match &o[k].1 {
            JsonValue::Str(s) => s.clone(),
            _ => String::new(),
        },
        None => String::new(),
    };
    text::to_lower(raw.as_str())
}

fn has_alert_keys_exec(o: &Vec<(String, JsonValue)>, key: &str) -> (r: bool)
    ensures
        r == has_alert_keys(json::member(o@, key@)),
{
    match json::find_member(o, key) {
        Some(k) => match &o[k].1 {
            JsonValue::Object(x) => json::find_member(x, "subscriber").is_some()
                || json::find_member(x, "raid").is_some() || json::find_member(x, "cheer").is_some(),
            _ => false,
        },
        None => false,
    }
}

fn looks_like_alerts_exec(o: &Vec<(String, JsonValue)>) -> (r: bool)
    ensures
        r == looks_like_alerts(o@),
{
    let hint = type_hint_exec(o);
    text::contains(hint.as_str(), "alert") || text::contains(hint.as_str(), "chatalert")
        || json::find_member(o, "subscriber").is_some() || json::find_member(o, "raid").is_some()
        || json::find_member(o, "cheer").is_some() || has_alert_keys_exec(o, "options")
        || has_alert_keys_exec(o, "config")
}

/// Collects the chat-alert automations of a StreamElements document
/// (see `extract_spec`); a trigger already in `out` is not added again.
#[verifier::loop_isolation(false)]
pub fn extract_automations_from_value(val: &JsonValue, out: &mut Vec<SeAutomationPreview>)
    ensures
        previews_view(final(out)@) == extract_spec(*val, previews_view(old(out)@)),
    decreases val,
{
    match val {
        JsonValue::Array(items) => {
            let mut i: usize = 0;
            assert(items@.take(0) =~= Seq::<JsonValue>::empty());
            while i < items.len()
                invariant
                    i <= items.len(),
                    previews_view(out@) == extract_items(items@.take(i as int), previews_view(old(out)@)),
                decreases items.len() - i,
            {
                assert(items@.take(i + 1).drop_last() =~= items@.take(i as int));
                assert(items@.take(i + 1).last() == items@[i as int]);
                extract_automations_from_value(&items[i], out);
                i += 1;
            }
            assert(items@.take(items.len() as int) =~= items@);
            assert(extract_spec(*val, previews_view(old(out)@)) == extract_items(items@, previews_view(old(out)@)));
        },
        JsonValue::Object(o) => {
            if looks_like_alerts_exec(o) {
                alerts_exec(o, out);
            }
            let keys = vec!["modules", "data", "items", "alerts", "chatAlerts", "chatalerts"];
            let ghost o1 = previews_view(out@);
            let mut i: usize = 0;
            while i < 6
                invariant
                    i <= 6,
                    keys@.len() == 6,
                    keys@[0]@ == "modules"@,
                    keys@[1]@ == "data"@,
                    keys@[2]@ == "items"@,
                    keys@[3]@ == "alerts"@,
                    keys@[4]@ == "chatAlerts"@,
                    keys@[5]@ == "chatalerts"@,
                    previews_view(out@) == children_from(o@, o1, i as int),
                decreases 6 - i,
            {
                match json::find_member(o, keys[i]) {
                    Some(k) => extract_automations_from_value(&o[k].1, out),
                    None => {},
                }
                i += 1;
            }
            assert(o1 == (if looks_like_alerts(o@) { alerts_spec(o@, previews_view(old(out)@)) } else { previews_view(old(out)@) }));
            proof { reveal_with_fuel(children_from, 7); }
        },
        _ => {},
    }
}

// ---------------------------------------------------------------------------
// The export's files
// ---------------------------------------------------------------------------

/// A ZIP entry name with `\` read as `/`.
pub fn zip_entry_path(name: &str) -> (r: String)
    ensures
        r@ == text::replace_seq(name@, seq!['\\'], seq!['/']),
{
    proof {
        reveal_strlit("\\");
        reveal_strlit("/");
    }
    assert("\\"@ =~= seq!['\\']);
    assert("/"@ =~= seq!['/']);
    text::replace(name, "\\", "/")
}

/// A JSON file of the export (not macOS metadata).
pub fn is_json_entry(path: &str) -> (r: bool)
    ensures
        r == (text::ends_with_seq(text::lower(path@), ".json"@) && !text::contains_seq(text::lower(path@), "__macosx"@)),
{
    let l = text::to_lower(path);
    text::ends_with(l.as_str(), ".json") && !text::contains(l.as_str(), "__macosx")
}

/// The files that usually hold chat-alert settings, read first.
pub open spec fn preferred_alert_files() -> Seq<Seq<char>> {
    seq!["chat-alerts.json"@, "chatalerts.json"@, "chat_alerts.json"@, "modules.json"@, "bot-modules.json"@]
}

pub fn preferred_alert_file_names() -> (r: Vec<String>)
    ensures
        r@.len() == 5,
        forall|i: int| 0 <= i < 5 ==> #[trigger] r@[i]@ == preferred_alert_files()[i],
{
    vec![text::own("chat-alerts.json"), text::own("chatalerts.json"), text::own("chat_alerts.json"),
        text::own("modules.json"), text::own("bot-modules.json")]
}

/// Another JSON file worth scanning for alerts: its name mentions alerts or
/// modules and it is not one of the preferred files.
pub open spec fn is_extra_alert_file_spec(path: Seq<char>) -> bool {
    let l = text::lower(path);
    (text::contains_seq(l, "alert"@) || text::contains_seq(l, "module"@) || text::contains_seq(l, "chatalert"@))
        && !(exists|i: int| 0 <= i < 5 && text::ends_with_seq(l, #[trigger] preferred_alert_files()[i]))
}

pub fn is_extra_alert_file(path: &str) -> (r: bool)
    ensures
        r == is_extra_alert_file_spec(path@),
{
    let l = text::to_lower(path);
    let ls = l.as_str();
    if !(text::contains(ls, "alert") || text::contains(ls, "module") || text::contains(ls, "chatalert")) {
        return false;
    }
    let names = preferred_alert_file_names();
    let mut i: usize = 0;
    while i < 5
        invariant
            i <= 5,
            names@.len() == 5,
            l@ == text::lower(path@),
            forall|j: int| 0 <= j < 5 ==> #[trigger] names@[j]@ == preferred_alert_files()[j],
            forall|j: int| 0 <= j < i ==> !text::ends_with_seq(l@, #[trigger] preferred_alert_files()[j]),
        decreases 5 - i,
    {
        if text::ends_with(l.as_str(), names[i].as_str()) {
            assert(text::ends_with_seq(l@, preferred_alert_files()[i as int]));
            return false;
        }
        i += 1;
    }
    true
}

// ---------------------------------------------------------------------------
// Preview
// ---------------------------------------------------------------------------

/// A timer's display name in the preview: its name, else `Timer {interval}`.
pub open spec fn preview_timer_name(t: SeTimer) -> Seq<char> {
    if t.name@.len() == 0 { "Timer "@ + text::signed_decimal(se_interval_spec(t) as int) } else { t.name@ }
}

/// The variables of the export that have a name, as the preview lists them.
pub open spec fn variable_previews(vs: Seq<SeVariable>) -> Seq<(Seq<char>, Seq<char>, Seq<char>)>
    decreases vs.len(),
{
    if vs.len() == 0 {
        Seq::empty()
    } else {
        let r = variable_previews(vs.drop_last());
        let v = vs.last();
        let name = db::var_name_spec(v.name@);
        if name.len() == 0 {
            r
        } else {
            r.push((if v.id@.len() == 0 { v.name@ } else { v.id@ }, name, v.value@))
        }
    }
}

pub open spec fn var_preview_view(p: SeVariablePreview) -> (Seq<char>, Seq<char>, Seq<char>) {
    (p.id@, p.name@, p.value@)
}

/// The preview of an export: its commands, timers, named variables and
/// alert automations; an error when there is none of them.
pub fn se_preview(
    commands: &Vec<SeCommand>,
    timers: &Vec<SeTimer>,
    variables: &Vec<SeVariable>,
    automations: Vec<SeAutomationPreview>,
) -> (r: Result<SeImportPreview, String>)
    ensures
        (commands@.len() == 0 && timers@.len() == 0 && variable_previews(variables@).len() == 0
            && automations@.len() == 0) <==> r is Err,
        r matches Err(e) ==> e@ == "Nothing importable found. Use an export.stream ZIP with commands/, timers/, and/or variables/."@,
        r matches Ok(p) ==> {
            &&& p.commands@.len() == commands@.len()
            &&& forall|i: int| 0 <= i < commands@.len() ==> {
                let c = #[trigger] commands@[i];
                &&& p.commands@[i].id@ == (if c.id@.len() == 0 { c.command@ } else { c.id@ })
                &&& p.commands@[i].name == c.command
                &&& p.commands@[i].response == c.reply
                &&& p.commands@[i].enabled == c.enabled
            }
            &&& p.timers@.len() == timers@.len()
            &&& forall|i: int| 0 <= i < timers@.len() ==> {
                let t = #[trigger] timers@[i];
                &&& p.timers@[i].id@ == timer_key_spec(t)
                &&& p.timers@[i].name@ == preview_timer_name(t)
                &&& p.timers@[i].message@ == se_timer_message_spec(t)
                &&& p.timers@[i].interval == se_interval_spec(t)
                &&& p.timers@[i].enabled == t.enabled
            }
            &&& p.variables@.map_values(|v: SeVariablePreview| var_preview_view(v)) == variable_previews(variables@)
            &&& p.automations == automations
        },
{
    let mut cs: Vec<SeCommandPreview> = Vec::new();
    let mut i: usize = 0;
    while i < commands.len()
        invariant
            i <= commands.len(),
            cs@.len() == i,
            forall|j: int| 0 <= j < i ==> {
                let c = #[trigger] commands@[j];
                &&& cs@[j].id@ == (if c.id@.len() == 0 { c.command@ } else { c.id@ })
                &&& cs@[j].name == c.command
                &&& cs@[j].response == c.reply
                &&& cs@[j].enabled == c.enabled
            },
        decreases commands.len() - i,
    {
        let c = &commands[i];
        cs.push(SeCommandPreview { id: cmd_key(c), name: c.command.clone(), response: c.reply.clone(), enabled: c.enabled });
        i += 1;
    }
    let mut ts: Vec<SeTimerPreview> = Vec::new();
    let mut i: usize = 0;
    proof { reveal_strlit("Timer "); }
    while i < timers.len()
        invariant
            i <= timers.len(),
            ts@.len() == i,
            forall|j: int| 0 <= j < i ==> {
                let t = #[trigger] timers@[j];
                &&& ts@[j].id@ == timer_key_spec(t)
                &&& ts@[j].name@ == preview_timer_name(t)
                &&& ts@[j].message@ == se_timer_message_spec(t)
                &&& ts@[j].interval == se_interval_spec(t)
                &&& ts@[j].enabled == t.enabled
            },
        decreases timers.len() - i,
    {
        let t = &timers[i];
        let interval = se_timer_interval_mins(t);
        let name = if t.name.as_str().is_empty() {
            let n = text::i64_text(interval);
            text::concat("Timer ", n.as_str())
        } else {
            t.name.clone()
        };
        ts.push(SeTimerPreview { id: timer_key(t), name, message: se_timer_message(t), interval, enabled: t.enabled });
        i += 1;
    }
    let mut vs: Vec<SeVariablePreview> = Vec::new();
    let mut i: usize = 0;
    assert(variables@.take(0) =~= Seq::<SeVariable>::empty());
    while i < variables.len()
        invariant
            i <= variables.len(),
            vs@.map_values(|v: SeVariablePreview| var_preview_view(v)) == variable_previews(variables@.take(i as int)),
        decreases variables.len() - i,
    {
        assert(variables@.take(i + 1).drop_last() =~= variables@.take(i as int));
        let v = &variables[i];
        let name = db::normalize_var_name(v.name.as_str());
        if !name.as_str().is_empty() {
            let ghost before = vs@;
            vs.push(SeVariablePreview { id: var_key(v), name, value: v.value.clone() });
            assert(vs@.map_values(|v: SeVariablePreview| var_preview_view(v))
                =~= before.map_values(|v: SeVariablePreview| var_preview_view(v)).push(var_preview_view(vs@.last())));
        }
        i += 1;
    }
    assert(variables@.take(variables.len() as int) =~= variables@);
    if cs.len() == 0 && ts.len() == 0 && vs.len() == 0 && automations.len() == 0 {
        return Err(text::own(
            "Nothing importable found. Use an export.stream ZIP with commands/, timers/, and/or variables/.",
        ));
    }
    Ok(SeImportPreview { commands: cs, timers: ts, variables: vs, automations })
}

// ---------------------------------------------------------------------------
// Laws
// ---------------------------------------------------------------------------

/// The triggers that alert automations are imported for.
pub open spec fn is_alert_trigger(t: Seq<char>) -> bool {
    t == "subscribe"@ || t == "raid"@ || t == "cheer"@ || t == "stream_online"@ || t == "stream_offline"@
}

/// An imported alert: its id is `se-alert:` and its trigger, the trigger is
/// an alert trigger, and it has a message.
pub open spec fn alert_entry(p: PreviewView) -> bool {
    p.0 == alert_id(p.2) && is_alert_trigger(p.2) && p.3.len() > 0
}

/// No two previews share an id.
pub open spec fn ids_distinct(s: Seq<PreviewView>) -> bool {
    forall|i: int, j: int| #![trigger s[i], s[j]] 0 <= i < j < s.len() ==> s[i].0 != s[j].0
}

/// `b` is `a` followed by imported alerts, and its ids are distinct when
/// those of `a` are.
pub open spec fn appends_alerts(a: Seq<PreviewView>, b: Seq<PreviewView>) -> bool {
    &&& a.len() <= b.len()
    &&& b.subrange(0, a.len() as int) == a
    &&& forall|i: int| a.len() <= i < b.len() ==> alert_entry(#[trigger] b[i])
    &&& ids_distinct(a) ==> ids_distinct(b)
}

proof fn lemma_appends_refl(a: Seq<PreviewView>)
    ensures
        appends_alerts(a, a),
{
    assert(a.subrange(0, a.len() as int) =~= a);
}

proof fn lemma_appends_trans(a: Seq<PreviewView>, b: Seq<PreviewView>, c: Seq<PreviewView>)
    requires
        appends_alerts(a, b),
        appends_alerts(b, c),
    ensures
        appends_alerts(a, c),
{
    assert forall|i: int| 0 <= i < a.len() implies #[trigger] c[i] == a[i] by {
        assert(c.subrange(0, b.len() as int)[i] == b[i]);
        assert(b.subrange(0, a.len() as int)[i] == a[i]);
    }
    assert(c.subrange(0, a.len() as int) =~= a);
    assert forall|i: int| a.len() <= i < c.len() implies alert_entry(#[trigger] c[i]) by {
        if i < b.len() {
            assert(c.subrange(0, b.len() as int)[i] == b[i]);
        }
    }
}

proof fn lemma_replace_keeps_nonempty(s: Seq<char>, pat: Seq<char>, rep: Seq<char>)
    requires
        s.len() > 0,
        pat.len() > 0,
        rep.len() > 0,
    ensures
        text::replace_seq(s, pat, rep).len() > 0,
{
}

proof fn lemma_message_text_nonempty(s: Seq<char>)
    ensures
        message_text(s) matches Some(m) ==> m.len() > 0,
{
    let t = text::trim_seq(s);
    if t.len() > 0 {
        reveal_strlit("${user}");
        reveal_strlit("{user}");
        reveal_strlit("{name}");
        reveal_strlit("{username}");
        reveal_strlit("$(user)");
        reveal_strlit("$(name)");
        let u = "${user}"@;
        let a = text::replace_seq(t, "{user}"@, u);
        lemma_replace_keeps_nonempty(t, "{user}"@, u);
        let b = text::replace_seq(a, "{name}"@, u);
        lemma_replace_keeps_nonempty(a, "{name}"@, u);
        let c = text::replace_seq(b, "{username}"@, u);
        lemma_replace_keeps_nonempty(b, "{username}"@, u);
        let d = text::replace_seq(c, "$(user)"@, u);
        lemma_replace_keeps_nonempty(c, "$(user)"@, u);
        lemma_replace_keeps_nonempty(d, "$(name)"@, u);
    }
}

proof fn lemma_keyed_text_nonempty(o: Seq<(String, JsonValue)>, keys: Seq<Seq<char>>)
    ensures
        keyed_text(o, keys) matches Some(m) ==> m.len() > 0,
    decreases keys.len(),
{
    if keys.len() > 0 {
        match json::member(o, keys[0]) {
            Some(JsonValue::Str(s)) => lemma_message_text_nonempty(s@),
            _ => {},
        }
        lemma_keyed_text_nonempty(o, keys.drop_first());
    }
}

proof fn lemma_array_text_nonempty(items: Seq<JsonValue>)
    ensures
        array_text(items) matches Some(m) ==> m.len() > 0,
    decreases items.len(),
{
    if items.len() > 0 {
        match items[0] {
            JsonValue::Str(s) => lemma_message_text_nonempty(s@),
            JsonValue::Object(o) => lemma_keyed_text_nonempty(o@, message_keys()),
            _ => {},
        }
        lemma_array_text_nonempty(items.drop_first());
    }
}

proof fn lemma_first_message_nonempty(v: JsonValue)
    ensures
        first_message_spec(v) matches Some(m) ==> m.len() > 0,
    decreases v,
{
    match v {
        JsonValue::Str(s) => lemma_message_text_nonempty(s@),
        JsonValue::Array(items) => lemma_array_text_nonempty(items@),
        JsonValue::Object(o) => {
            let i0 = json::member_index(o@, "message"@);
            let i1 = json::member_index(o@, "msg"@);
            let i2 = json::member_index(o@, "text"@);
            let i3 = json::member_index(o@, "reply"@);
            let i4 = json::member_index(o@, "messages"@);
            if 0 <= i0 < o@.len() {
                lemma_first_message_nonempty(o@[i0].1);
            }
            if 0 <= i1 < o@.len() {
                lemma_first_message_nonempty(o@[i1].1);
            }
            if 0 <= i2 < o@.len() {
                lemma_first_message_nonempty(o@[i2].1);
            }
            if 0 <= i3 < o@.len() {
                lemma_first_message_nonempty(o@[i3].1);
            }
            if 0 <= i4 < o@.len() {
                lemma_first_message_nonempty(o@[i4].1);
            }
        },
        _ => {},
    }
}

proof fn lemma_push_alert(out: Seq<PreviewView>, raw: Seq<char>, payload: JsonValue, enabled: bool)
    ensures
        appends_alerts(out, push_alert(out, raw, payload, enabled)),
{
    lemma_appends_refl(out);
    match se_trigger_spec(raw) {
        None => {},
        Some(t) => match first_message_spec(payload) {
            None => {},
            Some(m) => if !has_alert_id(out, alert_id(t)) {
                lemma_first_message_nonempty(payload);
                let b = out.push((alert_id(t), "SE "@ + raw, t, m, enabled));
                assert(b.subrange(0, out.len() as int) =~= out);
                assert(alert_entry(b[out.len() as int]));
                if ids_distinct(out) {
                    assert forall|i: int, j: int| #![trigger b[i], b[j]] 0 <= i < j < b.len() implies b[i].0 != b[j].0 by {
                        if j == out.len() {
                            assert(out[i] == b[i]);
                            if out[i].0 == alert_id(t) {
                                assert(has_alert_id(out, alert_id(t)));
                            }
                        } else {
                            assert(out[i] == b[i] && out[j] == b[j]);
                        }
                    }
                }
            },
        },
    }
}

proof fn lemma_push_members(out: Seq<PreviewView>, members: Seq<(String, JsonValue)>, me: bool, skip_meta: bool)
    ensures
        appends_alerts(out, push_members(out, members, me, skip_meta)),
    decreases members.len(),
{
    if members.len() == 0 {
        lemma_appends_refl(out);
    } else {
        let before = push_members(out, members.drop_last(), me, skip_meta);
        lemma_push_members(out, members.drop_last(), me, skip_meta);
        let (k, v) = members.last();
        if !(skip_meta && is_meta_key(k@)) {
            lemma_push_alert(before, k@, v, me && event_enabled_spec(v));
            lemma_appends_trans(out, before, push_alert(before, k@, v, me && event_enabled_spec(v)));
        }
    }
}

proof fn lemma_push_buckets(out: Seq<PreviewView>, o: Seq<(String, JsonValue)>, me: bool, keys: Seq<Seq<char>>)
    ensures
        appends_alerts(out, push_buckets(out, o, me, keys)),
    decreases keys.len(),
{
    if keys.len() == 0 {
        lemma_appends_refl(out);
    } else {
        let before = push_buckets(out, o, me, keys.drop_last());
        lemma_push_buckets(out, o, me, keys.drop_last());
        match json::member(o, keys.last()) {
            Some(JsonValue::Object(inner)) => {
                lemma_push_members(before, inner@, me, false);
                lemma_appends_trans(out, before, push_members(before, inner@, me, false));
            },
            _ => {},
        }
    }
}

proof fn lemma_alerts(o: Seq<(String, JsonValue)>, out: Seq<PreviewView>)
    ensures
        appends_alerts(out, alerts_spec(o, out)),
{
    lemma_push_buckets(out, o, module_enabled(o), bucket_keys());
    lemma_push_members(out, o, module_enabled(o), true);
}

proof fn lemma_extract(v: JsonValue, out: Seq<PreviewView>)
    ensures
        appends_alerts(out, extract_spec(v, out)),
    decreases v,
{
    match v {
        JsonValue::Array(items) => lemma_extract_items(items@, out),
        JsonValue::Object(o) => {
            let o1 = if looks_like_alerts(o@) { alerts_spec(o@, out) } else { out };
            if looks_like_alerts(o@) {
                lemma_alerts(o@, out);
            } else {
                lemma_appends_refl(out);
            }
            let c0 = json::member_index(o@, "modules"@);
            let o2 = if 0 <= c0 < o@.len() { extract_spec(o@[c0].1, o1) } else { o1 };
            if 0 <= c0 < o@.len() {
                lemma_extract(o@[c0].1, o1);
                lemma_appends_trans(out, o1, o2);
            }
            let c1 = json::member_index(o@, "data"@);
            let o3 = if 0 <= c1 < o@.len() { extract_spec(o@[c1].1, o2) } else { o2 };
            if 0 <= c1 < o@.len() {
                lemma_extract(o@[c1].1, o2);
                lemma_appends_trans(out, o2, o3);
            }
            let c2 = json::member_index(o@, "items"@);
            let o4 = if 0 <= c2 < o@.len() { extract_spec(o@[c2].1, o3) } else { o3 };
            if 0 <= c2 < o@.len() {
                lemma_extract(o@[c2].1, o3);
                lemma_appends_trans(out, o3, o4);
            }
            let c3 = json::member_index(o@, "alerts"@);
            let o5 = if 0 <= c3 < o@.len() { extract_spec(o@[c3].1, o4) } else { o4 };
            if 0 <= c3 < o@.len() {
                lemma_extract(o@[c3].1, o4);
                lemma_appends_trans(out, o4, o5);
            }
            let c4 = json::member_index(o@, "chatAlerts"@);
            let o6 = if 0 <= c4 < o@.len() { extract_spec(o@[c4].1, o5) } else { o5 };
            if 0 <= c4 < o@.len() {
                lemma_extract(o@[c4].1, o5);
                lemma_appends_trans(out, o5, o6);
            }
            let c5 = json::member_index(o@, "chatalerts"@);
            if 0 <= c5 < o@.len() {
                lemma_extract(o@[c5].1, o6);
                lemma_appends_trans(out, o6, extract_spec(o@[c5].1, o6));
            }
        },
        _ => lemma_appends_refl(out),
    }
}

proof fn lemma_extract_items(items: Seq<JsonValue>, out: Seq<PreviewView>)
    ensures
        appends_alerts(out, extract_items(items, out)),
    decreases items,
{
    if items.len() == 0 {
        lemma_appends_refl(out);
    } else {
        let before = extract_items(items.drop_last(), out);
        lemma_extract_items(items.drop_last(), out);
        lemma_extract(items.last(), before);
        lemma_appends_trans(out, before, extract_spec(items.last(), before));
    }
}

/// The ids of the five alert automations.
pub open spec fn alert_ids() -> Set<Seq<char>> {
    set![alert_id("subscribe"@), alert_id("raid"@), alert_id("cheer"@), alert_id("stream_online"@),
        alert_id("stream_offline"@)]
}

proof fn lemma_at_most_five(a: Seq<PreviewView>, b: Seq<PreviewView>)
    requires
        appends_alerts(a, b),
        ids_distinct(b),
    ensures
        b.len() <= a.len() + 5,
{
    let n = a.len() as int;
    let ids = Seq::new((b.len() - a.len()) as nat, |i: int| b[n + i].0);
    assert forall|i: int, j: int| 0 <= i < ids.len() && 0 <= j < ids.len() && i != j implies ids[i] != ids[j] by {
        if i < j {
            assert(b[n + i].0 != b[n + j].0);
        } else {
            assert(b[n + j].0 != b[n + i].0);
        }
    }
    assert(ids.no_duplicates());
    ids.unique_seq_to_set();
    assert forall|x: Seq<char>| ids.to_set().contains(x) implies alert_ids().contains(x) by {
        let i = choose|i: int| 0 <= i < ids.len() && ids[i] == x;
        assert(alert_entry(b[n + i]));
    }
    let s0 = Set::<Seq<char>>::empty();
    let s1 = s0.insert(alert_id("subscribe"@));
    let s2 = s1.insert(alert_id("raid"@));
    let s3 = s2.insert(alert_id("cheer"@));
    let s4 = s3.insert(alert_id("stream_online"@));
    let s5 = s4.insert(alert_id("stream_offline"@));
    assert(s5 == alert_ids());
    assert(s5.finite() && s5.len() <= 5);
    vstd::set_lib::lemma_len_subset(ids.to_set(), alert_ids());
}

/// Law: collecting alert automations only appends to what was collected
/// before. Every entry it adds is an alert (id `se-alert:` followed by one
/// of the five alert triggers, with a message), ids that were distinct stay
/// distinct, and so at most five entries are added.
pub proof fn extraction_appends_distinct_alerts(v: JsonValue, out: Seq<PreviewView>)
    requires
        ids_distinct(out),
    ensures
        out.len() <= extract_spec(v, out).len() <= out.len() + 5,
        extract_spec(v, out).subrange(0, out.len() as int) == out,
        forall|i: int| out.len() <= i < extract_spec(v, out).len() ==> alert_entry(#[trigger] extract_spec(v, out)[i]),
        ids_distinct(extract_spec(v, out)),
{
    lemma_extract(v, out);
    lemma_at_most_five(out, extract_spec(v, out));
}

} // verus!
