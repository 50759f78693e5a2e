//! What the bot stores: how records are normalised before they are saved,
//! how media clips are looked up, and how settings are read and written.
use vstd::prelude::*;
use crate::ids;
use crate::models::{AppSettings, Automation, ChatCommand, ChatTimer, CustomVariable, Giveaway, MediaClip};
use crate::table::KeyTable;
use crate::text;

verus! {

// ---------------------------------------------------------------------------
// Names
// ---------------------------------------------------------------------------

/// A variable name as stored: trimmed, without `${`, `}` or `$` around it,
/// lower-cased.
pub open spec fn var_name_spec(s: Seq<char>) -> Seq<char> {
    text::lower(text::trim_seq(text::strip_prefixes(
        text::strip_suffixes(text::strip_prefixes(text::trim_seq(s), seq!['$', '{']), seq!['}']),
        seq!['$'],
    )))
}

/// Normalises a variable name (`${Name}` → `name`).
pub fn normalize_var_name(s: &str) -> (r: String)
    ensures
        r@ == var_name_spec(s@),
{
    proof {
        reveal_strlit("${");
        reveal_strlit("}");
        reveal_strlit("$");
    }
    assert("${"@ =~= seq!['$', '{']);
    assert("}"@ =~= seq!['}']);
    assert("$"@ =~= seq!['$']);
    let a = text::trim(s);
    let b = text::trim_start_matches(a.as_str(), "${");
    let c = text::trim_end_matches(b.as_str(), "}");
    let d = text::trim_start_matches(c.as_str(), "$");
    let e = text::trim(d.as_str());
    text::to_lower(e.as_str())
}

/// A giveaway command as stored: trimmed, lower-cased, with a leading `!`
/// unless empty.
pub open spec fn cmd_spec(s: Seq<char>) -> Seq<char> {
    let t = text::lower(text::trim_seq(s));
    if text::starts_with_seq(t, seq!['!']) || t.len() == 0 {
        t
    } else {
        seq!['!'] + t
    }
}

/// Normalises a giveaway command (`Enter` → `!enter`).
pub fn normalize_cmd(s: &str) -> (r: String)
    ensures
        r@ == cmd_spec(s@),
{
    let a = text::trim(s);
    let t = text::to_lower(a.as_str());
    proof { reveal_strlit("!"); }
    assert("!"@ =~= seq!['!']);
    if text::starts_with(t.as_str(), "!") || t.as_str().is_empty() {
        t
    } else {
        text::concat("!", t.as_str())
    }
}

/// A command name as stored: trimmed, without leading `!`, lower-cased.
pub open spec fn command_name_spec(s: Seq<char>) -> Seq<char> {
    text::lower(text::strip_prefixes(text::trim_seq(s), seq!['!']))
}

pub fn command_name(s: &str) -> (r: String)
    ensures
        r@ == command_name_spec(s@),
{
    let a = text::trim(s);
    proof { reveal_strlit("!"); }
    assert("!"@ =~= seq!['!']);
    let b = text::trim_start_matches(a.as_str(), "!");
    text::to_lower(b.as_str())
}

// ---------------------------------------------------------------------------
// Records before they are saved
// ---------------------------------------------------------------------------

/// The identifier a saved record gets: its own, or a new one when empty.
pub open spec fn keeps_or_new_id(old_id: String, new_id: String) -> bool {
    &&& old_id@.len() > 0 ==> new_id == old_id
    &&& old_id@.len() == 0 ==> ids::is_uuid_text(new_id@)
}

/// A command as it is saved: a new id when it has none, its name
/// normalised, and a blank media reference dropped.
pub fn prepare_command(cmd: ChatCommand) -> (r: ChatCommand)
    ensures
        keeps_or_new_id(cmd.id, r.id),
        r.name@ == command_name_spec(cmd.name@),
        r.aliases == cmd.aliases,
        r.response == cmd.response,
        r.enabled == cmd.enabled,
        r.permission == cmd.permission,
        r.global_cooldown == cmd.global_cooldown,
        r.user_cooldown == cmd.user_cooldown,
        r.media_id == match cmd.media_id {
            Some(m) => if text::trim_seq(m@).len() == 0 { None } else { Some(m) },
            None => None,
        },
{
    let name = command_name(cmd.name.as_str());
    let media_id = match cmd.media_id {
        Some(m) => {
            let t = text::trim(m.as_str());
            if t.as_str().is_empty() { None } else { Some(m) }
        },
        None => None,
    };
    ChatCommand {
        id: ids::id_or_new(cmd.id),
        name,
        aliases: cmd.aliases,
        response: cmd.response,
        enabled: cmd.enabled,
        permission: cmd.permission,
        global_cooldown: cmd.global_cooldown,
        user_cooldown: cmd.user_cooldown,
        media_id,
    }
}

/// A timer as it is saved: a new id when it has none.
pub fn prepare_timer(t: ChatTimer) -> (r: ChatTimer)
    ensures
        keeps_or_new_id(t.id, r.id),
        r.name == t.name,
        r.message == t.message,
        r.interval_mins == t.interval_mins,
        r.min_chat_lines == t.min_chat_lines,
        r.enabled == t.enabled,
        r.live_only == t.live_only,
{
    ChatTimer { id: ids::id_or_new(t.id), ..t }
}

/// A giveaway as it is saved: a new id when it has none, its entry and draw
/// commands normalised.
pub fn prepare_giveaway(g: Giveaway) -> (r: Giveaway)
    ensures
        keeps_or_new_id(g.id, r.id),
        r.entry_command@ == cmd_spec(g.entry_command@),
        r.draw_command@ == cmd_spec(g.draw_command@),
        r.title == g.title,
        r.prize == g.prize,
        r.duration_mins == g.duration_mins,
        r.winner_count == g.winner_count,
        r.eligibility == g.eligibility,
        r.exclude_mods == g.exclude_mods,
        r.confirm_entry == g.confirm_entry,
        r.announce_template == g.announce_template,
        r.enabled == g.enabled,
{
    let entry = normalize_cmd(g.entry_command.as_str());
    let draw = normalize_cmd(g.draw_command.as_str());
    Giveaway { id: ids::id_or_new(g.id), entry_command: entry, draw_command: draw, ..g }
}

/// An automation as it is saved: a new id when it has none.
pub fn prepare_automation(a: Automation) -> (r: Automation)
    ensures
        keeps_or_new_id(a.id, r.id),
        r.name == a.name,
        r.trigger_type == a.trigger_type,
        r.action_type == a.action_type,
        r.action_payload == a.action_payload,
        r.enabled == a.enabled,
        r.cooldown_secs == a.cooldown_secs,
{
    Automation { id: ids::id_or_new(a.id), ..a }
}

/// A media clip as it is saved: a new id when it has none, its name trimmed
/// (required), its volume clamped to 0..=100 and its duration at least 500 ms.
pub fn prepare_media(clip: MediaClip) -> (r: Result<MediaClip, String>)
    ensures
        text::trim_seq(clip.name@).len() == 0 <==> r is Err,
        r matches Err(e) ==> e@ == "Media name is required"@,
        r matches Ok(c) ==> {
            &&& keeps_or_new_id(clip.id, c.id)
            &&& c.name@ == text::trim_seq(clip.name@)
            &&& c.volume == (if clip.volume < 0 { 0 } else if clip.volume > 100 { 100 } else { clip.volume })
            &&& c.duration_ms == (if clip.duration_ms < 500 { 500 } else { clip.duration_ms })
            &&& c.media_type == clip.media_type
            &&& c.file_name == clip.file_name
            &&& c.overlay_x == clip.overlay_x && c.overlay_y == clip.overlay_y
            &&& c.overlay_w == clip.overlay_w && c.overlay_h == clip.overlay_h
            &&& c.always_show == clip.always_show
            &&& c.chroma_key == clip.chroma_key
            &&& c.chroma_tolerance == clip.chroma_tolerance
        },
{
    let id = ids::id_or_new(clip.id);
    let name = text::trim(clip.name.as_str());
    if name.as_str().is_empty() {
        return Err(text::own("Media name is required"));
    }
    let volume = if clip.volume < 0 { 0 } else if clip.volume > 100 { 100 } else { clip.volume };
    let duration_ms = if clip.duration_ms < 500 { 500 } else { clip.duration_ms };
    Ok(MediaClip { id, name, volume, duration_ms, ..clip })
}

/// A variable as it is saved: a new id when it has none, its name
/// normalised (required).
pub fn prepare_variable(v: CustomVariable) -> (r: Result<CustomVariable, String>)
    ensures
        var_name_spec(v.name@).len() == 0 <==> r is Err,
        r matches Err(e) ==> e@ == "Variable name is required"@,
        r matches Ok(x) ==> keeps_or_new_id(v.id, x.id) && x.name@ == var_name_spec(v.name@) && x.value == v.value,
{
    let id = ids::id_or_new(v.id);
    let name = normalize_var_name(v.name.as_str());
    if name.as_str().is_empty() {
        return Err(text::own("Variable name is required"));
    }
    Ok(CustomVariable { id, name, value: v.value })
}

/// The command list as stored: an empty media reference reads as none.
pub fn stored_media_id(m: Option<String>) -> (r: Option<String>)
    ensures
        r == match m {
            Some(s) => if s@.len() > 0 { Some(s) } else { None },
            None => None,
        },
{
    match m {
        Some(s) => if s.as_str().is_empty() { None } else { Some(s) },
        None => None,
    }
}

// ---------------------------------------------------------------------------
// Media lookup
// ---------------------------------------------------------------------------

/// The clip answers to `key` (already trimmed and lower-cased): by name,
/// ignoring ASCII case, or by id.
pub open spec fn clip_answers(c: MediaClip, key: Seq<char>) -> bool {
    text::eq_ignore_ascii_case_seq(c.name@, key) || c.id@ == key
}

/// Index of the first clip whose name (ignoring case) or id is `name`
/// trimmed and lower-cased.
pub fn media_by_name(clips: &Vec<MediaClip>, name: &str) -> (r: Option<usize>)
    ensures
        r matches Some(k) ==> k < clips.len() && clip_answers(clips@[k as int], text::lower(text::trim_seq(name@)))
            && forall|j: int| 0 <= j < k ==> !clip_answers(clips@[j], text::lower(text::trim_seq(name@))),
        r is None ==> forall|j: int| 0 <= j < clips.len() ==> !clip_answers(clips@[j], text::lower(text::trim_seq(name@))),
{
    let t = text::trim(name);
    let key = text::to_lower(t.as_str());
    let mut i: usize = 0;
    while i < clips.len()
        invariant
            i <= clips.len(),
            key@ == text::lower(text::trim_seq(name@)),
            forall|j: int| 0 <= j < i ==> !clip_answers(clips@[j], key@),
        decreases clips.len() - i,
    {
        if text::eq_ignore_ascii_case(clips[i].name.as_str(), key.as_str())
            || text::str_eq(clips[i].id.as_str(), key.as_str()) {
            return Some(i);
        }
        i += 1;
    }
    None
}

// ---------------------------------------------------------------------------
// Settings
// ---------------------------------------------------------------------------

/// The settings table: setting values by key.
pub type SettingsStore = KeyTable<String>;

/// The settings table's values as text.
pub open spec fn store_view(t: Map<Seq<char>, String>) -> Map<Seq<char>, Seq<char>> {
    t.map_values(|v: String| v@)
}

pub open spec fn get_or(m: Map<Seq<char>, Seq<char>>, key: Seq<char>, dflt: Seq<char>) -> Seq<char> {
    if m.dom().contains(key) { m[key] } else { dflt }
}

pub open spec fn is_flag_on(m: Map<Seq<char>, Seq<char>>, key: Seq<char>) -> bool {
    m.dom().contains(key) && m[key] == "1"@
}

/// The settings, as their texts.
pub struct SettingsView {
    pub client_id: Seq<char>,
    pub channel: Seq<char>,
    pub bot_login: Seq<char>,
    pub account_mode: Seq<char>,
    pub setup_complete: bool,
    pub confirm_giveaway_entry: bool,
    pub timers_live_only: bool,
    pub theme: Seq<char>,
}

pub open spec fn settings_view(s: AppSettings) -> SettingsView {
    SettingsView {
        client_id: s.client_id@,
        channel: s.channel@,
        bot_login: s.bot_login@,
        account_mode: s.account_mode@,
        setup_complete: s.setup_complete,
        confirm_giveaway_entry: s.confirm_giveaway_entry,
        timers_live_only: s.timers_live_only,
        theme: s.theme@,
    }
}

/// The settings that a settings table holds: missing texts read as empty,
/// the account mode as `streamer`, entry confirmation as on unless `0`,
/// the theme as `dark` unless it is `light` or `dark`.
pub open spec fn settings_read(m: Map<Seq<char>, Seq<char>>) -> SettingsView {
    SettingsView {
        client_id: get_or(m, "client_id"@, Seq::empty()),
        channel: get_or(m, "channel"@, Seq::empty()),
        bot_login: get_or(m, "bot_login"@, Seq::empty()),
        account_mode: get_or(m, "account_mode"@, "streamer"@),
        setup_complete: is_flag_on(m, "setup_complete"@),
        confirm_giveaway_entry: !(m.dom().contains("confirm_giveaway_entry"@) && m["confirm_giveaway_entry"@] == "0"@),
        timers_live_only: is_flag_on(m, "timers_live_only"@),
        theme: if m.dom().contains("theme"@) && (m["theme"@] == "light"@ || m["theme"@] == "dark"@) {
            m["theme"@]
        } else {
            "dark"@
        },
    }
}

pub open spec fn flag_text(b: bool) -> Seq<char> {
    if b { "1"@ } else { "0"@ }
}

/// The settings table after the settings screen saves `s`: channel and bot
/// login lower-cased, flags as `1`/`0`, the theme `light` or else `dark`.
pub open spec fn settings_written(m: Map<Seq<char>, Seq<char>>, s: SettingsView) -> Map<Seq<char>, Seq<char>> {
    m.insert("client_id"@, s.client_id)
        .insert("channel"@, text::lower(s.channel))
        .insert("bot_login"@, text::lower(s.bot_login))
        .insert("account_mode"@, s.account_mode)
        .insert("setup_complete"@, flag_text(s.setup_complete))
        .insert("confirm_giveaway_entry"@, flag_text(s.confirm_giveaway_entry))
        .insert("timers_live_only"@, flag_text(s.timers_live_only))
        .insert("theme"@, if s.theme == "light"@ { "light"@ } else { "dark"@ })
}

/// The settings as saving makes them.
pub open spec fn settings_normalized(s: SettingsView) -> SettingsView {
    SettingsView {
        channel: text::lower(s.channel),
        bot_login: text::lower(s.bot_login),
        theme: if s.theme == "light"@ { "light"@ } else { "dark"@ },
        ..s
    }
}

fn setting_or(store: &SettingsStore, key: &str, dflt: &str) -> (r: String)
    requires
        store.wf(),
    ensures
        r@ == get_or(store_view(store.view()), key@, dflt@),
{
    match store.get(key) {
        Some(v) => v.clone(),
        None => text::own(dflt),
    }
}

fn setting_is(store: &SettingsStore, key: &str, val: &str) -> (r: bool)
    requires
        store.wf(),
    ensures
        r == (store_view(store.view()).dom().contains(key@) && store_view(store.view())[key@] == val@),
{
    match store.get(key) {
        Some(v) => text::str_eq(v.as_str(), val),
        None => false,
    }
}

/// Reads the settings from the settings table.
pub fn get_settings(store: &SettingsStore) -> (r: AppSettings)
    requires
        store.wf(),
    ensures
        settings_view(r) == settings_read(store_view(store.view())),
{
    proof { reveal_strlit(""); }
    assert(""@ =~= Seq::<char>::empty());
    let theme = if setting_is(store, "theme", "light") || setting_is(store, "theme", "dark") {
        setting_or(store, "theme", "dark")
    } else {
        text::own("dark")
    };
    AppSettings {
        client_id: setting_or(store, "client_id", ""),
        channel: setting_or(store, "channel", ""),
        bot_login: setting_or(store, "bot_login", ""),
        account_mode: setting_or(store, "account_mode", "streamer"),
        setup_complete: setting_is(store, "setup_complete", "1"),
        confirm_giveaway_entry: !setting_is(store, "confirm_giveaway_entry", "0"),
        timers_live_only: setting_is(store, "timers_live_only", "1"),
        theme,
    }
}

fn set_setting(store: &mut SettingsStore, key: &str, value: String)
    requires
        old(store).wf(),
    ensures
        final(store).wf(),
        store_view(final(store).view()) == store_view(old(store).view()).insert(key@, value@),
{
    let ghost v = value@;
    store.insert(text::own(key), value);
    assert(store_view(store.view()) =~= store_view(old(store).view()).insert(key@, v));
}

fn flag(b: bool) -> (r: String)
    ensures
        r@ == flag_text(b),
{
    if b { text::own("1") } else { text::own("0") }
}

/// Saves the settings screen to the settings table.
pub fn save_settings(store: &mut SettingsStore, settings: &AppSettings)
    requires
        old(store).wf(),
    ensures
        final(store).wf(),
        store_view(final(store).view()) == settings_written(store_view(old(store).view()), settings_view(*settings)),
{
    set_setting(store, "client_id", settings.client_id.clone());
    set_setting(store, "channel", text::to_lower(settings.channel.as_str()));
    set_setting(store, "bot_login", text::to_lower(settings.bot_login.as_str()));
    set_setting(store, "account_mode", settings.account_mode.clone());
    set_setting(store, "setup_complete", flag(settings.setup_complete));
    set_setting(store, "confirm_giveaway_entry", flag(settings.confirm_giveaway_entry));
    set_setting(store, "timers_live_only", flag(settings.timers_live_only));
    let theme = if text::str_eq(settings.theme.as_str(), "light") { text::own("light") } else { text::own("dark") };
    set_setting(store, "theme", theme);
}

/// Law: reading the settings after saving them gives back what was saved,
/// with the channel and bot login lower-cased and the theme `light` or else
/// `dark`, whatever the table held before.
pub proof fn settings_read_after_save(m: Map<Seq<char>, Seq<char>>, s: SettingsView)
    ensures
        settings_read(settings_written(m, s)) == settings_normalized(s),
{
    reveal_strlit("client_id");
    reveal_strlit("channel");
    reveal_strlit("bot_login");
    reveal_strlit("account_mode");
    reveal_strlit("setup_complete");
    reveal_strlit("confirm_giveaway_entry");
    reveal_strlit("timers_live_only");
    reveal_strlit("theme");
    reveal_strlit("light");
    reveal_strlit("dark");
    reveal_strlit("0");
    reveal_strlit("1");
    assert("client_id"@.len() == 9 && "bot_login"@.len() == 9);
    assert("client_id"@[0] != "bot_login"@[0]);
    assert("channel"@.len() == 7 && "account_mode"@.len() == 12 && "setup_complete"@.len() == 14);
    assert("confirm_giveaway_entry"@.len() == 22 && "timers_live_only"@.len() == 16 && "theme"@.len() == 5);
    assert("light"@[0] != "dark"@[0]);
    assert("0"@[0] != "1"@[0]);
    let w = settings_written(m, s);
    assert(settings_read(w) =~= settings_normalized(s));
}

} // verus!
