//! The bot's data: commands, timers, giveaways, automations, media clips,
//! variables, import previews and results.
use vstd::prelude::*;

verus! {

/// Application settings as the settings screen shows them.
#[derive(Debug, Clone)]
pub struct AppSettings {
    pub client_id: String,
    pub channel: String,
    pub bot_login: String,
    pub account_mode: String,
    pub setup_complete: bool,
    pub confirm_giveaway_entry: bool,
    pub timers_live_only: bool,
    pub theme: String,
}

/// Answer of Twitch's device-code login start.
#[derive(Debug, Clone)]
pub struct DeviceCodeResponse {
    pub device_code: String,
    pub user_code: String,
    pub verification_uri: String,
    pub interval: u64,
    pub expires_in: u64,
}

#[derive(Debug, Clone)]
pub struct TwitchUser {
    pub id: String,
    pub login: String,
    pub display_name: String,
}

/// A chat command such as `!discord`.
#[derive(Debug, Clone)]
pub struct ChatCommand {
    pub id: String,
    pub name: String,
    pub aliases: String,
    pub response: String,
    pub enabled: bool,
    pub permission: String,
    pub global_cooldown: i64,
    pub user_cooldown: i64,
    pub media_id: Option<String>,
}

/// A sound, image, gif or video that the overlay can play.
#[derive(Debug, Clone)]
pub struct MediaClip {
    pub id: String,
    pub name: String,
    pub media_type: String,
    pub file_name: String,
    pub duration_ms: i64,
    pub volume: i64,
    /// Grid placement on the 16×9 overlay canvas (0-based).
    pub overlay_x: i64,
    pub overlay_y: i64,
    pub overlay_w: i64,
    pub overlay_h: i64,
    /// Image only: stays on the overlay until replaced.
    pub always_show: bool,
    /// `#RRGGBB` colour to key out; empty means off.
    pub chroma_key: String,
    /// Colour distance tolerance for the chroma key (0–120).
    pub chroma_tolerance: i64,
}

pub const OVERLAY_GRID_W: i64 = 16;
pub const OVERLAY_GRID_H: i64 = 9;

/// Default grid column of a new clip.
pub fn default_overlay_x() -> (r: i64)
    ensures
        r == 4,
{
    4
}

/// Default grid row of a new clip.
pub fn default_overlay_y() -> (r: i64)
    ensures
        r == 2,
{
    2
}

/// Default grid width of a new clip.
pub fn default_overlay_w() -> (r: i64)
    ensures
        r == 8,
{
    8
}

/// Default grid height of a new clip.
pub fn default_overlay_h() -> (r: i64)
    ensures
        r == 5,
{
    5
}

/// Default chroma-key tolerance.
pub fn default_chroma_tolerance() -> (r: i64)
    ensures
        r == 64,
{
    64
}

/// Default theme of the settings screen.
pub fn default_theme() -> (r: String)
    ensures
        r@ == "dark"@,
{
    crate::text::own("dark")
}

#[derive(Debug, Clone)]
pub struct OverlayInfo {
    pub url: String,
    pub port: u16,
    pub running: bool,
}

/// A message posted to chat on a schedule.
#[derive(Debug, Clone)]
pub struct ChatTimer {
    pub id: String,
    pub name: String,
    pub message: String,
    pub interval_mins: i64,
    pub min_chat_lines: i64,
    pub enabled: bool,
    pub live_only: bool,
}

/// A giveaway definition.
#[derive(Debug, Clone)]
pub struct Giveaway {
    pub id: String,
    pub title: String,
    pub prize: String,
    pub entry_command: String,
    pub draw_command: String,
    pub duration_mins: Option<i64>,
    pub winner_count: i64,
    pub eligibility: String,
    pub exclude_mods: bool,
    pub confirm_entry: bool,
    pub announce_template: String,
    pub enabled: bool,
}

#[derive(Debug, Clone)]
pub struct GiveawayWinner {
    pub user_id: String,
    pub login: String,
}

/// The open giveaway run with its definition, entries and winners.
#[derive(Debug, Clone)]
pub struct ActiveGiveawayView {
    pub giveaway: Giveaway,
    pub run_id: String,
    pub status: String,
    pub started_at: String,
    pub ends_at: Option<String>,
    pub entry_count: i64,
    pub winners: Vec<GiveawayWinner>,
}

/// A closed giveaway run that has winners.
#[derive(Debug, Clone)]
pub struct GiveawayRunHistory {
    pub run_id: String,
    pub giveaway_id: String,
    pub title: String,
    pub prize: String,
    pub started_at: String,
    pub ends_at: Option<String>,
    pub entry_count: i64,
    pub winners: Vec<GiveawayWinner>,
}

/// An action run when a trigger (subscribe, raid, cheer, ...) fires.
#[derive(Debug, Clone)]
pub struct Automation {
    pub id: String,
    pub name: String,
    pub trigger_type: String,
    pub action_type: String,
    pub action_payload: String,
    pub enabled: bool,
    pub cooldown_secs: i64,
}

/// A `${name}` variable that responses can use.
#[derive(Debug, Clone)]
pub struct CustomVariable {
    pub id: String,
    pub name: String,
    pub value: String,
}

/// What a StreamElements export holds that can be imported.
#[derive(Debug, Clone)]
pub struct SeImportPreview {
    pub commands: Vec<SeCommandPreview>,
    pub timers: Vec<SeTimerPreview>,
    pub variables: Vec<SeVariablePreview>,
    pub automations: Vec<SeAutomationPreview>,
}

#[derive(Debug, Clone)]
pub struct SeCommandPreview {
    pub id: String,
    pub name: String,
    pub response: String,
    pub enabled: bool,
}

#[derive(Debug, Clone)]
pub struct SeTimerPreview {
    pub id: String,
    pub name: String,
    pub message: String,
    pub interval: i64,
    pub enabled: bool,
}

#[derive(Debug, Clone)]
pub struct SeVariablePreview {
    pub id: String,
    pub name: String,
    pub value: String,
}

#[derive(Debug, Clone)]
pub struct SeAutomationPreview {
    pub id: String,
    pub name: String,
    pub trigger_type: String,
    pub action_payload: String,
    pub enabled: bool,
}

/// Counts of an import or a restore.
#[derive(Debug, Clone)]
pub struct ImportResult {
    pub imported_commands: usize,
    pub imported_timers: usize,
    pub imported_giveaways: usize,
    pub imported_automations: usize,
    pub imported_variables: usize,
    pub skipped: usize,
}

/// What a backup file holds, before it is restored.
#[derive(Debug, Clone)]
pub struct BackupPreview {
    pub commands: usize,
    pub timers: usize,
    pub giveaways: usize,
    pub automations: usize,
    pub variables: usize,
    pub exported_at: String,
}

/// One chat line, as the bot sees it.
#[derive(Debug, Clone)]
pub struct IncomingChat {
    pub user_id: String,
    pub login: String,
    pub display: String,
    pub message: String,
    pub is_mod: bool,
    pub is_vip: bool,
    pub is_sub: bool,
    pub is_broadcaster: bool,
    pub bits: u64,
}

/// State of the Stream Deck integration.
#[derive(Debug, Clone)]
pub struct StreamDeckStatus {
    pub installed: bool,
    pub install_path: Option<String>,
    pub control_enabled: bool,
    pub control_port: u16,
    pub control_running: bool,
    pub has_token: bool,
    pub supported: bool,
    pub message: String,
}

impl IncomingChat {
    /// A chat line attributed to nobody in particular, as timers and
    /// automations use it to fill in templates.
    pub fn anonymous(login: String, display: String) -> (r: IncomingChat)
        ensures
            r.user_id@ == Seq::<char>::empty(),
            r.login == login,
            r.display == display,
            r.message@ == Seq::<char>::empty(),
            !r.is_mod && !r.is_vip && !r.is_sub && !r.is_broadcaster,
            r.bits == 0,
    {
        IncomingChat {
            user_id: String::new(),
            login,
            display,
            message: String::new(),
            is_mod: false,
            is_vip: false,
            is_sub: false,
            is_broadcaster: false,
            bits: 0,
        }
    }
}

} // verus!
