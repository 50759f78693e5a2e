//! Backups: what a backup file holds, its preview, and what a restore
//! saves.
use vstd::prelude::*;
use crate::clock;
use crate::ids;
use crate::models::{Automation, BackupPreview, ChatCommand, ChatTimer, CustomVariable, Giveaway, ImportResult};
use crate::text;

verus! {

/// The format version written into new backups.
pub const BACKUP_VERSION: u32 = 2;

/// The ZIP entry that holds the backup.
pub const BACKUP_ENTRY: &'static str = "backup.json";

/// The contents of a backup.
#[derive(Debug)]
pub struct BackupFile {
    pub version: u32,
    pub exported_at: String,
    pub commands: Vec<ChatCommand>,
    pub timers: Vec<ChatTimer>,
    pub giveaways: Vec<Giveaway>,
    pub automations: Vec<Automation>,
    pub variables: Vec<CustomVariable>,
}

/// A backup of the given records, stamped with the current time.
pub fn new_backup(
    commands: Vec<ChatCommand>,
    timers: Vec<ChatTimer>,
    giveaways: Vec<Giveaway>,
    automations: Vec<Automation>,
    variables: Vec<CustomVariable>,
) -> (r: BackupFile)
    ensures
        r.version == BACKUP_VERSION,
        r.commands == commands,
        r.timers == timers,
        r.giveaways == giveaways,
        r.automations == automations,
        r.variables == variables,
{
    BackupFile { version: BACKUP_VERSION, exported_at: clock::now_rfc3339(), commands, timers, giveaways, automations, variables }
}

/// Of the entries of a backup ZIP, the first one named `…backup.json`.
pub fn backup_entry_index(names: &Vec<String>) -> (r: Result<usize, String>)
    ensures
        r matches Ok(i) ==> i < names@.len() && text::ends_with_seq(names@[i as int]@, BACKUP_ENTRY@)
            && forall|j: int| 0 <= j < i ==> !text::ends_with_seq((#[trigger] names@[j])@, BACKUP_ENTRY@),
        r matches Err(e) ==> e@ == "Invalid backup: missing backup.json"@
            && forall|j: int| 0 <= j < names@.len() ==> !text::ends_with_seq((#[trigger] names@[j])@, BACKUP_ENTRY@),
{
    let mut i: usize = 0;
    while i < names.len()
        invariant
            i <= names.len(),
            forall|j: int| 0 <= j < i ==> !text::ends_with_seq((#[trigger] names@[j])@, BACKUP_ENTRY@),
        decreases names.len() - i,
    {
        if text::ends_with(names[i].as_str(), BACKUP_ENTRY) {
            return Ok(i);
        }
        i += 1;
    }
    Err(text::own("Invalid backup: missing backup.json"))
}

/// How many records of each kind a backup holds, and when it was made.
pub fn preview_backup(b: &BackupFile) -> (r: BackupPreview)
    ensures
        r.commands == b.commands@.len(),
        r.timers == b.timers@.len(),
        r.giveaways == b.giveaways@.len(),
        r.automations == b.automations@.len(),
        r.variables == b.variables@.len(),
        r.exported_at == b.exported_at,
{
    BackupPreview {
        commands: b.commands.len(),
        timers: b.timers.len(),
        giveaways: b.giveaways.len(),
        automations: b.automations.len(),
        variables: b.variables.len(),
        exported_at: b.exported_at.clone(),
    }
}

// ---------------------------------------------------------------------------
// Restore
// ---------------------------------------------------------------------------

/// A stored record, which has an id.
pub trait Record: Sized {
    spec fn record_id(&self) -> String;

    /// The record with another id.
    spec fn with_id(self, id: String) -> Self;

    fn replace_id(self, id: String) -> (r: Self)
        ensures
            r == self.with_id(id),
            r.record_id() == id,
    ;
}

impl Record for ChatCommand {
    open spec fn record_id(&self) -> String {
        self.id
    }

    open spec fn with_id(self, id: String) -> Self {
        ChatCommand { id, ..self }
    }

    fn replace_id(self, id: String) -> (r: Self) {
        ChatCommand { id, ..self }
    }
}

impl Record for ChatTimer {
    open spec fn record_id(&self) -> String {
        self.id
    }

    open spec fn with_id(self, id: String) -> Self {
        ChatTimer { id, ..self }
    }

    fn replace_id(self, id: String) -> (r: Self) {
        ChatTimer { id, ..self }
    }
}

impl Record for Giveaway {
    open spec fn record_id(&self) -> String {
        self.id
    }

    open spec fn with_id(self, id: String) -> Self {
        Giveaway { id, ..self }
    }

    fn replace_id(self, id: String) -> (r: Self) {
        Giveaway { id, ..self }
    }
}

impl Record for Automation {
    open spec fn record_id(&self) -> String {
        self.id
    }

    open spec fn with_id(self, id: String) -> Self {
        Automation { id, ..self }
    }

    fn replace_id(self, id: String) -> (r: Self) {
        Automation { id, ..self }
    }
}

impl Record for CustomVariable {
    open spec fn record_id(&self) -> String {
        self.id
    }

    open spec fn with_id(self, id: String) -> Self {
        CustomVariable { id, ..self }
    }

    fn replace_id(self, id: String) -> (r: Self) {
        CustomVariable { id, ..self }
    }
}

/// The rows a restore saves of one kind: when it replaces, the backup's
/// records as they are; else the same records under new ids.
pub open spec fn restored_rows<T: Record>(src: Seq<T>, replace: bool, rows: Seq<T>) -> bool {
    &&& rows.len() == src.len()
    &&& forall|i: int| 0 <= i < src.len() ==> {
        &&& replace ==> #[trigger] rows[i] == src[i]
        &&& !replace ==> ids::is_uuid_text(rows[i].record_id()@) && rows[i] == src[i].with_id(rows[i].record_id())
    }
}

fn restore_rows<T: Record>(src: Vec<T>, replace: bool) -> (r: Vec<T>)
    ensures
        restored_rows(src@, replace, r@),
{
    if replace {
        return src;
    }
    let ghost s = src@;
    let mut out: Vec<T> = Vec::new();
    for row in it: src.into_iter()
        invariant
            it.seq() == s,
            out@.len() == it.index(),
            forall|i: int| 0 <= i < out@.len() ==> ids::is_uuid_text((#[trigger] out@[i]).record_id()@)
                && out@[i] == s[i].with_id(out@[i].record_id()),
    {
        out.push(row.replace_id(ids::new_id()));
    }
    out
}

/// What a restore includes, and whether it replaces what is stored.
#[derive(Debug, Clone, Copy)]
pub struct RestoreOptions {
    pub include_commands: bool,
    pub include_timers: bool,
    pub include_giveaways: bool,
    pub include_automations: bool,
    pub include_variables: bool,
    pub replace: bool,
}

/// What a restore does: which kinds it first empties, the rows it then
/// saves, and its counts.
#[derive(Debug)]
pub struct RestorePlan {
    pub clear_commands: bool,
    pub clear_timers: bool,
    pub clear_giveaways: bool,
    pub clear_automations: bool,
    pub clear_variables: bool,
    pub commands: Vec<ChatCommand>,
    pub timers: Vec<ChatTimer>,
    pub giveaways: Vec<Giveaway>,
    pub automations: Vec<Automation>,
    pub variables: Vec<CustomVariable>,
    pub result: ImportResult,
}

/// The rows of one kind a restore saves: none when the kind is not
/// included.
pub open spec fn kind_rows<T: Record>(wanted: bool, src: Seq<T>, replace: bool, rows: Seq<T>) -> bool {
    if wanted { restored_rows(src, replace, rows) } else { rows.len() == 0 }
}

fn kind_plan<T: Record>(wanted: bool, src: Vec<T>, replace: bool) -> (r: Vec<T>)
    ensures
        kind_rows(wanted, src@, replace, r@),
{
    if wanted { restore_rows(src, replace) } else { Vec::new() }
}

/// Restores a backup: each included kind is emptied first when the restore
/// replaces, then the backup's records of that kind are saved (under new ids
/// when it does not replace); kinds not included are left alone. Nothing is
/// skipped.
pub fn plan_restore(b: BackupFile, opts: RestoreOptions) -> (r: RestorePlan)
    ensures
        r.clear_commands == (opts.include_commands && opts.replace),
        r.clear_timers == (opts.include_timers && opts.replace),
        r.clear_giveaways == (opts.include_giveaways && opts.replace),
        r.clear_automations == (opts.include_automations && opts.replace),
        r.clear_variables == (opts.include_variables && opts.replace),
        kind_rows(opts.include_commands, b.commands@, opts.replace, r.commands@),
        kind_rows(opts.include_timers, b.timers@, opts.replace, r.timers@),
        kind_rows(opts.include_giveaways, b.giveaways@, opts.replace, r.giveaways@),
        kind_rows(opts.include_automations, b.automations@, opts.replace, r.automations@),
        kind_rows(opts.include_variables, b.variables@, opts.replace, r.variables@),
        r.result.imported_commands == r.commands@.len(),
        r.result.imported_timers == r.timers@.len(),
        r.result.imported_giveaways == r.giveaways@.len(),
        r.result.imported_automations == r.automations@.len(),
        r.result.imported_variables == r.variables@.len(),
        r.result.skipped == 0,
{
    let replace = opts.replace;
    let commands = kind_plan(opts.include_commands, b.commands, replace);
    let timers = kind_plan(opts.include_timers, b.timers, replace);
    let giveaways = kind_plan(opts.include_giveaways, b.giveaways, replace);
    let automations = kind_plan(opts.include_automations, b.automations, replace);
    let variables = kind_plan(opts.include_variables, b.variables, replace);
    let result = ImportResult {
        imported_commands: commands.len(),
        imported_timers: timers.len(),
        imported_giveaways: giveaways.len(),
        imported_automations: automations.len(),
        imported_variables: variables.len(),
        skipped: 0,
    };
    RestorePlan {
        clear_commands: opts.include_commands && replace,
        clear_timers: opts.include_timers && replace,
        clear_giveaways: opts.include_giveaways && replace,
        clear_automations: opts.include_automations && replace,
        clear_variables: opts.include_variables && replace,
        commands,
        timers,
        giveaways,
        automations,
        variables,
        result,
    }
}


// ---------------------------------------------------------------------------
// Laws
// ---------------------------------------------------------------------------

/// Law: a restore saves what the preview counted. For each kind a restore
/// includes, it saves exactly as many records as the backup's preview
/// shows, each with the backup's content. A restore that replaces writes
/// back exactly the records the backup holds (for a backup made by
/// `new_backup`, the records it was made from); otherwise only the ids are
/// new.
pub proof fn restore_saves_what_preview_counts<T: Record>(src: Seq<T>, replace: bool, rows: Seq<T>)
    requires
        kind_rows(true, src, replace, rows),
    ensures
        rows.len() == src.len(),
        replace ==> rows == src,
        !replace ==> forall|i: int| 0 <= i < rows.len() ==> #[trigger] rows[i] == src[i].with_id(rows[i].record_id())
            && ids::is_uuid_text(rows[i].record_id()@),
{
    if replace {
        assert(rows =~= src);
    }
}

/// Law: a restore that merges changes nothing of a command but its id.
/// Each restored command has a fresh id and every other field (name,
/// aliases, response, enabled, permission, cooldowns, media) of the backup's
/// command in the same place.
pub proof fn merge_restore_keeps_commands(src: Seq<ChatCommand>, rows: Seq<ChatCommand>)
    requires
        kind_rows(true, src, false, rows),
    ensures
        rows.len() == src.len(),
        forall|i: int| 0 <= i < rows.len() ==> {
            &&& ids::is_uuid_text((#[trigger] rows[i]).id@)
            &&& rows[i].name == src[i].name
            &&& rows[i].aliases == src[i].aliases
            &&& rows[i].response == src[i].response
            &&& rows[i].enabled == src[i].enabled
            &&& rows[i].permission == src[i].permission
            &&& rows[i].global_cooldown == src[i].global_cooldown
            &&& rows[i].user_cooldown == src[i].user_cooldown
            &&& rows[i].media_id == src[i].media_id
        },
{
    assert forall|i: int| 0 <= i < rows.len() implies rows[i] == src[i].with_id(rows[i].record_id()) by {}
}

/// Law: a restore that merges changes nothing of a timer but its id.
pub proof fn merge_restore_keeps_timers(src: Seq<ChatTimer>, rows: Seq<ChatTimer>)
    requires
        kind_rows(true, src, false, rows),
    ensures
        rows.len() == src.len(),
        forall|i: int| 0 <= i < rows.len() ==> {
            &&& ids::is_uuid_text((#[trigger] rows[i]).id@)
            &&& rows[i].name == src[i].name
            &&& rows[i].message == src[i].message
            &&& rows[i].interval_mins == src[i].interval_mins
            &&& rows[i].min_chat_lines == src[i].min_chat_lines
            &&& rows[i].enabled == src[i].enabled
            &&& rows[i].live_only == src[i].live_only
        },
{
    assert forall|i: int| 0 <= i < rows.len() implies rows[i] == src[i].with_id(rows[i].record_id()) by {}
}

/// Law: a restore that merges changes nothing of a giveaway but its id.
pub proof fn merge_restore_keeps_giveaways(src: Seq<Giveaway>, rows: Seq<Giveaway>)
    requires
        kind_rows(true, src, false, rows),
    ensures
        rows.len() == src.len(),
        forall|i: int| 0 <= i < rows.len() ==> {
            &&& ids::is_uuid_text((#[trigger] rows[i]).id@)
            &&& rows[i].title == src[i].title
            &&& rows[i].prize == src[i].prize
            &&& rows[i].entry_command == src[i].entry_command
            &&& rows[i].draw_command == src[i].draw_command
            &&& rows[i].duration_mins == src[i].duration_mins
            &&& rows[i].winner_count == src[i].winner_count
            &&& rows[i].eligibility == src[i].eligibility
            &&& rows[i].exclude_mods == src[i].exclude_mods
            &&& rows[i].confirm_entry == src[i].confirm_entry
            &&& rows[i].announce_template == src[i].announce_template
            &&& rows[i].enabled == src[i].enabled
        },
{
    assert forall|i: int| 0 <= i < rows.len() implies rows[i] == src[i].with_id(rows[i].record_id()) by {}
}

/// Law: a restore that merges changes nothing of an automation but its id.
pub proof fn merge_restore_keeps_automations(src: Seq<Automation>, rows: Seq<Automation>)
    requires
        kind_rows(true, src, false, rows),
    ensures
        rows.len() == src.len(),
        forall|i: int| 0 <= i < rows.len() ==> {
            &&& ids::is_uuid_text((#[trigger] rows[i]).id@)
            &&& rows[i].name == src[i].name
            &&& rows[i].trigger_type == src[i].trigger_type
            &&& rows[i].action_type == src[i].action_type
            &&& rows[i].action_payload == src[i].action_payload
            &&& rows[i].enabled == src[i].enabled
            &&& rows[i].cooldown_secs == src[i].cooldown_secs
        },
{
    assert forall|i: int| 0 <= i < rows.len() implies rows[i] == src[i].with_id(rows[i].record_id()) by {}
}

/// Law: a restore that merges changes nothing of a variable but its id.
pub proof fn merge_restore_keeps_variables(src: Seq<CustomVariable>, rows: Seq<CustomVariable>)
    requires
        kind_rows(true, src, false, rows),
    ensures
        rows.len() == src.len(),
        forall|i: int| 0 <= i < rows.len() ==> {
            &&& ids::is_uuid_text((#[trigger] rows[i]).id@)
            &&& rows[i].name == src[i].name
            &&& rows[i].value == src[i].value
        },
{
    assert forall|i: int| 0 <= i < rows.len() implies rows[i] == src[i].with_id(rows[i].record_id()) by {}
}

} // verus!
