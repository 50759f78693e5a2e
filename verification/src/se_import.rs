//! Importing the records a user selected from a StreamElements export:
//! which are imported, which are skipped on a name collision, and the rows
//! that are saved for them.
use vstd::prelude::*;
use crate::db;
use crate::ids;
use crate::models::{Automation, ChatCommand, ChatTimer, CustomVariable, ImportResult, SeAutomationPreview};
use crate::se::{self, SeCommand, SeTimer, SeVariable};
use crate::text;

verus! {

// ---------------------------------------------------------------------------
// What happens to one record
// ---------------------------------------------------------------------------

/// What happens to one record of the export.
pub enum ImportFate {
    /// Not selected (or, for a variable, without a usable name): ignored.
    Unselected,
    /// Selected, but a record of that name exists and collisions are skipped.
    Skipped,
    /// Saved.
    Imported,
}

/// One record's outcome, with the row to save when it is imported.
pub enum ImportStep<T> {
    Unselected,
    Skipped,
    Imported(T),
}

pub open spec fn step_fate<T>(s: ImportStep<T>) -> ImportFate {
    match s {
        ImportStep::Unselected => ImportFate::Unselected,
        ImportStep::Skipped => ImportFate::Skipped,
        ImportStep::Imported(_) => ImportFate::Imported,
    }
}

/// A key is selected when one of the selected ids equals it.
pub open spec fn is_selected(key: Seq<char>, sel: Seq<String>) -> bool {
    exists|i: int| 0 <= i < sel.len() && (#[trigger] sel[i])@ == key
}

pub fn selected(key: &str, sel: &Vec<String>) -> (r: bool)
    ensures
        r == is_selected(key@, sel@),
{
    let mut i: usize = 0;
    while i < sel.len()
        invariant
            i <= sel.len(),
            forall|j: int| 0 <= j < i ==> (#[trigger] sel@[j])@ != key@,
        decreases sel.len() - i,
    {
        if text::str_eq(sel[i].as_str(), key) {
            return true;
        }
        i += 1;
    }
    false
}

/// The permission an export command's access level maps to.
pub open spec fn access_permission(level: i64) -> Seq<char> {
    if level == 1500 {
        "broadcaster"@
    } else if 500 <= level <= 1499 {
        "mod"@
    } else if 400 <= level <= 499 {
        "sub"@
    } else if 300 <= level <= 399 {
        "vip"@
    } else {
        "everyone"@
    }
}

pub fn permission_for_access(level: i64) -> (r: String)
    ensures
        r@ == access_permission(level),
{
    if level == 1500 {
        text::own("broadcaster")
    } else if 500 <= level && level <= 1499 {
        text::own("mod")
    } else if 400 <= level && level <= 499 {
        text::own("sub")
    } else if 300 <= level && level <= 399 {
        text::own("vip")
    } else {
        text::own("everyone")
    }
}

/// The id of the first existing command with the given name.
pub open spec fn first_command_named(existing: Seq<ChatCommand>, name: Seq<char>) -> Option<String>
    decreases existing.len(),
{
    if existing.len() == 0 {
        None
    } else {
        let r = first_command_named(existing.drop_last(), name);
        if r is Some {
            r
        } else if existing.last().name@ == name {
            Some(existing.last().id)
        } else {
            None
        }
    }
}

/// The id of the first existing variable with the given name.
pub open spec fn first_variable_named(existing: Seq<CustomVariable>, name: Seq<char>) -> Option<String>
    decreases existing.len(),
{
    if existing.len() == 0 {
        None
    } else {
        let r = first_variable_named(existing.drop_last(), name);
        if r is Some {
            r
        } else if existing.last().name@ == name {
            Some(existing.last().id)
        } else {
            None
        }
    }
}

/// The id of the first existing chat automation for the given trigger.
pub open spec fn first_chat_automation(existing: Seq<Automation>, trigger: Seq<char>) -> Option<String>
    decreases existing.len(),
{
    if existing.len() == 0 {
        None
    } else {
        let r = first_chat_automation(existing.drop_last(), trigger);
        if r is Some {
            r
        } else if existing.last().trigger_type@ == trigger && existing.last().action_type@ == "chat"@ {
            Some(existing.last().id)
        } else {
            None
        }
    }
}

pub fn find_command_named(existing: &Vec<ChatCommand>, name: &str) -> (r: Option<String>)
    ensures
        r == first_command_named(existing@, name@),
{
    let mut i: usize = 0;
    while i < existing.len()
        invariant
            i <= existing.len(),
            first_command_named(existing@.take(i as int), name@) is None,
        decreases existing.len() - i,
    {
        assert(existing@.take(i + 1).drop_last() =~= existing@.take(i as int));
        if text::str_eq(existing[i].name.as_str(), name) {
            assert(first_command_named(existing@.take(i + 1), name@) == Some(existing@[i as int].id));
            proof { lemma_first_command_prefix(existing@, name@, i + 1); }
            return Some(existing[i].id.clone());
        }
        i += 1;
    }
    assert(existing@.take(existing.len() as int) =~= existing@);
    None
}

proof fn lemma_first_command_prefix(s: Seq<ChatCommand>, name: Seq<char>, n: int)
    requires
        0 <= n <= s.len(),
        first_command_named(s.take(n), name) is Some,
    ensures
        first_command_named(s, name) == first_command_named(s.take(n), name),
    decreases s.len() - n,
{
    if n < s.len() {
        assert(s.take(n + 1).drop_last() =~= s.take(n));
        lemma_first_command_prefix(s, name, n + 1);
    } else {
        assert(s.take(n) =~= s);
    }
}

pub fn find_variable_named(existing: &Vec<CustomVariable>, name: &str) -> (r: Option<String>)
    ensures
        r == first_variable_named(existing@, name@),
{
    let mut i: usize = 0;
    while i < existing.len()
        invariant
            i <= existing.len(),
            first_variable_named(existing@.take(i as int), name@) is None,
        decreases existing.len() - i,
    {
        assert(existing@.take(i + 1).drop_last() =~= existing@.take(i as int));
        if text::str_eq(existing[i].name.as_str(), name) {
            assert(first_variable_named(existing@.take(i + 1), name@) == Some(existing@[i as int].id));
            proof { lemma_first_variable_prefix(existing@, name@, i + 1); }
            return Some(existing[i].id.clone());
        }
        i += 1;
    }
    assert(existing@.take(existing.len() as int) =~= existing@);
    None
}

proof fn lemma_first_variable_prefix(s: Seq<CustomVariable>, name: Seq<char>, n: int)
    requires
        0 <= n <= s.len(),
        first_variable_named(s.take(n), name) is Some,
    ensures
        first_variable_named(s, name) == first_variable_named(s.take(n), name),
    decreases s.len() - n,
{
    if n < s.len() {
        assert(s.take(n + 1).drop_last() =~= s.take(n));
        lemma_first_variable_prefix(s, name, n + 1);
    } else {
        assert(s.take(n) =~= s);
    }
}

pub fn find_chat_automation(existing: &Vec<Automation>, trigger: &str) -> (r: Option<String>)
    ensures
        r == first_chat_automation(existing@, trigger@),
{
    proof { reveal_strlit("chat"); }
    let mut i: usize = 0;
    while i < existing.len()
        invariant
            i <= existing.len(),
            first_chat_automation(existing@.take(i as int), trigger@) is None,
        decreases existing.len() - i,
    {
        assert(existing@.take(i + 1).drop_last() =~= existing@.take(i as int));
        if text::str_eq(existing[i].trigger_type.as_str(), trigger) && text::str_eq(
            existing[i].action_type.as_str(),
            "chat",
        ) {
            assert(first_chat_automation(existing@.take(i + 1), trigger@) == Some(existing@[i as int].id));
            proof { lemma_first_automation_prefix(existing@, trigger@, i + 1); }
            return Some(existing[i].id.clone());
        }
        i += 1;
    }
    assert(existing@.take(existing.len() as int) =~= existing@);
    None
}

proof fn lemma_first_automation_prefix(s: Seq<Automation>, trigger: Seq<char>, n: int)
    requires
        0 <= n <= s.len(),
        first_chat_automation(s.take(n), trigger) is Some,
    ensures
        first_chat_automation(s, trigger) == first_chat_automation(s.take(n), trigger),
    decreases s.len() - n,
{
    if n < s.len() {
        assert(s.take(n + 1).drop_last() =~= s.take(n));
        lemma_first_automation_prefix(s, trigger, n + 1);
    } else {
        assert(s.take(n) =~= s);
    }
}

/// The id a saved row gets: the colliding record's id when collisions
/// overwrite, else a new one.
pub open spec fn row_id_ok(id: String, existing_id: Option<String>, on_collision: Seq<char>) -> bool {
    if existing_id is Some && on_collision == "overwrite"@ {
        id == existing_id->0
    } else {
        ids::is_uuid_text(id@)
    }
}

fn row_id(existing_id: Option<String>, on_collision: &str) -> (r: String)
    ensures
        row_id_ok(r, existing_id, on_collision@),
{
    match existing_id {
        Some(id) => {
            if text::str_eq(on_collision, "overwrite") {
                id
            } else {
                ids::new_id()
            }
        },
        None => ids::new_id(),
    }
}

// ---------------------------------------------------------------------------
// Commands
// ---------------------------------------------------------------------------

pub open spec fn command_fate(c: SeCommand, sel: Seq<String>, existing: Seq<ChatCommand>, on_collision: Seq<char>) -> ImportFate {
    if !is_selected(se::cmd_key_spec(c), sel) {
        ImportFate::Unselected
    } else if first_command_named(existing, db::command_name_spec(c.command@)) is Some && on_collision == "skip"@ {
        ImportFate::Skipped
    } else {
        ImportFate::Imported
    }
}

/// The row saved for an imported export command: its name as stored, its
/// reply with StreamElements placeholders rewritten, its permission from the
/// access level, 5 s / 15 s where the export has no cooldown, no aliases and
/// no media.
pub open spec fn command_row(c: SeCommand, existing: Seq<ChatCommand>, on_collision: Seq<char>, row: ChatCommand) -> bool {
    let name = db::command_name_spec(c.command@);
    &&& row_id_ok(row.id, first_command_named(existing, name), on_collision)
    &&& row.name@ == name
    &&& row.aliases@.len() == 0
    &&& row.response@ == se::se_message_spec(c.reply@)
    &&& row.enabled == c.enabled
    &&& row.permission@ == access_permission(c.access_level)
    &&& row.global_cooldown == (if c.cooldown.global > 0 { c.cooldown.global } else { 5 })
    &&& row.user_cooldown == (if c.cooldown.user > 0 { c.cooldown.user } else { 15 })
    &&& row.media_id is None
}

/// What happens to one export command.
pub fn plan_command(c: &SeCommand, sel: &Vec<String>, existing: &Vec<ChatCommand>, on_collision: &str) -> (r: ImportStep<ChatCommand>)
    ensures
        step_fate(r) == command_fate(*c, sel@, existing@, on_collision@),
        r matches ImportStep::Imported(row) ==> command_row(*c, existing@, on_collision@, row),
{
    let key = se::cmd_key(c);
    if !selected(key.as_str(), sel) {
        return ImportStep::Unselected;
    }
    let name = db::command_name(c.command.as_str());
    let found = find_command_named(existing, name.as_str());
    if found.is_some() && text::str_eq(on_collision, "skip") {
        return ImportStep::Skipped;
    }
    let id = row_id(found, on_collision);
    ImportStep::Imported(ChatCommand {
        id,
        name,
        aliases: String::new(),
        response: se::normalize_se_message(c.reply.as_str()),
        enabled: c.enabled,
        permission: permission_for_access(c.access_level),
        global_cooldown: if c.cooldown.global > 0 { c.cooldown.global } else { 5 },
        user_cooldown: if c.cooldown.user > 0 { c.cooldown.user } else { 15 },
        media_id: None,
    })
}

// ---------------------------------------------------------------------------
// Timers
// ---------------------------------------------------------------------------

pub open spec fn timer_fate(t: SeTimer, sel: Seq<String>) -> ImportFate {
    if is_selected(se::timer_key_spec(t), sel) { ImportFate::Imported } else { ImportFate::Unselected }
}

/// The row saved for an imported export timer: a new id, its name (else
/// `Imported {interval}`), its joined message, interval, chat lines and
/// live-only flag.
pub open spec fn timer_row(t: SeTimer, row: ChatTimer) -> bool {
    let interval = se::se_interval_spec(t);
    &&& ids::is_uuid_text(row.id@)
    &&& row.name@ == (if t.name@.len() == 0 { "Imported "@ + text::signed_decimal(interval as int) } else { t.name@ })
    &&& row.message@ == se::se_timer_message_spec(t)
    &&& row.interval_mins == interval
    &&& row.min_chat_lines == t.chat_lines
    &&& row.enabled == t.enabled
    &&& row.live_only == (t.online.enabled && !t.offline.enabled)
}

/// What happens to one export timer (timers never collide).
pub fn plan_timer(t: &SeTimer, sel: &Vec<String>) -> (r: ImportStep<ChatTimer>)
    ensures
        step_fate(r) == timer_fate(*t, sel@),
        r matches ImportStep::Imported(row) ==> timer_row(*t, row),
{
    let key = se::timer_key(t);
    if !selected(key.as_str(), sel) {
        return ImportStep::Unselected;
    }
    let interval = se::se_timer_interval_mins(t);
    let name = if t.name.as_str().is_empty() {
        let n = text::i64_text(interval);
        text::concat("Imported ", n.as_str())
    } else {
        t.name.clone()
    };
    proof { reveal_strlit("Imported "); }
    ImportStep::Imported(ChatTimer {
        id: ids::new_id(),
        name,
        message: se::se_timer_message(t),
        interval_mins: interval,
        min_chat_lines: t.chat_lines,
        enabled: t.enabled,
        live_only: se::se_timer_live_only(t),
    })
}

// ---------------------------------------------------------------------------
// Variables
// ---------------------------------------------------------------------------

pub open spec fn variable_fate(v: SeVariable, sel: Seq<String>, existing: Seq<CustomVariable>, on_collision: Seq<char>) -> ImportFate {
    let name = db::var_name_spec(v.name@);
    if !is_selected(se::var_key_spec(v), sel) || name.len() == 0 {
        ImportFate::Unselected
    } else if first_variable_named(existing, name) is Some && on_collision == "skip"@ {
        ImportFate::Skipped
    } else {
        ImportFate::Imported
    }
}

/// The row saved for an imported export variable: its normalised name and
/// its value.
pub open spec fn variable_row(v: SeVariable, existing: Seq<CustomVariable>, on_collision: Seq<char>, row: CustomVariable) -> bool {
    let name = db::var_name_spec(v.name@);
    &&& row_id_ok(row.id, first_variable_named(existing, name), on_collision)
    &&& row.name@ == name
    &&& row.value == v.value
}

/// What happens to one export variable.
pub fn plan_variable(v: &SeVariable, sel: &Vec<String>, existing: &Vec<CustomVariable>, on_collision: &str) -> (r: ImportStep<CustomVariable>)
    ensures
        step_fate(r) == variable_fate(*v, sel@, existing@, on_collision@),
        r matches ImportStep::Imported(row) ==> variable_row(*v, existing@, on_collision@, row),
{
    let key = se::var_key(v);
    if !selected(key.as_str(), sel) {
        return ImportStep::Unselected;
    }
    let name = db::normalize_var_name(v.name.as_str());
    if name.as_str().is_empty() {
        return ImportStep::Unselected;
    }
    let found = find_variable_named(existing, name.as_str());
    if found.is_some() && text::str_eq(on_collision, "skip") {
        return ImportStep::Skipped;
    }
    let id = row_id(found, on_collision);
    ImportStep::Imported(CustomVariable { id, name, value: v.value.clone() })
}

// ---------------------------------------------------------------------------
// Chat alerts
// ---------------------------------------------------------------------------

pub open spec fn automation_fate(a: SeAutomationPreview, sel: Seq<String>, existing: Seq<Automation>, on_collision: Seq<char>) -> ImportFate {
    if !is_selected(a.id@, sel) {
        ImportFate::Unselected
    } else if first_chat_automation(existing, a.trigger_type@) is Some && on_collision == "skip"@ {
        ImportFate::Skipped
    } else {
        ImportFate::Imported
    }
}

/// The row saved for an imported chat alert: a chat automation with the
/// alert's name, trigger, message and enabled flag, and no cooldown.
pub open spec fn automation_row(a: SeAutomationPreview, existing: Seq<Automation>, on_collision: Seq<char>, row: Automation) -> bool {
    &&& row_id_ok(row.id, first_chat_automation(existing, a.trigger_type@), on_collision)
    &&& row.name == a.name
    &&& row.trigger_type == a.trigger_type
    &&& row.action_type@ == "chat"@
    &&& row.action_payload == a.action_payload
    &&& row.enabled == a.enabled
    &&& row.cooldown_secs == 0
}

/// What happens to one chat alert of the export.
pub fn plan_automation(a: &SeAutomationPreview, sel: &Vec<String>, existing: &Vec<Automation>, on_collision: &str) -> (r: ImportStep<Automation>)
    ensures
        step_fate(r) == automation_fate(*a, sel@, existing@, on_collision@),
        r matches ImportStep::Imported(row) ==> automation_row(*a, existing@, on_collision@, row),
{
    if !selected(a.id.as_str(), sel) {
        return ImportStep::Unselected;
    }
    let found = find_chat_automation(existing, a.trigger_type.as_str());
    if found.is_some() && text::str_eq(on_collision, "skip") {
        return ImportStep::Skipped;
    }
    let id = row_id(found, on_collision);
    ImportStep::Imported(Automation {
        id,
        name: a.name.clone(),
        trigger_type: a.trigger_type.clone(),
        action_type: text::own("chat"),
        action_payload: a.action_payload.clone(),
        enabled: a.enabled,
        cooldown_secs: 0,
    })
}

// ---------------------------------------------------------------------------
// The whole import
// ---------------------------------------------------------------------------

/// The positions of the imported records, in order.
pub open spec fn imported_positions(f: Seq<ImportFate>) -> Seq<int>
    decreases f.len(),
{
    if f.len() == 0 {
        Seq::empty()
    } else {
        let r = imported_positions(f.drop_last());
        if f.last() is Imported { r.push(f.len() - 1) } else { r }
    }
}

/// How many records were skipped.
pub open spec fn skip_count(f: Seq<ImportFate>) -> nat
    decreases f.len(),
{
    if f.len() == 0 {
        0
    } else {
        skip_count(f.drop_last()) + (if f.last() is Skipped { 1nat } else { 0nat })
    }
}

proof fn lemma_fates_push(f: Seq<ImportFate>, x: ImportFate)
    ensures
        imported_positions(f.push(x)) == (if x is Imported { imported_positions(f).push(f.len() as int) } else { imported_positions(f) }),
        skip_count(f.push(x)) == skip_count(f) + (if x is Skipped { 1nat } else { 0nat }),
{
    assert(f.push(x).drop_last() =~= f);
}

proof fn lemma_fates_bounds(f: Seq<ImportFate>)
    ensures
        imported_positions(f).len() + skip_count(f) <= f.len(),
        forall|k: int| 0 <= k < imported_positions(f).len() ==> 0 <= #[trigger] imported_positions(f)[k] < f.len(),
    decreases f.len(),
{
    if f.len() > 0 {
        lemma_fates_bounds(f.drop_last());
    }
}

pub open spec fn command_fates(cs: Seq<SeCommand>, sel: Seq<String>, existing: Seq<ChatCommand>, on_collision: Seq<char>) -> Seq<ImportFate> {
    cs.map_values(|c: SeCommand| command_fate(c, sel, existing, on_collision))
}

pub open spec fn timer_fates(ts: Seq<SeTimer>, sel: Seq<String>) -> Seq<ImportFate> {
    ts.map_values(|t: SeTimer| timer_fate(t, sel))
}

pub open spec fn variable_fates(vs: Seq<SeVariable>, sel: Seq<String>, existing: Seq<CustomVariable>, on_collision: Seq<char>) -> Seq<ImportFate> {
    vs.map_values(|v: SeVariable| variable_fate(v, sel, existing, on_collision))
}

pub open spec fn automation_fates(xs: Seq<SeAutomationPreview>, sel: Seq<String>, existing: Seq<Automation>, on_collision: Seq<char>) -> Seq<ImportFate> {
    xs.map_values(|a: SeAutomationPreview| automation_fate(a, sel, existing, on_collision))
}

/// The rows an import saves, in the order it saves them, and its counts.
pub struct ImportPlan {
    pub commands: Vec<ChatCommand>,
    pub timers: Vec<ChatTimer>,
    pub variables: Vec<CustomVariable>,
    pub automations: Vec<Automation>,
    pub result: ImportResult,
}

fn plan_commands(cs: &Vec<SeCommand>, sel: &Vec<String>, existing: &Vec<ChatCommand>, on_collision: &str) -> (r: (Vec<ChatCommand>, usize))
    ensures
        ({
            let f = command_fates(cs@, sel@, existing@, on_collision@);
            &&& r.0@.len() == imported_positions(f).len()
            &&& forall|k: int| 0 <= k < r.0@.len()
                ==> command_row(cs@[imported_positions(f)[k]], existing@, on_collision@, #[trigger] r.0@[k])
            &&& r.1 == skip_count(f)
        }),
{
    let mut rows: Vec<ChatCommand> = Vec::new();
    let mut skipped: usize = 0;
    let mut i: usize = 0;
    while i < cs.len()
        invariant
            i <= cs.len(),
            ({
                let f = command_fates(cs@.take(i as int), sel@, existing@, on_collision@);
                &&& rows@.len() == imported_positions(f).len()
                &&& forall|k: int| 0 <= k < rows@.len()
                    ==> command_row(cs@[imported_positions(f)[k]], existing@, on_collision@, #[trigger] rows@[k])
                &&& skipped == skip_count(f)
                &&& rows@.len() + skipped <= i
            }),
        decreases cs.len() - i,
    {
        let ghost f0 = command_fates(cs@.take(i as int), sel@, existing@, on_collision@);
        let step = plan_command(&cs[i], sel, existing, on_collision);
        let ghost x = step_fate(step);
        proof {
            assert(command_fates(cs@.take(i + 1), sel@, existing@, on_collision@) =~= f0.push(x));
            lemma_fates_push(f0, x);
            lemma_fates_bounds(f0);
        }
        match step {
            ImportStep::Unselected => {},
            ImportStep::Skipped => {
                skipped = skipped + 1;
            },
            ImportStep::Imported(row) => {
                rows.push(row);
            },
        }
        i += 1;
    }
    assert(cs@.take(cs.len() as int) =~= cs@);
    (rows, skipped)
}

fn plan_timers(ts: &Vec<SeTimer>, sel: &Vec<String>) -> (r: Vec<ChatTimer>)
    ensures
        ({
            let f = timer_fates(ts@, sel@);
            &&& r@.len() == imported_positions(f).len()
            &&& forall|k: int| 0 <= k < r@.len() ==> timer_row(ts@[imported_positions(f)[k]], #[trigger] r@[k])
        }),
{
    let mut rows: Vec<ChatTimer> = Vec::new();
    let mut i: usize = 0;
    while i < ts.len()
        invariant
            i <= ts.len(),
            ({
                let f = timer_fates(ts@.take(i as int), sel@);
                &&& rows@.len() == imported_positions(f).len()
                &&& forall|k: int| 0 <= k < rows@.len() ==> timer_row(ts@[imported_positions(f)[k]], #[trigger] rows@[k])
                &&& rows@.len() <= i
            }),
        decreases ts.len() - i,
    {
        let ghost f0 = timer_fates(ts@.take(i as int), sel@);
        let step = plan_timer(&ts[i], sel);
        let ghost x = step_fate(step);
        proof {
            assert(timer_fates(ts@.take(i + 1), sel@) =~= f0.push(x));
            lemma_fates_push(f0, x);
            lemma_fates_bounds(f0);
        }
        match step {
            ImportStep::Imported(row) => {
                rows.push(row);
            },
            _ => {},
        }
        i += 1;
    }
    assert(ts@.take(ts.len() as int) =~= ts@);
    rows
}

fn plan_variables(vs: &Vec<SeVariable>, sel: &Vec<String>, existing: &Vec<CustomVariable>, on_collision: &str) -> (r: (Vec<CustomVariable>, usize))
    ensures
        ({
            let f = variable_fates(vs@, sel@, existing@, on_collision@);
            &&& r.0@.len() == imported_positions(f).len()
            &&& forall|k: int| 0 <= k < r.0@.len()
                ==> variable_row(vs@[imported_positions(f)[k]], existing@, on_collision@, #[trigger] r.0@[k])
            &&& r.1 == skip_count(f)
        }),
{
    let mut rows: Vec<CustomVariable> = Vec::new();
    let mut skipped: usize = 0;
    let mut i: usize = 0;
    while i < vs.len()
        invariant
            i <= vs.len(),
            ({
                let f = variable_fates(vs@.take(i as int), sel@, existing@, on_collision@);
                &&& rows@.len() == imported_positions(f).len()
                &&& forall|k: int| 0 <= k < rows@.len()
                    ==> variable_row(vs@[imported_positions(f)[k]], existing@, on_collision@, #[trigger] rows@[k])
                &&& skipped == skip_count(f)
                &&& rows@.len() + skipped <= i
            }),
        decreases vs.len() - i,
    {
        let ghost f0 = variable_fates(vs@.take(i as int), sel@, existing@, on_collision@);
        let step = plan_variable(&vs[i], sel, existing, on_collision);
        let ghost x = step_fate(step);
        proof {
            assert(variable_fates(vs@.take(i + 1), sel@, existing@, on_collision@) =~= f0.push(x));
            lemma_fates_push(f0, x);
            lemma_fates_bounds(f0);
        }
        match step {
            ImportStep::Unselected => {},
            ImportStep::Skipped => {
                skipped = skipped + 1;
            },
            ImportStep::Imported(row) => {
                rows.push(row);
            },
        }
        i += 1;
    }
    assert(vs@.take(vs.len() as int) =~= vs@);
    (rows, skipped)
}

fn plan_automations(xs: &Vec<SeAutomationPreview>, sel: &Vec<String>, existing: &Vec<Automation>, on_collision: &str) -> (r: (Vec<Automation>, usize))
    ensures
        ({
            let f = automation_fates(xs@, sel@, existing@, on_collision@);
            &&& r.0@.len() == imported_positions(f).len()
            &&& forall|k: int| 0 <= k < r.0@.len()
                ==> automation_row(xs@[imported_positions(f)[k]], existing@, on_collision@, #[trigger] r.0@[k])
            &&& r.1 == skip_count(f)
        }),
{
    let mut rows: Vec<Automation> = Vec::new();
    let mut skipped: usize = 0;
    let mut i: usize = 0;
    while i < xs.len()
        invariant
            i <= xs.len(),
            ({
                let f = automation_fates(xs@.take(i as int), sel@, existing@, on_collision@);
                &&& rows@.len() == imported_positions(f).len()
                &&& forall|k: int| 0 <= k < rows@.len()
                    ==> automation_row(xs@[imported_positions(f)[k]], existing@, on_collision@, #[trigger] rows@[k])
                &&& skipped == skip_count(f)
                &&& rows@.len() + skipped <= i
            }),
        decreases xs.len() - i,
    {
        let ghost f0 = automation_fates(xs@.take(i as int), sel@, existing@, on_collision@);
        let step = plan_automation(&xs[i], sel, existing, on_collision);
        let ghost x = step_fate(step);
        proof {
            assert(automation_fates(xs@.take(i + 1), sel@, existing@, on_collision@) =~= f0.push(x));
            lemma_fates_push(f0, x);
            lemma_fates_bounds(f0);
        }
        match step {
            ImportStep::Unselected => {},
            ImportStep::Skipped => {
                skipped = skipped + 1;
            },
            ImportStep::Imported(row) => {
                rows.push(row);
            },
        }
        i += 1;
    }
    assert(xs@.take(xs.len() as int) =~= xs@);
    (rows, skipped)
}

/// Imports the selected records of an export against what is stored: each
/// selected command, variable and chat alert whose name (for alerts: whose
/// trigger, among chat automations) is taken is skipped when `on_collision`
/// is `skip`, saved under the existing id when it is `overwrite`, and saved
/// under a new id otherwise; selected timers are always saved under new ids.
/// The rows come in the order of the export, and the counts say how many
/// of each were saved and how many were skipped.
pub fn plan_import(
    commands: &Vec<SeCommand>,
    timers: &Vec<SeTimer>,
    variables: &Vec<SeVariable>,
    automations: &Vec<SeAutomationPreview>,
    command_ids: &Vec<String>,
    timer_ids: &Vec<String>,
    variable_ids: &Vec<String>,
    automation_ids: &Vec<String>,
    existing_cmds: &Vec<ChatCommand>,
    existing_vars: &Vec<CustomVariable>,
    existing_autos: &Vec<Automation>,
    on_collision: &str,
) -> (r: ImportPlan)
    requires
        commands@.len() + variables@.len() + automations@.len() <= usize::MAX,
    ensures
        ({
            let cf = command_fates(commands@, command_ids@, existing_cmds@, on_collision@);
            let tf = timer_fates(timers@, timer_ids@);
            let vf = variable_fates(variables@, variable_ids@, existing_vars@, on_collision@);
            let af = automation_fates(automations@, automation_ids@, existing_autos@, on_collision@);
            &&& r.commands@.len() == imported_positions(cf).len()
            &&& forall|k: int| 0 <= k < r.commands@.len()
                ==> command_row(commands@[imported_positions(cf)[k]], existing_cmds@, on_collision@, #[trigger] r.commands@[k])
            &&& r.timers@.len() == imported_positions(tf).len()
            &&& forall|k: int| 0 <= k < r.timers@.len() ==> timer_row(timers@[imported_positions(tf)[k]], #[trigger] r.timers@[k])
            &&& r.variables@.len() == imported_positions(vf).len()
            &&& forall|k: int| 0 <= k < r.variables@.len()
                ==> variable_row(variables@[imported_positions(vf)[k]], existing_vars@, on_collision@, #[trigger] r.variables@[k])
            &&& r.automations@.len() == imported_positions(af).len()
            &&& forall|k: int| 0 <= k < r.automations@.len()
                ==> automation_row(automations@[imported_positions(af)[k]], existing_autos@, on_collision@, #[trigger] r.automations@[k])
            &&& r.result.imported_commands == r.commands@.len()
            &&& r.result.imported_timers == r.timers@.len()
            &&& r.result.imported_giveaways == 0
            &&& r.result.imported_variables == r.variables@.len()
            &&& r.result.imported_automations == r.automations@.len()
            &&& r.result.skipped == skip_count(cf) + skip_count(vf) + skip_count(af)
        }),
{
    let (cmd_rows, cmd_skipped) = plan_commands(commands, command_ids, existing_cmds, on_collision);
    let timer_rows = plan_timers(timers, timer_ids);
    let (var_rows, var_skipped) = plan_variables(variables, variable_ids, existing_vars, on_collision);
    let (auto_rows, auto_skipped) = plan_automations(automations, automation_ids, existing_autos, on_collision);
    proof {
        lemma_fates_bounds(command_fates(commands@, command_ids@, existing_cmds@, on_collision@));
        lemma_fates_bounds(variable_fates(variables@, variable_ids@, existing_vars@, on_collision@));
        lemma_fates_bounds(automation_fates(automations@, automation_ids@, existing_autos@, on_collision@));
    }
    let result = ImportResult {
        imported_commands: cmd_rows.len(),
        imported_timers: timer_rows.len(),
        imported_giveaways: 0,
        imported_automations: auto_rows.len(),
        imported_variables: var_rows.len(),
        skipped: cmd_skipped + var_skipped + auto_skipped,
    };
    ImportPlan { commands: cmd_rows, timers: timer_rows, variables: var_rows, automations: auto_rows, result }
}

// ---------------------------------------------------------------------------
// Laws
// ---------------------------------------------------------------------------

proof fn lemma_first_command_named(existing: Seq<ChatCommand>, name: Seq<char>)
    ensures
        first_command_named(existing, name) is None <==> forall|i: int| 0 <= i < existing.len() ==> (#[trigger] existing[i]).name@ != name,
        first_command_named(existing, name) matches Some(id) ==> exists|i: int| 0 <= i < existing.len()
            && (#[trigger] existing[i]).name@ == name && existing[i].id == id,
    decreases existing.len(),
{
    if existing.len() > 0 {
        let p = existing.drop_last();
        lemma_first_command_named(p, name);
        assert forall|i: int| 0 <= i < p.len() implies p[i] == existing[i] by {}
        if first_command_named(p, name) is None && existing.last().name@ != name {
            assert forall|i: int| 0 <= i < existing.len() implies (#[trigger] existing[i]).name@ != name by {
                if i < p.len() {
                    assert(p[i] == existing[i]);
                }
            }
        }
        if first_command_named(p, name) is Some {
            let id = first_command_named(p, name)->0;
            let i = choose|i: int| 0 <= i < p.len() && (#[trigger] p[i]).name@ == name && p[i].id == id;
            assert(existing[i] == p[i]);
        }
        if first_command_named(existing, name) is None {
            assert(existing[existing.len() - 1].name@ != name);
        }
    }
}

/// Law: importing with `skip` never touches a stored command. Every command
/// row it saves has a name no stored command has, under a new id.
pub proof fn skip_leaves_stored_commands(c: SeCommand, sel: Seq<String>, existing: Seq<ChatCommand>, row: ChatCommand)
    requires
        command_fate(c, sel, existing, "skip"@) is Imported,
        command_row(c, existing, "skip"@, row),
    ensures
        forall|i: int| 0 <= i < existing.len() ==> (#[trigger] existing[i]).name@ != row.name@,
        ids::is_uuid_text(row.id@),
{
    lemma_first_command_named(existing, row.name@);
}

/// Law: importing with `overwrite` replaces the stored command of the same
/// name. A command row whose name is taken is saved under the id of a
/// stored command with that name.
pub proof fn overwrite_replaces_stored_command(c: SeCommand, existing: Seq<ChatCommand>, row: ChatCommand)
    requires
        command_row(c, existing, "overwrite"@, row),
        exists|i: int| 0 <= i < existing.len() && (#[trigger] existing[i]).name@ == row.name@,
    ensures
        exists|i: int| 0 <= i < existing.len() && (#[trigger] existing[i]).name@ == row.name@ && existing[i].id == row.id,
{
    lemma_first_command_named(existing, row.name@);
}

/// Law: an imported StreamElements command keeps the export's settings. It
/// is on exactly when it was on in the export, replies with the export's
/// reply (placeholders rewritten), keeps a cooldown the export set, has no
/// aliases or media, and gets its permission from the access level:
/// 1500 the broadcaster, 500 to 1499 moderators, 400 to 499 subscribers,
/// 300 to 399 VIPs, anything else everyone.
pub proof fn imported_commands_keep_their_settings(
    c: SeCommand,
    existing: Seq<ChatCommand>,
    on_collision: Seq<char>,
    row: ChatCommand,
)
    requires
        command_row(c, existing, on_collision, row),
    ensures
        row.enabled == c.enabled,
        row.response@ == se::se_message_spec(c.reply@),
        c.cooldown.global > 0 ==> row.global_cooldown == c.cooldown.global,
        c.cooldown.user > 0 ==> row.user_cooldown == c.cooldown.user,
        row.aliases@.len() == 0,
        row.media_id is None,
        c.access_level == 1500 ==> row.permission@ == "broadcaster"@,
        500 <= c.access_level < 1500 ==> row.permission@ == "mod"@,
        400 <= c.access_level < 500 ==> row.permission@ == "sub"@,
        300 <= c.access_level < 400 ==> row.permission@ == "vip"@,
        (c.access_level < 300 || c.access_level > 1500) ==> row.permission@ == "everyone"@,
{
}

/// Law: an imported StreamElements timer keeps the export's on/off state,
/// its chat-line minimum and its interval, under a new id.
pub proof fn imported_timers_keep_their_settings(t: SeTimer, row: ChatTimer)
    requires
        timer_row(t, row),
    ensures
        row.enabled == t.enabled,
        row.min_chat_lines == t.chat_lines,
        t.interval > 0 ==> row.interval_mins == t.interval,
        ids::is_uuid_text(row.id@),
{
}

/// Law: an imported StreamElements variable keeps the export's value.
pub proof fn imported_variables_keep_their_value(
    v: SeVariable,
    existing: Seq<CustomVariable>,
    on_collision: Seq<char>,
    row: CustomVariable,
)
    requires
        variable_row(v, existing, on_collision, row),
    ensures
        row.value == v.value,
{
}

/// Law: an imported chat alert keeps the export's on/off state, trigger and
/// message, and answers in chat at once.
pub proof fn imported_alerts_keep_their_settings(
    a: SeAutomationPreview,
    existing: Seq<Automation>,
    on_collision: Seq<char>,
    row: Automation,
)
    requires
        automation_row(a, existing, on_collision, row),
    ensures
        row.enabled == a.enabled,
        row.trigger_type == a.trigger_type,
        row.action_payload == a.action_payload,
        row.name == a.name,
        row.action_type@ == "chat"@,
        row.cooldown_secs == 0,
{
}

} // verus!
