//! Chat commands, cooldowns, templates, automations and timers.
use vstd::prelude::*;
use crate::db;
use crate::models::{Automation, ChatCommand, ChatTimer, CustomVariable, IncomingChat, MediaClip};
use crate::clock::{self, Instant};
use crate::table::KeyTable;
use crate::text;

verus! {

// ---------------------------------------------------------------------------
// Permissions
// ---------------------------------------------------------------------------

/// Who may run a command with permission `perm`: each level also admits the
/// levels above it; any other value admits everyone.
pub open spec fn permits(perm: Seq<char>, c: IncomingChat) -> bool {
    if perm == "broadcaster"@ {
        c.is_broadcaster
    } else if perm == "mod"@ {
        c.is_mod || c.is_broadcaster
    } else if perm == "vip"@ {
        c.is_vip || c.is_mod || c.is_broadcaster
    } else if perm == "sub"@ {
        c.is_sub || c.is_vip || c.is_mod || c.is_broadcaster
    } else {
        true
    }
}

/// The chatter may run a command with permission `perm`.
pub fn permission_ok(perm: &str, chat: &IncomingChat) -> (r: bool)
    ensures
        r == permits(perm@, *chat),
{
    if text::str_eq(perm, "broadcaster") {
        chat.is_broadcaster
    } else if text::str_eq(perm, "mod") {
        chat.is_mod || chat.is_broadcaster
    } else if text::str_eq(perm, "vip") {
        chat.is_vip || chat.is_mod || chat.is_broadcaster
    } else if text::str_eq(perm, "sub") {
        chat.is_sub || chat.is_vip || chat.is_mod || chat.is_broadcaster
    } else {
        true
    }
}

// ---------------------------------------------------------------------------
// Templates
// ---------------------------------------------------------------------------

/// Each pair's first text replaced by its second, pair by pair in order.
pub open spec fn apply_pairs(s: Seq<char>, pairs: Seq<(Seq<char>, Seq<char>)>) -> Seq<char>
    decreases pairs.len(),
{
    if pairs.len() == 0 {
        s
    } else {
        text::replace_seq(apply_pairs(s, pairs.drop_last()), pairs.last().0, pairs.last().1)
    }
}

/// The placeholder `${name}` of a variable name.
pub open spec fn placeholder(name: Seq<char>) -> Seq<char> {
    seq!['$', '{'] + name + seq!['}']
}

pub open spec fn var_pairs(vars: Seq<CustomVariable>) -> Seq<(Seq<char>, Seq<char>)> {
    vars.map_values(|v: CustomVariable| (placeholder(v.name@), v.value@))
}

pub open spec fn pair_views(pairs: Seq<(String, String)>) -> Seq<(Seq<char>, Seq<char>)> {
    pairs.map_values(|p: (String, String)| (p.0@, p.1@))
}

/// A template with `${user}`, `${login}`, `${channel}` and `${uptime}`
/// filled in, then the extra pairs, then the custom variables.
pub open spec fn rendered(
    template: Seq<char>,
    display: Seq<char>,
    login: Seq<char>,
    channel: Seq<char>,
    extra: Seq<(Seq<char>, Seq<char>)>,
    vars: Seq<CustomVariable>,
) -> Seq<char> {
    let base = text::replace_seq(
        text::replace_seq(
            text::replace_seq(text::replace_seq(template, "${user}"@, display), "${login}"@, login),
            "${channel}"@,
            channel,
        ),
        "${uptime}"@,
        "live"@,
    );
    apply_pairs(apply_pairs(base, extra), var_pairs(vars))
}

pub open spec fn extra_view(extra: Option<&Vec<(String, String)>>) -> Seq<(Seq<char>, Seq<char>)> {
    match extra {
        Some(e) => pair_views(e@),
        None => Seq::empty(),
    }
}

/// Fills in a response template.
pub fn render_vars(
    template: &str,
    chat: &IncomingChat,
    channel: &str,
    extra: Option<&Vec<(String, String)>>,
    custom_vars: &Vec<CustomVariable>,
) -> (r: String)
    ensures
        r@ == rendered(template@, chat.display@, chat.login@, channel@, extra_view(extra), custom_vars@),
{
    let a = text::replace(template, "${user}", chat.display.as_str());
    let b = text::replace(a.as_str(), "${login}", chat.login.as_str());
    let c = text::replace(b.as_str(), "${channel}", channel);
    let mut out = text::replace(c.as_str(), "${uptime}", "live");
    let ghost base = out@;
    match extra {
        Some(pairs) => {
            let mut i: usize = 0;
            assert(pair_views(pairs@).take(0) =~= Seq::<(Seq<char>, Seq<char>)>::empty());
            while i < pairs.len()
                invariant
                    i <= pairs.len(),
                    out@ == apply_pairs(base, pair_views(pairs@).take(i as int)),
                decreases pairs.len() - i,
            {
                assert(pair_views(pairs@).take(i + 1).drop_last() =~= pair_views(pairs@).take(i as int));
                out = text::replace(out.as_str(), pairs[i].0.as_str(), pairs[i].1.as_str());
                i += 1;
            }
            assert(pair_views(pairs@).take(pairs.len() as int) =~= pair_views(pairs@));
        },
        None => {},
    }
    let ghost mid = out@;
    proof {
        reveal_strlit("${");
        reveal_strlit("}");
    }
    assert("${"@ =~= seq!['$', '{']);
    assert("}"@ =~= seq!['}']);
    let mut j: usize = 0;
    assert(var_pairs(custom_vars@).take(0) =~= Seq::<(Seq<char>, Seq<char>)>::empty());
    while j < custom_vars.len()
        invariant
            j <= custom_vars.len(),
            out@ == apply_pairs(mid, var_pairs(custom_vars@).take(j as int)),
            "${"@ == seq!['$', '{'],
            "}"@ == seq!['}'],
        decreases custom_vars.len() - j,
    {
        assert(var_pairs(custom_vars@).take(j + 1).drop_last() =~= var_pairs(custom_vars@).take(j as int));
        let open = text::concat("${", custom_vars[j].name.as_str());
        let key = text::concat(open.as_str(), "}");
        assert(key@ =~= placeholder(custom_vars@[j as int].name@));
        out = text::replace(out.as_str(), key.as_str(), custom_vars[j].value.as_str());
        j += 1;
    }
    assert(var_pairs(custom_vars@).take(custom_vars.len() as int) =~= var_pairs(custom_vars@));
    out
}

/// Times (unix seconds) until which a command is cooling down, by key.
pub type CooldownTable = KeyTable<i64>;

// ---------------------------------------------------------------------------
// Command matching
// ---------------------------------------------------------------------------

/// The leading run of non-white-space characters.
pub open spec fn first_word(s: Seq<char>) -> Seq<char>
    decreases s.len(),
{
    if s.len() > 0 && !text::is_ws(s[0]) {
        seq![s[0]] + first_word(s.drop_first())
    } else {
        Seq::empty()
    }
}

/// The command name that a chat message invokes: its first word without
/// leading `!`, lower-cased.
pub open spec fn trigger_of(msg: Seq<char>) -> Seq<char> {
    text::lower(text::strip_prefixes(first_word(msg), seq!['!']))
}

/// The names under which an alias list (comma separated) answers.
pub open spec fn alias_key(a: Seq<char>) -> Seq<char> {
    text::lower(text::strip_prefixes(text::trim_seq(a), seq!['!']))
}

/// The command is enabled and answers to `trigger` by name or alias.
pub open spec fn command_matches(c: ChatCommand, trigger: Seq<char>) -> bool {
    c.enabled && (c.name@ == trigger || exists|i: int|
        0 <= i < text::split_seq(c.aliases@, ',').len()
            && alias_key(#[trigger] text::split_seq(c.aliases@, ',')[i]) == trigger)
}

pub proof fn lemma_first_match_from(cmds: Seq<ChatCommand>, trigger: Seq<char>, i: int)
    ensures
        first_match_from(cmds, trigger, i) matches Some(k) ==> {
            &&& i <= k < cmds.len()
            &&& command_matches(cmds[k], trigger)
            &&& forall|j: int| i <= j < k ==> !command_matches(#[trigger] cmds[j], trigger)
        },
    decreases cmds.len() - i,
{
    if 0 <= i < cmds.len() && !command_matches(cmds[i], trigger) {
        lemma_first_match_from(cmds, trigger, i + 1);
    }
}

/// Index of the first command from position `i` on that answers to `trigger`.
pub open spec fn first_match_from(cmds: Seq<ChatCommand>, trigger: Seq<char>, i: int) -> Option<int>
    decreases cmds.len() - i,
{
    if i < 0 || i >= cmds.len() {
        None
    } else if command_matches(cmds[i], trigger) {
        Some(i)
    } else {
        first_match_from(cmds, trigger, i + 1)
    }
}

fn first_word_of(s: &str) -> (r: String)
    ensures
        r@ == first_word(s@),
{
    let v = text::chars_of(s);
    let mut out: Vec<char> = Vec::new();
    let mut i: usize = 0;
    assert(v@.subrange(0, v.len() as int) =~= v@);
    assert(Seq::<char>::empty() + first_word(v@) =~= first_word(v@));
    assert(v@.take(0) =~= Seq::<char>::empty());
    while i < v.len() && !text::is_ws_char(v[i])
        invariant
            i <= v.len(),
            v@ == s@,
            forall|j: int| 0 <= j < i ==> !text::is_ws(#[trigger] v@[j]),
            out@ == v@.take(i as int),
            first_word(s@) == out@ + first_word(v@.subrange(i as int, v.len() as int)),
        decreases v.len() - i,
    {
        let ghost t = v@.subrange(i as int, v.len() as int);
        assert(t.drop_first() =~= v@.subrange(i + 1, v.len() as int));
        out.push(v[i]);
        assert(v@.take(i as int).push(v@[i as int]) =~= v@.take(i + 1));
        i += 1;
    }
    proof {
        let t = v@.subrange(i as int, v.len() as int);
        assert(first_word(t) == Seq::<char>::empty());
        assert(out@ + Seq::<char>::empty() =~= out@);
        assert(v@.subrange(0, v.len() as int) =~= v@);
    }
    text::string_of(&out)
}

/// The command name that a chat message invokes.
pub fn trigger_word(msg: &str) -> (r: String)
    ensures
        r@ == trigger_of(msg@),
{
    let w = first_word_of(msg);
    proof { reveal_strlit("!"); }
    assert("!"@ =~= seq!['!']);
    let t = text::trim_start_matches(w.as_str(), "!");
    text::to_lower(t.as_str())
}

/// The command answers to `trigger`.
pub fn matches_trigger(c: &ChatCommand, trigger: &str) -> (r: bool)
    ensures
        r == command_matches(*c, trigger@),
{
    if !c.enabled {
        return false;
    }
    if text::str_eq(c.name.as_str(), trigger) {
        return true;
    }
    let parts = text::split_chars(c.aliases.as_str(), ',');
    proof { reveal_strlit("!"); }
    assert("!"@ =~= seq!['!']);
    let mut i: usize = 0;
    while i < parts.len()
        invariant
            i <= parts.len(),
            text::views_of(parts@) == text::split_seq(c.aliases@, ','),
            "!"@ == seq!['!'],
            c.enabled,
            forall|j: int| 0 <= j < i ==> alias_key(#[trigger] text::split_seq(c.aliases@, ',')[j]) != trigger@,
        decreases parts.len() - i,
    {
        let a = text::string_of(&parts[i]);
        assert(a@ == text::split_seq(c.aliases@, ',')[i as int]);
        let t = text::trim(a.as_str());
        let u = text::trim_start_matches(t.as_str(), "!");
        let k = text::to_lower(u.as_str());
        if text::str_eq(k.as_str(), trigger) {
            assert(alias_key(text::split_seq(c.aliases@, ',')[i as int]) == trigger@);
            assert(i < text::split_seq(c.aliases@, ',').len());
            assert(command_matches(*c, trigger@));
            return true;
        }
        i += 1;
    }
    false
}

/// The first command that answers to `trigger`.
pub fn find_command(cmds: &Vec<ChatCommand>, trigger: &str) -> (r: Option<usize>)
    ensures
        r matches Some(k) ==> k < cmds.len() && first_match_from(cmds@, trigger@, 0) == Some(k as int),
        r is None ==> first_match_from(cmds@, trigger@, 0) is None,
{
    let mut i: usize = 0;
    while i < cmds.len()
        invariant
            i <= cmds.len(),
            first_match_from(cmds@, trigger@, 0) == first_match_from(cmds@, trigger@, i as int),
        decreases cmds.len() - i,
    {
        if matches_trigger(&cmds[i], trigger) {
            assert(first_match_from(cmds@, trigger@, i as int) == Some(i as int));
            return Some(i);
        }
        assert(first_match_from(cmds@, trigger@, i as int) == first_match_from(cmds@, trigger@, i + 1));
        i += 1;
    }
    None
}

// ---------------------------------------------------------------------------
// Chat messages
// ---------------------------------------------------------------------------

/// What the bot does with one chat line.
#[derive(Debug, Clone)]
pub struct MessageOutcome {
    /// The line to post in chat.
    pub reply: Option<String>,
    /// The media clip (id or name) to play on the overlay.
    pub play_media: Option<String>,
}

/// The cooldown key of a command for one chatter: `{command id}:{user id}`.
pub open spec fn user_key(cmd_id: Seq<char>, user_id: Seq<char>) -> Seq<char> {
    cmd_id + seq![':'] + user_id
}

/// The table maps `key` to a time still in the future.
pub open spec fn cooling(t: Map<Seq<char>, i64>, key: Seq<char>, now: i64) -> bool {
    t.dom().contains(key) && now < t[key]
}

/// The media reference of a command, when it names one.
pub open spec fn media_ref(c: ChatCommand) -> Option<Seq<char>> {
    match c.media_id {
        Some(m) => if m@.len() > 0 { Some(m@) } else { None },
        None => None,
    }
}

/// The outcome of a command that ran: its media and its rendered response.
pub open spec fn command_fired(
    out: MessageOutcome,
    cmd: ChatCommand,
    chat: IncomingChat,
    channel: Seq<char>,
    vars: Seq<CustomVariable>,
) -> bool {
    let resp = text::trim_seq(cmd.response@);
    &&& match media_ref(cmd) {
        Some(m) => out.play_media matches Some(p) && p@ == m,
        None => out.play_media is None,
    }
    &&& if resp.len() == 0 {
        out.reply is None
    } else {
        out.reply matches Some(r) && r@ == rendered(resp, chat.display@, chat.login@, channel, Seq::empty(), vars)
    }
}

/// Handles one chat line.
///
/// `giveaway_reply` is what the giveaway handler answered for this line
/// (`Some` when the line was a giveaway entry or draw). `now` is the time in
/// unix seconds. The cooldown tables are updated when a command runs.
pub fn handle_message(
    chat: &IncomingChat,
    channel: &str,
    commands: &Vec<ChatCommand>,
    custom_vars: &Vec<CustomVariable>,
    giveaway_reply: Option<Option<String>>,
    now: i64,
    global_cd: &mut CooldownTable,
    user_cd: &mut CooldownTable,
) -> (out: MessageOutcome)
    requires
        old(global_cd).wf(),
        old(user_cd).wf(),
    ensures
        final(global_cd).wf(),
        final(user_cd).wf(),
        ({
            let msg = text::trim_seq(chat.message@);
            let unchanged = final(global_cd).view() == old(global_cd).view()
                && final(user_cd).view() == old(user_cd).view();
            let nothing = out.reply is None && out.play_media is None;
            if msg.len() == 0 {
                nothing && unchanged
            } else if giveaway_reply is Some {
                out.reply == giveaway_reply->0 && out.play_media is None && unchanged
            } else if !text::starts_with_seq(msg, seq!['!']) {
                nothing && unchanged
            } else {
                match first_match_from(commands@, trigger_of(msg), 0) {
                    None => nothing && unchanged,
                    Some(k) => {
                        let cmd = commands@[k];
                        let ukey = user_key(cmd.id@, chat.user_id@);
                        if !permits(cmd.permission@, *chat)
                            || cooling(old(global_cd).view(), cmd.id@, now)
                            || cooling(old(user_cd).view(), ukey, now) {
                            nothing && unchanged
                        } else {
                            &&& final(global_cd).view() == old(global_cd).view().insert(
                                cmd.id@, now.wrapping_add(cmd.global_cooldown))
                            &&& final(user_cd).view() == old(user_cd).view().insert(
                                ukey, now.wrapping_add(cmd.user_cooldown))
                            &&& command_fired(out, cmd, *chat, channel@, custom_vars@)
                        }
                    },
                }
            }
        }),
{
    let nothing = MessageOutcome { reply: None, play_media: None };
    let msg = text::trim(chat.message.as_str());
    if msg.as_str().is_empty() {
        return nothing;
    }
    match giveaway_reply {
        Some(r) => return MessageOutcome { reply: r, play_media: None },
        None => {},
    }
    proof { reveal_strlit("!"); }
    assert("!"@ =~= seq!['!']);
    if !text::starts_with(msg.as_str(), "!") {
        return nothing;
    }
    let trigger = trigger_word(msg.as_str());
    let k = match find_command(commands, trigger.as_str()) {
        Some(k) => k,
        None => return nothing,
    };
    let cmd = &commands[k];
    assert(msg@ == text::trim_seq(chat.message@));
    assert(trigger@ == trigger_of(text::trim_seq(chat.message@)));
    assert(first_match_from(commands@, trigger_of(text::trim_seq(chat.message@)), 0) == Some(k as int));
    if !permission_ok(cmd.permission.as_str(), chat) {
        assert(!permits(commands@[k as int].permission@, *chat));
        return nothing;
    }
    match global_cd.get(cmd.id.as_str()) {
        Some(until) => if now < *until {
            return nothing;
        },
        None => {},
    }
    let a = text::concat(cmd.id.as_str(), ":");
    let ukey = text::concat(a.as_str(), chat.user_id.as_str());
    proof { reveal_strlit(":"); }
    assert(ukey@ =~= user_key(cmd.id@, chat.user_id@));
    match user_cd.get(ukey.as_str()) {
        Some(until) => if now < *until {
            return nothing;
        },
        None => {},
    }
    global_cd.insert(cmd.id.clone(), now.wrapping_add(cmd.global_cooldown));
    user_cd.insert(ukey, now.wrapping_add(cmd.user_cooldown));
    let play_media = match &cmd.media_id {
        Some(m) => if !m.as_str().is_empty() { Some(m.clone()) } else { None },
        None => None,
    };
    let response = text::trim(cmd.response.as_str());
    if response.as_str().is_empty() {
        return MessageOutcome { reply: None, play_media };
    }
    let reply = render_vars(response.as_str(), chat, channel, None, custom_vars);
    MessageOutcome { reply: Some(reply), play_media }
}

// ---------------------------------------------------------------------------
// Automations
// ---------------------------------------------------------------------------

/// The automation is enabled and listens to `trigger`.
pub open spec fn listens_to(a: Automation, trigger: Seq<char>) -> bool {
    a.enabled && a.trigger_type@ == trigger
}

/// Indices, in order, of the first `n` automations that listen to `trigger`.
pub open spec fn listening(autos: Seq<Automation>, trigger: Seq<char>, n: int) -> Seq<usize>
    decreases n,
{
    if n <= 0 {
        Seq::empty()
    } else if listens_to(autos[n - 1], trigger) {
        listening(autos, trigger, n - 1).push((n - 1) as usize)
    } else {
        listening(autos, trigger, n - 1)
    }
}

/// The automations to run when `trigger` fires (a user notice kind,
/// `cheer`, `ad_start`, `ad_end`, `stream_online`, `stream_offline`), in order.
pub fn automations_for(autos: &Vec<Automation>, trigger: &str) -> (r: Vec<usize>)
    ensures
        r@ == listening(autos@, trigger@, autos@.len() as int),
{
    let mut r: Vec<usize> = Vec::new();
    let mut i: usize = 0;
    while i < autos.len()
        invariant
            i <= autos.len(),
            r@ == listening(autos@, trigger@, i as int),
        decreases autos.len() - i,
    {
        if autos[i].enabled && text::str_eq(autos[i].trigger_type.as_str(), trigger) {
            r.push(i);
        }
        i += 1;
    }
    r
}

/// What running an automation does.
#[derive(Debug, Clone)]
pub enum AutomationAction {
    /// Post this line in chat.
    Chat(String),
    /// Enable or disable the command with this name or id.
    SetCommandEnabled { key: String, enabled: bool },
    /// Enable or disable the timer with this name or id.
    SetTimerEnabled { key: String, enabled: bool },
    /// Play the media clip with this id or name.
    PlayMedia(String),
    /// Unknown action type: nothing happens.
    Nothing,
}

/// What an automation does, for the user who triggered it, in `channel`.
pub open spec fn automation_effect(
    a: Automation,
    user: Seq<char>,
    channel: Seq<char>,
    vars: Seq<CustomVariable>,
    r: AutomationAction,
) -> bool {
    let t = a.action_type@;
    if t == "chat"@ {
        r matches AutomationAction::Chat(m) && m@ == rendered(
            a.action_payload@, user, text::lower(user), channel, Seq::empty(), vars)
    } else if t == "enable_command"@ || t == "disable_command"@ {
        r matches AutomationAction::SetCommandEnabled { key, enabled }
            && key@ == a.action_payload@ && enabled == (t == "enable_command"@)
    } else if t == "enable_timer"@ || t == "disable_timer"@ {
        r matches AutomationAction::SetTimerEnabled { key, enabled }
            && key@ == a.action_payload@ && enabled == (t == "enable_timer"@)
    } else if t == "play_media"@ {
        r matches AutomationAction::PlayMedia(k) && k@ == a.action_payload@
    } else {
        r is Nothing
    }
}

/// The action of an automation triggered by `user` in `channel`.
pub fn automation_action(
    auto: &Automation,
    user: &str,
    channel: &str,
    custom_vars: &Vec<CustomVariable>,
) -> (r: AutomationAction)
    ensures
        automation_effect(*auto, user@, channel@, custom_vars@, r),
{
    let t = auto.action_type.as_str();
    if text::str_eq(t, "chat") {
        let who = IncomingChat::anonymous(text::to_lower(user), text::own(user));
        let msg = render_vars(auto.action_payload.as_str(), &who, channel, None, custom_vars);
        proof {
            assert(extra_view(None) =~= Seq::<(Seq<char>, Seq<char>)>::empty());
        }
        AutomationAction::Chat(msg)
    } else if text::str_eq(t, "enable_command") || text::str_eq(t, "disable_command") {
        AutomationAction::SetCommandEnabled {
            key: auto.action_payload.clone(),
            enabled: text::str_eq(t, "enable_command"),
        }
    } else if text::str_eq(t, "enable_timer") || text::str_eq(t, "disable_timer") {
        AutomationAction::SetTimerEnabled {
            key: auto.action_payload.clone(),
            enabled: text::str_eq(t, "enable_timer"),
        }
    } else if text::str_eq(t, "play_media") {
        AutomationAction::PlayMedia(auto.action_payload.clone())
    } else {
        AutomationAction::Nothing
    }
}

/// Index of the first command whose name or id is `key`.
pub fn command_by_name_or_id(cmds: &Vec<ChatCommand>, key: &str) -> (r: Option<usize>)
    ensures
        r matches Some(k) ==> k < cmds.len() && (cmds@[k as int].name@ == key@ || cmds@[k as int].id@ == key@)
            && forall|j: int| 0 <= j < k ==> cmds@[j].name@ != key@ && cmds@[j].id@ != key@,
        r is None ==> forall|j: int| 0 <= j < cmds.len() ==> cmds@[j].name@ != key@ && cmds@[j].id@ != key@,
{
    let mut i: usize = 0;
    while i < cmds.len()
        invariant
            i <= cmds.len(),
            forall|j: int| 0 <= j < i ==> cmds@[j].name@ != key@ && cmds@[j].id@ != key@,
        decreases cmds.len() - i,
    {
        if text::str_eq(cmds[i].name.as_str(), key) || text::str_eq(cmds[i].id.as_str(), key) {
            return Some(i);
        }
        i += 1;
    }
    None
}

/// Index of the first timer whose name or id is `key`.
pub fn timer_by_name_or_id(timers: &Vec<ChatTimer>, key: &str) -> (r: Option<usize>)
    ensures
        r matches Some(k) ==> k < timers.len() && (timers@[k as int].name@ == key@ || timers@[k as int].id@ == key@)
            && forall|j: int| 0 <= j < k ==> timers@[j].name@ != key@ && timers@[j].id@ != key@,
        r is None ==> forall|j: int| 0 <= j < timers.len() ==> timers@[j].name@ != key@ && timers@[j].id@ != key@,
{
    let mut i: usize = 0;
    while i < timers.len()
        invariant
            i <= timers.len(),
            forall|j: int| 0 <= j < i ==> timers@[j].name@ != key@ && timers@[j].id@ != key@,
        decreases timers.len() - i,
    {
        if text::str_eq(timers[i].name.as_str(), key) || text::str_eq(timers[i].id.as_str(), key) {
            return Some(i);
        }
        i += 1;
    }
    None
}

// ---------------------------------------------------------------------------
// Timers
// ---------------------------------------------------------------------------

/// When the timer last fired, as the scheduler's state table records it.
#[derive(Debug, Clone, Copy)]
pub enum LastFired {
    /// The timer has never fired.
    Never,
    /// The stored time could not be read.
    Unreadable,
    /// The timer fired at this time.
    At(Instant),
}

/// The stored time of a timer's last post, read.
pub open spec fn last_fired_spec(stored: Option<String>) -> LastFired {
    match stored {
        None => LastFired::Never,
        Some(s) => match clock::rfc3339_instant(s@) {
            Some(t) => LastFired::At(t),
            None => LastFired::Unreadable,
        },
    }
}

pub fn last_fired(stored: &Option<String>) -> (r: LastFired)
    ensures
        r == last_fired_spec(*stored),
{
    match stored {
        None => LastFired::Never,
        Some(s) => match clock::parse_rfc3339(s.as_str()) {
            Some(t) => LastFired::At(t),
            None => LastFired::Unreadable,
        },
    }
}

/// The timer posts its message now: it is enabled, the stream is live when
/// the timer (or the global setting) wants live only, its interval has
/// passed since it last fired (or it never fired, or that time cannot be
/// read), and at least its minimum of chat lines came since then.
pub open spec fn timer_fires(
    t: ChatTimer,
    live: bool,
    live_only_global: bool,
    last: LastFired,
    now: Instant,
    chat_lines: u64,
    lines_at: i64,
) -> bool {
    &&& t.enabled
    &&& !((t.live_only || live_only_global) && !live)
    &&& match last {
        LastFired::At(f) => clock::instant_le((f.0 + t.interval_mins * 60, f.1 as int), (now.0 as int, now.1 as int)),
        _ => true,
    }
    &&& !(t.min_chat_lines > 0 && chat_lines - lines_at < t.min_chat_lines)
}

/// Whether a timer posts now.
pub fn timer_due(
    t: &ChatTimer,
    live: bool,
    live_only_global: bool,
    last: LastFired,
    now: Instant,
    chat_lines: u64,
    lines_at: i64,
) -> (r: bool)
    ensures
        r == timer_fires(*t, live, live_only_global, last, now, chat_lines, lines_at),
{
    if !t.enabled {
        return false;
    }
    if (t.live_only || live_only_global) && !live {
        return false;
    }
    let due = match last {
        LastFired::At(f) => {
            let next = (f.0 as i128) + (t.interval_mins as i128) * 60;
            next < (now.0 as i128) || (next == (now.0 as i128) && f.1 <= now.1)
        },
        _ => true,
    };
    if !due {
        return false;
    }
    if t.min_chat_lines > 0 && (chat_lines as i128) - (lines_at as i128) < (t.min_chat_lines as i128) {
        return false;
    }
    true
}

/// The clip a command or automation names: the clip with that id, else the
/// first whose name (ignoring case) or id is the key trimmed and
/// lower-cased.
pub fn media_by_ref(clips: &Vec<MediaClip>, key: &str) -> (r: Option<usize>)
    ensures
        (exists|i: int| 0 <= i < clips@.len() && (#[trigger] clips@[i]).id@ == key@) ==> (r matches Some(k)
            && k < clips@.len() && clips@[k as int].id@ == key@),
        !(exists|i: int| 0 <= i < clips@.len() && (#[trigger] clips@[i]).id@ == key@) ==> match r {
            Some(k) => k < clips.len() && db::clip_answers(clips@[k as int], text::lower(text::trim_seq(key@)))
                && forall|j: int| 0 <= j < k ==> !db::clip_answers(#[trigger] clips@[j], text::lower(text::trim_seq(key@))),
            None => forall|j: int| 0 <= j < clips.len() ==> !db::clip_answers(#[trigger] clips@[j], text::lower(text::trim_seq(key@))),
        },
{
    let mut i: usize = 0;
    while i < clips.len()
        invariant
            i <= clips.len(),
            forall|j: int| 0 <= j < i ==> (#[trigger] clips@[j]).id@ != key@,
        decreases clips.len() - i,
    {
        if text::str_eq(clips[i].id.as_str(), key) {
            return Some(i);
        }
        i += 1;
    }
    db::media_by_name(clips, key)
}


// ---------------------------------------------------------------------------
// Laws
// ---------------------------------------------------------------------------

/// Law: each permission level also admits every level above it. A chatter
/// with at least the roles of one who may run a command may run it too, and
/// the broadcaster may run every command.
pub proof fn permission_levels_nest(perm: Seq<char>, c: IncomingChat, d: IncomingChat)
    ensures
        permits(perm, c) && (c.is_broadcaster ==> d.is_broadcaster) && (c.is_mod ==> d.is_mod)
            && (c.is_vip ==> d.is_vip) && (c.is_sub ==> d.is_sub) ==> permits(perm, d),
        d.is_broadcaster ==> permits(perm, d),
{
}

/// Law: a command that ran is cooling down. After a run at `now` with a
/// cooldown of `cooldown` seconds (the table then maps its key to
/// `now + cooldown`, as `handle_message` states), the same key is still
/// cooling at any time from `now` until the cooldown is over, so the
/// command does not run again meanwhile.
pub proof fn cooldown_blocks_repeat(t: Map<Seq<char>, i64>, key: Seq<char>, now: i64, cooldown: i64, later: i64)
    requires
        i64::MIN <= now + cooldown <= i64::MAX,
        now <= later < now + cooldown,
    ensures
        cooling(t.insert(key, now.wrapping_add(cooldown)), key, later),
{
}

/// Law: a timer waits its interval. A timer that last fired at `f` is not
/// due while fewer than its interval's minutes have passed.
pub proof fn timer_waits_interval(t: ChatTimer, live: bool, live_only_global: bool, f: Instant, now: Instant, chat_lines: u64, lines_at: i64)
    requires
        now.0 < f.0 + t.interval_mins * 60,
    ensures
        !timer_fires(t, live, live_only_global, LastFired::At(f), now, chat_lines, lines_at),
{
}

/// Law: what each permission level admits, by the chatter's roles. A
/// broadcaster-only command admits the broadcaster alone; a moderator
/// command admits moderators and the broadcaster; a VIP command admits VIPs
/// too; a subscriber command admits subscribers, VIPs, moderators and the
/// broadcaster; a command for everyone admits anyone, whatever their roles.
pub proof fn permission_levels_admit_their_roles(c: IncomingChat)
    ensures
        permits("broadcaster"@, c) <==> c.is_broadcaster,
        permits("mod"@, c) <==> (c.is_mod || c.is_broadcaster),
        permits("vip"@, c) <==> (c.is_vip || c.is_mod || c.is_broadcaster),
        permits("sub"@, c) <==> (c.is_sub || c.is_vip || c.is_mod || c.is_broadcaster),
        permits("everyone"@, c),
        c.is_sub ==> permits("sub"@, c),
        c.is_vip ==> permits("vip"@, c) && permits("sub"@, c),
{
    reveal_strlit("broadcaster");
    reveal_strlit("mod");
    reveal_strlit("vip");
    reveal_strlit("sub");
    reveal_strlit("everyone");
    assert("mod"@.len() == 3 && "vip"@.len() == 3 && "sub"@.len() == 3 && "everyone"@.len() == 8
        && "broadcaster"@.len() == 11);
    assert("mod"@ != "broadcaster"@ && "vip"@ != "broadcaster"@ && "sub"@ != "broadcaster"@
        && "everyone"@ != "broadcaster"@);
    assert("vip"@[0] != "mod"@[0] && "sub"@[0] != "mod"@[0] && "sub"@[0] != "vip"@[0]);
    assert("vip"@ != "mod"@ && "sub"@ != "mod"@ && "sub"@ != "vip"@);
    assert("everyone"@ != "mod"@ && "everyone"@ != "vip"@ && "everyone"@ != "sub"@);
}

} // verus!
