use streamry::engine::{
    automation_action, automations_for, command_by_name_or_id, find_command, handle_message, last_fired,
    media_by_ref, permission_ok, render_vars, timer_by_name_or_id, timer_due, trigger_word, AutomationAction,
    CooldownTable, LastFired,
};
use streamry::models::{Automation, ChatCommand, ChatTimer, CustomVariable, IncomingChat, MediaClip};

fn chat(msg: &str) -> IncomingChat {
    IncomingChat {
        user_id: "u1".into(),
        login: "alice".into(),
        display: "Alice".into(),
        message: msg.into(),
        is_mod: false,
        is_vip: false,
        is_sub: false,
        is_broadcaster: false,
        bits: 0,
    }
}

fn command(id: &str, name: &str, aliases: &str, response: &str) -> ChatCommand {
    ChatCommand {
        id: id.into(),
        name: name.into(),
        aliases: aliases.into(),
        response: response.into(),
        enabled: true,
        permission: "everyone".into(),
        global_cooldown: 5,
        user_cooldown: 15,
        media_id: None,
    }
}

fn var(name: &str, value: &str) -> CustomVariable {
    CustomVariable { id: name.into(), name: name.into(), value: value.into() }
}

#[test]
fn permission_levels() {
    let mut c = chat("x");
    assert!(permission_ok("everyone", &c));
    assert!(permission_ok("anything-else", &c));
    assert!(!permission_ok("sub", &c));
    c.is_vip = true;
    assert!(permission_ok("sub", &c));
    assert!(permission_ok("vip", &c));
    assert!(!permission_ok("mod", &c));
    c.is_broadcaster = true;
    assert!(permission_ok("mod", &c));
    assert!(permission_ok("broadcaster", &c));
    let mut m = chat("x");
    m.is_mod = true;
    assert!(!permission_ok("broadcaster", &m));
}

#[test]
fn templates_are_filled_in() {
    let c = chat("!hi");
    let vars = vec![var("song", "Never Gonna"), var("count", "3")];
    let extra = vec![("${winner}".to_string(), "@bob".to_string())];
    let out = render_vars(
        "Hi ${user} (${login}) in ${channel}, ${uptime}! ${song} x${count} ${winner} ${missing}",
        &c,
        "mychan",
        Some(&extra),
        &vars,
    );
    assert_eq!(out, "Hi Alice (alice) in mychan, live! Never Gonna x3 @bob ${missing}");
}

#[test]
fn trigger_is_first_word_lowercased() {
    assert_eq!(trigger_word("!Hello world"), "hello");
    assert_eq!(trigger_word("!!DISCORD"), "discord");
}

#[test]
fn commands_match_by_name_or_alias() {
    let mut off = command("0", "hello", "", "off");
    off.enabled = false;
    let cmds = vec![off, command("1", "socials", " !Twitter , insta", "links"), command("2", "hello", "", "hi")];
    assert_eq!(find_command(&cmds, "hello"), Some(2));
    assert_eq!(find_command(&cmds, "twitter"), Some(1));
    assert_eq!(find_command(&cmds, "insta"), Some(1));
    assert_eq!(find_command(&cmds, "nope"), None);
}

#[test]
fn command_runs_then_cools_down() {
    let mut cmd = command("c1", "hello", "", "  Hi ${user}!  ");
    cmd.media_id = Some("clip-1".into());
    let cmds = vec![cmd];
    let vars: Vec<CustomVariable> = vec![];
    let mut g = CooldownTable::new();
    let mut u = CooldownTable::new();
    let out = handle_message(&chat("!hello"), "chan", &cmds, &vars, None, 1000, &mut g, &mut u);
    assert_eq!(out.reply.as_deref(), Some("Hi Alice!"));
    assert_eq!(out.play_media.as_deref(), Some("clip-1"));
    assert_eq!(g.get("c1"), Some(&1005));
    assert_eq!(u.get("c1:u1"), Some(&1015));
    // Within the global cooldown nothing happens.
    let again = handle_message(&chat("!hello"), "chan", &cmds, &vars, None, 1004, &mut g, &mut u);
    assert!(again.reply.is_none());
    assert!(again.play_media.is_none());
    // Another chatter after the global cooldown may run it.
    let mut other = chat("!hello");
    other.user_id = "u2".into();
    let third = handle_message(&other, "chan", &cmds, &vars, None, 1005, &mut g, &mut u);
    assert!(third.reply.is_some());
    // The first chatter is still on their own cooldown.
    let fourth = handle_message(&chat("!hello"), "chan", &cmds, &vars, None, 1012, &mut g, &mut u);
    assert!(fourth.reply.is_none());
}

#[test]
fn messages_that_are_not_commands() {
    let cmds = vec![command("c1", "hello", "", "Hi")];
    let vars: Vec<CustomVariable> = vec![];
    let mut g = CooldownTable::new();
    let mut u = CooldownTable::new();
    assert!(handle_message(&chat("   "), "c", &cmds, &vars, None, 0, &mut g, &mut u).reply.is_none());
    assert!(handle_message(&chat("hello"), "c", &cmds, &vars, None, 0, &mut g, &mut u).reply.is_none());
    assert!(handle_message(&chat("!unknown"), "c", &cmds, &vars, None, 0, &mut g, &mut u).reply.is_none());
    let gw = handle_message(&chat("!enter"), "c", &cmds, &vars, Some(Some("@Alice you're in!".into())), 0, &mut g, &mut u);
    assert_eq!(gw.reply.as_deref(), Some("@Alice you're in!"));
    assert!(g.get("c1").is_none());
}

#[test]
fn permission_blocks_command() {
    let mut cmd = command("c1", "ban", "", "done");
    cmd.permission = "mod".into();
    let cmds = vec![cmd];
    let vars: Vec<CustomVariable> = vec![];
    let mut g = CooldownTable::new();
    let mut u = CooldownTable::new();
    assert!(handle_message(&chat("!ban x"), "c", &cmds, &vars, None, 0, &mut g, &mut u).reply.is_none());
    let mut m = chat("!ban x");
    m.is_mod = true;
    assert_eq!(handle_message(&m, "c", &cmds, &vars, None, 0, &mut g, &mut u).reply.as_deref(), Some("done"));
}

fn automation(trigger: &str, action: &str, payload: &str, enabled: bool) -> Automation {
    Automation {
        id: "a".into(),
        name: "n".into(),
        trigger_type: trigger.into(),
        action_type: action.into(),
        action_payload: payload.into(),
        enabled,
        cooldown_secs: 0,
    }
}

#[test]
fn automations_listen_to_their_trigger() {
    let autos = vec![
        automation("raid", "chat", "x", true),
        automation("cheer", "chat", "y", true),
        automation("raid", "chat", "z", false),
        automation("raid", "play_media", "w", true),
    ];
    assert_eq!(automations_for(&autos, "raid"), vec![0, 3]);
    assert!(automations_for(&autos, "subscribe").is_empty());
}

#[test]
fn automation_actions() {
    let vars = vec![var("x", "1")];
    match automation_action(&automation("raid", "chat", "Thanks ${user} (${login}) ${x}", true), "BigRaider", "chan", &vars) {
        AutomationAction::Chat(m) => assert_eq!(m, "Thanks BigRaider (bigraider) 1"),
        other => panic!("unexpected {other:?}"),
    }
    match automation_action(&automation("raid", "disable_command", "hello", true), "u", "c", &vars) {
        AutomationAction::SetCommandEnabled { key, enabled } => {
            assert_eq!(key, "hello");
            assert!(!enabled);
        },
        other => panic!("unexpected {other:?}"),
    }
    match automation_action(&automation("raid", "enable_timer", "t", true), "u", "c", &vars) {
        AutomationAction::SetTimerEnabled { key, enabled } => {
            assert_eq!(key, "t");
            assert!(enabled);
        },
        other => panic!("unexpected {other:?}"),
    }
    assert!(matches!(automation_action(&automation("raid", "play_media", "m", true), "u", "c", &vars), AutomationAction::PlayMedia(k) if k == "m"));
    assert!(matches!(automation_action(&automation("raid", "other", "m", true), "u", "c", &vars), AutomationAction::Nothing));
}

fn timer(id: &str, name: &str) -> ChatTimer {
    ChatTimer {
        id: id.into(),
        name: name.into(),
        message: "m".into(),
        interval_mins: 10,
        min_chat_lines: 0,
        enabled: true,
        live_only: false,
    }
}

#[test]
fn lookup_by_name_or_id() {
    let cmds = vec![command("id1", "a", "", ""), command("id2", "b", "", "")];
    assert_eq!(command_by_name_or_id(&cmds, "b"), Some(1));
    assert_eq!(command_by_name_or_id(&cmds, "id1"), Some(0));
    assert_eq!(command_by_name_or_id(&cmds, "c"), None);
    let timers = vec![timer("t1", "x"), timer("t2", "y")];
    assert_eq!(timer_by_name_or_id(&timers, "t2"), Some(1));
    assert_eq!(timer_by_name_or_id(&timers, "x"), Some(0));
    assert_eq!(timer_by_name_or_id(&timers, "z"), None);
}

#[test]
fn stored_fire_times_are_read() {
    assert!(matches!(last_fired(&None), LastFired::Never));
    assert!(matches!(last_fired(&Some("not a time".into())), LastFired::Unreadable));
    match last_fired(&Some("2024-01-01T00:00:00+00:00".into())) {
        LastFired::At(t) => assert_eq!(t, (1704067200, 0)),
        other => panic!("unexpected {other:?}"),
    }
    match last_fired(&Some("2024-01-01T01:00:00.5+01:00".into())) {
        LastFired::At(t) => assert_eq!(t, (1704067200, 500_000_000)),
        other => panic!("unexpected {other:?}"),
    }
}

#[test]
fn timers_wait_their_interval_and_chat_lines() {
    let t = timer("t", "x");
    let fired = LastFired::At((1000, 0));
    assert!(!timer_due(&t, true, false, fired, (1599, 0), 0, 0));
    assert!(timer_due(&t, true, false, fired, (1600, 0), 0, 0));
    assert!(timer_due(&t, true, false, LastFired::Never, (0, 0), 0, 0));
    assert!(timer_due(&t, true, false, LastFired::Unreadable, (0, 0), 0, 0));
    let mut live_only = timer("t", "x");
    live_only.live_only = true;
    assert!(!timer_due(&live_only, false, false, LastFired::Never, (0, 0), 0, 0));
    assert!(!timer_due(&t, false, true, LastFired::Never, (0, 0), 0, 0));
    let mut lines = timer("t", "x");
    lines.min_chat_lines = 5;
    assert!(!timer_due(&lines, true, false, LastFired::Never, (0, 0), 14, 10));
    assert!(timer_due(&lines, true, false, LastFired::Never, (0, 0), 15, 10));
    let mut off = timer("t", "x");
    off.enabled = false;
    assert!(!timer_due(&off, true, false, LastFired::Never, (0, 0), 0, 0));
}

fn clip(id: &str, name: &str) -> MediaClip {
    MediaClip {
        id: id.into(),
        name: name.into(),
        media_type: "sound".into(),
        file_name: format!("{id}.mp3"),
        duration_ms: 8000,
        volume: 80,
        overlay_x: 4,
        overlay_y: 2,
        overlay_w: 8,
        overlay_h: 5,
        always_show: false,
        chroma_key: String::new(),
        chroma_tolerance: 64,
    }
}

#[test]
fn media_found_by_id_then_name() {
    let clips = vec![clip("x", "Airhorn"), clip("airhorn", "Other")];
    assert_eq!(media_by_ref(&clips, "airhorn"), Some(1));
    assert_eq!(media_by_ref(&clips, " AIRHORN "), Some(0));
    assert_eq!(media_by_ref(&clips, "none"), None);
}
