use streamry::db::{
    command_name, get_settings, normalize_cmd, normalize_var_name, prepare_command, prepare_media, prepare_variable,
    save_settings, SettingsStore,
};
use streamry::json::JsonValue;
use streamry::models::{AppSettings, Automation, ChatCommand, CustomVariable, MediaClip, SeAutomationPreview};
use streamry::se::{
    cmd_key, default_access, default_true, event_enabled, extract_automations_from_value, first_message,
    is_extra_alert_file, is_json_entry, map_se_trigger, normalize_se_message, se_preview, se_timer_interval_mins,
    se_timer_live_only, se_timer_message, timer_key, var_key, zip_entry_path, SeCommand, SeCooldown, SeTimer,
    SeTimerSchedule, SeVariable,
};
use streamry::se_import::{plan_command, plan_import, ImportStep};

fn s(t: &str) -> JsonValue {
    JsonValue::Str(t.into())
}

fn obj(members: Vec<(&str, JsonValue)>) -> JsonValue {
    JsonValue::Object(members.into_iter().map(|(k, v)| (k.to_string(), v)).collect())
}

fn se_command(id: &str, command: &str, reply: &str, access: i64) -> SeCommand {
    SeCommand {
        id: id.into(),
        command: command.into(),
        reply: reply.into(),
        enabled: true,
        cooldown: SeCooldown { user: 0, global: 30 },
        access_level: access,
    }
}

fn se_timer(id: &str, name: &str) -> SeTimer {
    SeTimer {
        id: id.into(),
        name: name.into(),
        message: String::new(),
        interval: 0,
        messages: vec!["  first {user} ".into(), "   ".into(), "second $(name)".into()],
        online: SeTimerSchedule { enabled: true, interval: 15 },
        offline: SeTimerSchedule { enabled: false, interval: 30 },
        chat_lines: 4,
        enabled: true,
    }
}

fn existing_command(id: &str, name: &str) -> ChatCommand {
    ChatCommand {
        id: id.into(),
        name: name.into(),
        aliases: String::new(),
        response: String::new(),
        enabled: true,
        permission: "everyone".into(),
        global_cooldown: 5,
        user_cooldown: 15,
        media_id: None,
    }
}

#[test]
fn names_are_normalised() {
    assert_eq!(normalize_var_name("  ${Song} "), "song");
    assert_eq!(normalize_var_name("$Count"), "count");
    assert_eq!(normalize_cmd(" Enter "), "!enter");
    assert_eq!(normalize_cmd("!Draw"), "!draw");
    assert_eq!(normalize_cmd("  "), "");
    assert_eq!(command_name(" !!Hello "), "hello");
}

#[test]
fn records_are_prepared_for_saving() {
    let c = prepare_command(existing_command("", "!Hello "));
    assert_eq!(c.name, "hello");
    assert_eq!(c.id.len(), 36);
    let mut with_media = existing_command("keep", "x");
    with_media.media_id = Some(String::new());
    let c = prepare_command(with_media);
    assert_eq!(c.id, "keep");
    assert!(c.media_id.is_none());
    assert_eq!(prepare_variable(CustomVariable { id: "v".into(), name: " ${} ".into(), value: "1".into() }).unwrap_err(), "Variable name is required");
    let clip = MediaClip {
        id: "m".into(),
        name: "  ".into(),
        media_type: "sound".into(),
        file_name: "m.mp3".into(),
        duration_ms: 10,
        volume: 150,
        overlay_x: 4,
        overlay_y: 2,
        overlay_w: 8,
        overlay_h: 5,
        always_show: false,
        chroma_key: String::new(),
        chroma_tolerance: 64,
    };
    assert_eq!(prepare_media(clip.clone()).unwrap_err(), "Media name is required");
    let mut named = clip;
    named.name = " Horn ".into();
    let saved = prepare_media(named).unwrap();
    assert_eq!(saved.name, "Horn");
    assert_eq!(saved.volume, 100);
    assert_eq!(saved.duration_ms, 500);
}

#[test]
fn settings_round_trip() {
    let mut store = SettingsStore::new();
    let defaults = get_settings(&store);
    assert_eq!(defaults.account_mode, "streamer");
    assert!(defaults.confirm_giveaway_entry);
    assert_eq!(defaults.theme, "dark");
    let s = AppSettings {
        client_id: "cid".into(),
        channel: "MyChannel".into(),
        bot_login: "MyBot".into(),
        account_mode: "bot".into(),
        setup_complete: true,
        confirm_giveaway_entry: false,
        timers_live_only: true,
        theme: "purple".into(),
    };
    save_settings(&mut store, &s);
    let back = get_settings(&store);
    assert_eq!(back.client_id, "cid");
    assert_eq!(back.channel, "mychannel");
    assert_eq!(back.bot_login, "mybot");
    assert_eq!(back.account_mode, "bot");
    assert!(back.setup_complete);
    assert!(!back.confirm_giveaway_entry);
    assert!(back.timers_live_only);
    assert_eq!(back.theme, "dark");
}

#[test]
fn se_keys_and_defaults() {
    assert!(default_true());
    assert_eq!(default_access(), 100);
    assert_eq!(cmd_key(&se_command("", "!hi", "", 100)), "!hi");
    assert_eq!(cmd_key(&se_command("abc", "!hi", "", 100)), "abc");
    assert_eq!(var_key(&SeVariable { id: String::new(), name: "n".into(), value: "v".into() }), "n");
    let t = se_timer("", "Promo");
    assert_eq!(se_timer_interval_mins(&t), 15);
    assert_eq!(timer_key(&t), "Promo:15");
    assert!(se_timer_live_only(&t));
    assert_eq!(se_timer_message(&t), "first ${user} | second ${user}");
    let mut flat = se_timer("x", "");
    flat.message = "  Flat {name} ".into();
    flat.interval = 3;
    assert_eq!(se_timer_message(&flat), "Flat ${user}");
    assert_eq!(se_timer_interval_mins(&flat), 3);
    let mut none = se_timer("x", "");
    none.online.interval = 0;
    none.offline.interval = 0;
    assert_eq!(se_timer_interval_mins(&none), 10);
}

#[test]
fn se_messages_and_triggers() {
    assert_eq!(normalize_se_message("hi {user} {name} {username} $(user) $(name)"), "hi ${user} ${user} ${user} ${user} ${user}");
    assert_eq!(map_se_trigger("Sub-Gift").as_deref(), Some("subscribe"));
    assert_eq!(map_se_trigger("RAIDS").as_deref(), Some("raid"));
    assert_eq!(map_se_trigger("cheer_bits").as_deref(), Some("cheer"));
    assert_eq!(map_se_trigger("Go Live").as_deref(), Some("stream_online"));
    assert_eq!(map_se_trigger("end-stream").as_deref(), Some("stream_offline"));
    assert_eq!(map_se_trigger("follower"), None);
}

#[test]
fn first_message_search() {
    assert_eq!(first_message(&s("  hey {user} ")).as_deref(), Some("hey ${user}"));
    assert_eq!(first_message(&JsonValue::Array(vec![s(" "), obj(vec![("msg", s("from obj"))])])).as_deref(), Some("from obj"));
    assert_eq!(first_message(&obj(vec![("text", obj(vec![("messages", JsonValue::Array(vec![s("deep")]))]))])).as_deref(), Some("deep"));
    assert_eq!(first_message(&JsonValue::Null), None);
    assert!(event_enabled(&JsonValue::Bool(false)) == false);
    assert!(event_enabled(&obj(vec![])));
    assert!(!event_enabled(&obj(vec![("enabled", JsonValue::Bool(false))])));
}

#[test]
fn alerts_are_extracted() {
    let doc = obj(vec![
        ("type", s("chatalerts")),
        ("enabled", JsonValue::Bool(true)),
        (
            "options",
            obj(vec![
                ("raid", obj(vec![("message", s("Raid by {user}!")), ("enabled", JsonValue::Bool(true))])),
                ("subscriber", obj(vec![("message", s("Sub!")), ("enabled", JsonValue::Bool(false))])),
                ("follower", obj(vec![("message", s("ignored"))])),
                ("resub", obj(vec![("message", s("dup of subscribe"))])),
            ]),
        ),
        ("modules", JsonValue::Array(vec![obj(vec![("cheer", s("Bits {user}")), ("type", s("alerts"))])])),
    ]);
    let mut out: Vec<SeAutomationPreview> = Vec::new();
    extract_automations_from_value(&doc, &mut out);
    let ids: Vec<&str> = out.iter().map(|a| a.id.as_str()).collect();
    assert_eq!(ids, vec!["se-alert:raid", "se-alert:subscribe", "se-alert:cheer"]);
    assert_eq!(out[0].name, "SE raid");
    assert_eq!(out[0].action_payload, "Raid by ${user}!");
    assert!(out[0].enabled);
    assert!(!out[1].enabled);
    assert_eq!(out[2].trigger_type, "cheer");
}

#[test]
fn extraction_only_appends_distinct_alerts() {
    let alert = |m: &str| obj(vec![("message", s(m))]);
    let make = || obj(vec![
        ("type", s("alerts")),
        ("subscriber", alert("a")),
        ("raid", alert("b")),
        ("cheer", alert("c")),
        ("online", alert("d")),
        ("offline", alert("e")),
        ("gift", alert("f")),
        ("bits", alert("g")),
        ("follower", alert("h")),
        ("raids", alert("   ")),
    ]);
    let doc = make();
    let kept = SeAutomationPreview {
        id: "se-alert:raid".into(),
        name: "earlier".into(),
        trigger_type: "raid".into(),
        action_payload: "kept".into(),
        enabled: true,
    };
    let mut out = vec![kept.clone()];
    extract_automations_from_value(&doc, &mut out);
    extract_automations_from_value(&JsonValue::Array(vec![make(), doc]), &mut out);
    assert_eq!(out.len(), 5);
    assert_eq!(out[0].name, kept.name);
    assert_eq!(out[0].action_payload, kept.action_payload);
    let ids: Vec<&str> = out.iter().map(|a| a.id.as_str()).collect();
    assert_eq!(
        ids,
        vec!["se-alert:raid", "se-alert:subscribe", "se-alert:cheer", "se-alert:stream_online", "se-alert:stream_offline"]
    );
    for a in &out[1..] {
        assert_eq!(a.id, format!("se-alert:{}", a.trigger_type));
        assert!(!a.action_payload.is_empty());
    }
}

#[test]
fn zip_entries() {
    assert_eq!(zip_entry_path("a\\b\\c.json"), "a/b/c.json");
    assert!(is_json_entry("data/Timers.JSON"));
    assert!(!is_json_entry("__MACOSX/x.json"));
    assert!(is_extra_alert_file("export/ALERT-settings.json"));
    assert!(!is_extra_alert_file("export/chat-alerts.json"));
    assert!(!is_extra_alert_file("export/commands.json"));
}

#[test]
fn preview_of_an_export() {
    let cmds = vec![se_command("c1", "!hi", "hello", 100)];
    let timers = vec![se_timer("", "")];
    let vars = vec![
        SeVariable { id: "v1".into(), name: "${Count}".into(), value: "3".into() },
        SeVariable { id: "v2".into(), name: "  ".into(), value: "x".into() },
    ];
    let p = se_preview(&cmds, &timers, &vars, vec![]).unwrap();
    assert_eq!(p.commands[0].id, "c1");
    assert_eq!(p.timers[0].name, "Timer 15");
    assert_eq!(p.timers[0].id, ":15");
    assert_eq!(p.variables.len(), 1);
    assert_eq!(p.variables[0].name, "count");
    let e = se_preview(&vec![], &vec![], &vars[1..].to_vec(), vec![]).unwrap_err();
    assert_eq!(e, "Nothing importable found. Use an export.stream ZIP with commands/, timers/, and/or variables/.");
}

#[test]
fn command_import_collisions() {
    let c = se_command("c1", " !Hello ", "hi {user}", 500);
    let sel = vec!["c1".to_string()];
    let existing = vec![existing_command("e0", "other"), existing_command("e1", "hello"), existing_command("e2", "hello")];
    assert!(matches!(plan_command(&c, &vec![], &existing, "skip"), ImportStep::Unselected));
    assert!(matches!(plan_command(&c, &sel, &existing, "skip"), ImportStep::Skipped));
    match plan_command(&c, &sel, &existing, "overwrite") {
        ImportStep::Imported(row) => {
            assert_eq!(row.id, "e1");
            assert_eq!(row.name, "hello");
            assert_eq!(row.response, "hi ${user}");
            assert_eq!(row.permission, "mod");
            assert_eq!(row.global_cooldown, 30);
            assert_eq!(row.user_cooldown, 15);
        },
        _ => panic!("expected import"),
    }
    match plan_command(&c, &sel, &existing, "rename") {
        ImportStep::Imported(row) => {
            assert_ne!(row.id, "e1");
            assert_eq!(row.id.len(), 36);
        },
        _ => panic!("expected import"),
    }
}

#[test]
fn access_levels_map_to_permissions() {
    let sel = vec!["c".to_string()];
    let perm = |level: i64| match plan_command(&se_command("c", "x", "", level), &sel, &vec![], "skip") {
        ImportStep::Imported(row) => row.permission,
        _ => panic!("expected import"),
    };
    assert_eq!(perm(1500), "broadcaster");
    assert_eq!(perm(1499), "mod");
    assert_eq!(perm(400), "sub");
    assert_eq!(perm(300), "vip");
    assert_eq!(perm(100), "everyone");
    assert_eq!(perm(2000), "everyone");
}

#[test]
fn whole_import_counts() {
    let cmds = vec![se_command("c1", "hello", "a", 100), se_command("c2", "new", "b", 100), se_command("c3", "x", "c", 100)];
    let timers = vec![se_timer("t1", ""), se_timer("t2", "Named")];
    let vars = vec![
        SeVariable { id: "v1".into(), name: "count".into(), value: "3".into() },
        SeVariable { id: "v2".into(), name: "fresh".into(), value: "4".into() },
    ];
    let autos = vec![SeAutomationPreview {
        id: "se-alert:raid".into(),
        name: "SE raid".into(),
        trigger_type: "raid".into(),
        action_payload: "Raid!".into(),
        enabled: true,
    }];
    let existing_cmds = vec![existing_command("e1", "hello")];
    let existing_vars = vec![CustomVariable { id: "ev".into(), name: "count".into(), value: "0".into() }];
    let existing_autos = vec![Automation {
        id: "ea".into(),
        name: "old".into(),
        trigger_type: "raid".into(),
        action_type: "chat".into(),
        action_payload: "x".into(),
        enabled: true,
        cooldown_secs: 10,
    }];
    let plan = plan_import(
        &cmds,
        &timers,
        &vars,
        &autos,
        &vec!["c1".into(), "c2".into()],
        &vec!["t1".into()],
        &vec!["v1".into(), "v2".into()],
        &vec!["se-alert:raid".into()],
        &existing_cmds,
        &existing_vars,
        &existing_autos,
        "skip",
    );
    assert_eq!(plan.result.imported_commands, 1);
    assert_eq!(plan.commands[0].name, "new");
    assert_eq!(plan.result.imported_timers, 1);
    assert_eq!(plan.timers[0].name, "Imported 15");
    assert_eq!(plan.timers[0].min_chat_lines, 4);
    assert_eq!(plan.result.imported_variables, 1);
    assert_eq!(plan.variables[0].name, "fresh");
    assert_eq!(plan.result.imported_automations, 0);
    assert_eq!(plan.result.imported_giveaways, 0);
    assert_eq!(plan.result.skipped, 3);

    let over = plan_import(
        &cmds,
        &timers,
        &vars,
        &autos,
        &vec!["c1".into()],
        &vec![],
        &vec!["v1".into()],
        &vec!["se-alert:raid".into()],
        &existing_cmds,
        &existing_vars,
        &existing_autos,
        "overwrite",
    );
    assert_eq!(over.commands[0].id, "e1");
    assert_eq!(over.variables[0].id, "ev");
    assert_eq!(over.automations[0].id, "ea");
    assert_eq!(over.automations[0].action_type, "chat");
    assert_eq!(over.automations[0].cooldown_secs, 0);
    assert_eq!(over.result.skipped, 0);
}
