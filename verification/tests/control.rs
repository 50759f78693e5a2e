use streamry::control::{
    automation_items, chat_detail, chat_message, command_items, draw_detail, giveaway_items, media_items,
    media_not_found, not_connected, played_detail, require_auth, started_giveaway_title, status_response, ControlHub,
    DEFAULT_PORT, TOKEN_HEADER,
};
use streamry::models::{Giveaway, GiveawayWinner, TwitchUser};
use streamry::runtime::{
    begin_connect, bot_login_for, chat_loop_ended, client_id_for_login, connect_failed, connect_settings_ok, connected,
    count_chat_line, disconnected, is_flag_set, login_settings, poll_interval, reset_runtime, set_ads_state, set_live,
    should_auto_connect, status_view, RuntimeStatus,
};
use streamry::streamdeck::{
    choose_token, connection_file_target, install_path, join_path, plugin_connection, port_needs_default, port_or,
    status, status_message, PLUGIN_FOLDER_NAME,
};

#[test]
fn control_hub_state() {
    let mut hub = ControlHub::new(DEFAULT_PORT, false, String::new());
    assert!(!hub.is_enabled());
    hub.set_enabled(true);
    hub.set_token("tok".into());
    assert!(hub.is_enabled());
    assert_eq!(hub.token_snapshot(), "tok");
    assert_eq!(hub.port, 1920);
    assert_eq!(TOKEN_HEADER, "x-streamry-token");
}

#[test]
fn requests_need_the_token() {
    let off = ControlHub::new(1920, false, "tok".into());
    let e = require_auth(&off, "tok").unwrap_err();
    assert_eq!((e.status, e.message.as_str()), (503, "Stream Deck control API is disabled"));
    let no_token = ControlHub::new(1920, true, String::new());
    let e = require_auth(&no_token, "").unwrap_err();
    assert_eq!((e.status, e.message.as_str()), (503, "Stream Deck control token not configured"));
    let on = ControlHub::new(1920, true, "tok".into());
    let e = require_auth(&on, "nope").unwrap_err();
    assert_eq!((e.status, e.message.as_str()), (401, "Invalid or missing token"));
    assert!(require_auth(&on, "").is_err());
    assert!(require_auth(&on, "tok").is_ok());
}

#[test]
fn chat_requests() {
    assert_eq!(chat_message("  hello  ").unwrap(), "hello");
    let e = chat_message("   ").unwrap_err();
    assert_eq!((e.status, e.message.as_str()), (400, "Message is empty"));
    assert_eq!(not_connected().message, "Bot is not connected.");
    assert_eq!(media_not_found().status, 404);
    assert_eq!(chat_detail("hi"), "hi (Stream Deck)");
    assert_eq!(played_detail("gif"), "Played gif on overlay (Stream Deck)");
    let ws = vec![GiveawayWinner { user_id: "1".into(), login: "a".into() }, GiveawayWinner { user_id: "2".into(), login: "b".into() }];
    assert_eq!(draw_detail(&ws), "Winner(s): @a, @b (Stream Deck)");
}

fn runtime() -> RuntimeStatus {
    RuntimeStatus::initial()
}

#[test]
fn api_answers() {
    let mut rt = runtime();
    rt.connected = true;
    rt.channel = Some("chan".into());
    let s = status_response(&rt, true);
    assert!(s.ok && s.connected && !s.connecting && s.control_enabled);
    assert_eq!(s.channel.as_deref(), Some("chan"));
    assert_eq!(s.version, "0.1.0");
    let g = |id: &str, title: &str| Giveaway {
        id: id.into(),
        title: title.into(),
        prize: String::new(),
        entry_command: "!enter".into(),
        draw_command: "!draw".into(),
        duration_mins: None,
        winner_count: 1,
        eligibility: "everyone".into(),
        exclude_mods: false,
        confirm_entry: false,
        announce_template: String::new(),
        enabled: true,
    };
    let list = vec![g("a", "A"), g("b", "B")];
    let items = giveaway_items(&list, &Some("b".into()));
    assert!(!items[0].active && items[1].active);
    assert_eq!(items[1].title, "B");
    assert!(giveaway_items(&list, &None).iter().all(|i| !i.active));
    assert_eq!(started_giveaway_title(&list, "b"), "B");
    assert_eq!(started_giveaway_title(&list, "z"), "Giveaway");
    assert!(command_items(&vec![]).is_empty());
    assert!(automation_items(&vec![]).is_empty());
    assert!(media_items(&vec![]).is_empty());
}

#[test]
fn connecting_and_disconnecting() {
    let mut rt = runtime();
    assert!(begin_connect(&mut rt));
    assert!(rt.connecting);
    assert!(!begin_connect(&mut rt));
    connect_failed(&mut rt);
    assert!(!rt.connecting);
    assert!(begin_connect(&mut rt));
    connected(&mut rt, "chan".into(), "bot".into());
    assert!(rt.connected && !rt.connecting);
    assert_eq!(rt.bot_login.as_deref(), Some("bot"));
    assert!(!begin_connect(&mut rt));
    chat_loop_ended(&mut rt, Err("boom".into()));
    assert!(!rt.connected);
    assert_eq!(rt.last_error.as_deref(), Some("boom"));
    chat_loop_ended(&mut rt, Ok(()));
    assert_eq!(rt.last_error.as_deref(), Some("boom"));
    assert!(begin_connect(&mut rt));
    assert!(rt.last_error.is_none());
    disconnected(&mut rt);
    assert!(!rt.connected && !rt.connecting);
    assert_eq!(connect_settings_ok("", "c").unwrap_err(), "Connect Twitch and set a channel first.");
    assert!(connect_settings_ok("id", "c").is_ok());
    assert_eq!(bot_login_for(String::new(), "chan"), "chan");
    assert_eq!(bot_login_for("bot".into(), "chan"), "bot");
}

#[test]
fn runtime_updates() {
    let mut rt = runtime();
    count_chat_line(&mut rt);
    count_chat_line(&mut rt);
    assert_eq!(rt.chat_lines, 2);
    assert_eq!(set_live(&mut rt, true).as_deref(), Some("stream_online"));
    assert!(set_live(&mut rt, true).is_none());
    assert_eq!(set_live(&mut rt, false).as_deref(), Some("stream_offline"));
    set_ads_state(&mut rt, true, None);
    assert!(rt.ads_listening);
    rt.channel = Some("c".into());
    rt.connected = true;
    reset_runtime(&mut rt);
    assert!(!rt.connected && rt.channel.is_none() && rt.chat_lines == 0 && !rt.live);
    let v = status_view(&rt, &Some("1".into()), Some("chan".into()), None);
    assert!(v.setup_complete);
    assert_eq!(v.channel.as_deref(), Some("chan"));
    assert!(!is_flag_set(&Some("true".into())));
    assert!(should_auto_connect(&Some("1".into()), &Some("id".into()), &Some("c".into())));
    assert!(!should_auto_connect(&Some("1".into()), &Some(String::new()), &Some("c".into())));
    assert!(!should_auto_connect(&None, &Some("id".into()), &Some("c".into())));
}

#[test]
fn device_login_steps() {
    assert_eq!(client_id_for_login(Some("cid".into())).unwrap(), "cid");
    assert_eq!(
        client_id_for_login(Some(String::new())).unwrap_err(),
        "Add your Twitch Client ID in Settings first (from dev.twitch.tv)."
    );
    assert!(client_id_for_login(None).is_err());
    let user = TwitchUser { id: "42".into(), login: "me".into(), display_name: "Me".into() };
    let s = login_settings(&user, &None);
    assert_eq!(
        s,
        vec![("bot_login".to_string(), "me".to_string()), ("channel".to_string(), "me".to_string()), ("bot_user_id".to_string(), "42".to_string())]
    );
    let s = login_settings(&user, &Some("bot".into()));
    assert_eq!(s, vec![("bot_login".to_string(), "me".to_string()), ("bot_user_id".to_string(), "42".to_string())]);
    assert_eq!(poll_interval(0), 1);
    assert_eq!(poll_interval(5), 5);
}

#[test]
fn stream_deck_plugin_paths() {
    assert_eq!(join_path("/a/b", "c", '/'), "/a/b/c");
    assert_eq!(join_path("/a/b/", "c", '/'), "/a/b/c");
    assert_eq!(join_path("C:\\x", "c", '\\'), "C:\\x\\c");
    assert_eq!(join_path("", "c", '/'), "c");
    assert_eq!(install_path(&Some("/p".into()), '/').unwrap(), format!("/p/{PLUGIN_FOLDER_NAME}"));
    assert!(install_path(&None, '/').is_none());
    assert_eq!(
        connection_file_target(&None, false, '/').unwrap_err(),
        "Stream Deck is not supported on this OS (Windows and macOS only)."
    );
    assert_eq!(connection_file_target(&Some("/p".into()), false, '/').unwrap_err(), "Plugin is not installed yet.");
    assert_eq!(connection_file_target(&Some("/p".into()), true, '/').unwrap(), "/p/streamry-connection.json");
}

#[test]
fn stream_deck_tokens_and_status() {
    let kept = choose_token(Some("abc".into()));
    assert!(!kept.fresh);
    assert_eq!(kept.token, "abc");
    let fresh = choose_token(Some(String::new()));
    assert!(fresh.fresh);
    assert_eq!(fresh.token.len(), 32);
    assert!(port_needs_default(&Some(String::new())));
    assert!(!port_needs_default(&None));
    assert_eq!(port_or(&Some("4000".into()), 1920), 4000);
    assert_eq!(port_or(&Some("x".into()), 1920), 1920);
    let c = plugin_connection(1920, "tok");
    assert_eq!(c.base_url, "http://127.0.0.1:1920");
    assert_eq!(c.token, "tok");
    assert_eq!(status_message(false, false, false), "Stream Deck integration is available on Windows and macOS.");
    assert_eq!(
        status_message(true, false, true),
        "Plugin not installed. Click Install to add Streamry actions to Stream Deck."
    );
    assert_eq!(
        status_message(true, true, false),
        "Plugin installed. Enable the control API so Stream Deck can reach Streamry."
    );
    let st = status(Some("/p/x".into()), true, &Some("1".into()), &None, &Some("t".into()), true);
    assert!(st.supported && st.installed && st.control_enabled && st.has_token && st.control_running);
    assert_eq!(st.control_port, 1920);
    assert_eq!(
        st.message,
        "Installed. Restart Stream Deck if actions don’t appear, then find Streamry in the action list."
    );
    let none = status(None, false, &None, &Some("99".into()), &Some(String::new()), false);
    assert!(!none.supported && !none.has_token);
    assert_eq!(none.control_port, 99);
}
