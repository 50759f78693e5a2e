use streamry::auth::{
    device_code_failed, first_user, lookup_query, name_check_reply, name_check_unreachable, name_precheck, poll_step,
    scope_text, NamePrecheck, PollStep,
};
use streamry::eventsub::{
    ad_break_of, ad_end_runs, ads_credentials, AdsCredentials, ad_start_detail, check_ads_token, check_main_token, conflict_retry_error, create_outcome,
    idle_limit_secs, is_ad_break_notification, json_u64, last_ad_of, message_kind, new_poller, new_session,
    next_generation, on_reconnect_welcome, on_welcome, poll_observed, poll_user, reconnect_target, register_ad_start,
    retry_wait_secs, stale_subscription_ids, subscribe_error, CreateSubError, MessageKind, SessionInfo, TokenInfo,
    WelcomeAction, EVENTSUB_WS,
};
use streamry::json::{JsonNumber, JsonValue};
use streamry::models::TwitchUser;

fn s(t: &str) -> JsonValue {
    JsonValue::Str(t.into())
}

fn obj(members: Vec<(&str, JsonValue)>) -> JsonValue {
    JsonValue::Object(members.into_iter().map(|(k, v)| (k.to_string(), v)).collect())
}

fn num(n: i64) -> JsonValue {
    JsonValue::Number(JsonNumber {
        as_u64: if n >= 0 { Some(n as u64) } else { None },
        as_i64: Some(n),
        float_as_u64: Some(if n >= 0 { n as u64 } else { 0 }),
        text: n.to_string(),
    })
}

fn float(f: f64) -> JsonValue {
    JsonValue::Number(JsonNumber { as_u64: None, as_i64: None, float_as_u64: Some(f as u64), text: f.to_string() })
}

#[test]
fn device_code_flow() {
    assert_eq!(scope_text(&vec!["chat:read".into(), "chat:edit".into()]), "chat:read chat:edit");
    assert_eq!(scope_text(&vec![]), "");
    assert_eq!(device_code_failed("nope"), "Device code request failed: nope");
    assert!(matches!(poll_step(true, "{}", 5), PollStep::Done));
    assert!(matches!(poll_step(false, "{\"message\":\"authorization_pending\"}", 5), PollStep::Wait(5)));
    assert!(matches!(poll_step(false, "slow_down", 5), PollStep::Wait(10)));
    assert!(matches!(poll_step(false, "authorization_pending", u64::MAX), PollStep::Wait(u64::MAX)));
    assert!(matches!(poll_step(true, "{}", u64::MAX), PollStep::Done));
    match poll_step(false, "expired", 5) {
        PollStep::Fail(e) => assert_eq!(e, "Authorization failed: expired"),
        _ => panic!("expected failure"),
    }
    let u = TwitchUser { id: "1".into(), login: "a".into(), display_name: "A".into() };
    assert_eq!(first_user(vec![u.clone(), u.clone()]).unwrap().login, "a");
    assert_eq!(first_user(vec![]).unwrap_err(), "No Twitch user returned.");
}

#[test]
fn app_name_prechecks() {
    match name_precheck("  ab ") {
        NamePrecheck::Answer(a) => {
            assert!(!a.ok);
            assert_eq!(a.status, "invalid");
            assert_eq!(a.message, "Name must be between 3 and 100 characters.");
        },
        _ => panic!("expected an answer"),
    }
    assert!(matches!(name_precheck(&"x".repeat(101)), NamePrecheck::Answer(a) if a.status == "invalid"));
    match name_precheck("My Cool-Bot!") {
        NamePrecheck::Lookup(l) => assert_eq!(l, "my_cool_bot"),
        _ => panic!("expected a lookup"),
    }
    match name_precheck("__Ab__") {
        NamePrecheck::Answer(a) => {
            assert_eq!(a.status, "unchecked");
            assert_eq!(a.suggested.as_deref(), Some("AbBot"));
        },
        _ => panic!("expected an answer"),
    }
    match name_precheck("!!!") {
        NamePrecheck::Answer(a) => assert_eq!(a.suggested.as_deref(), Some("MyChannelBot")),
        _ => panic!("expected an answer"),
    }
    match name_precheck("A very long application name for the bot") {
        NamePrecheck::Answer(a) => assert_eq!(a.suggested.as_deref(), Some("AverylongappBot")),
        _ => panic!("expected an answer"),
    }
    // Byte length counts: three two-byte letters pass the minimum.
    assert!(matches!(name_precheck("ééé"), NamePrecheck::Answer(a) if a.status == "unchecked"));
}

#[test]
fn app_name_answers() {
    assert_eq!(lookup_query("a\"b"), "query { user(login: \"ab\") { id login displayName } }");
    let u = name_check_unreachable("my_bot");
    assert_eq!(u.status, "unknown");
    assert_eq!(u.suggested.as_deref(), Some("my_bot_bot"));
    let taken = obj(vec![("data", obj(vec![("user", obj(vec![("displayName", s("MyBot"))]))]))]);
    let r = name_check_reply("mybot", &taken);
    assert_eq!(r.status, "taken");
    assert_eq!(
        r.message,
        "“MyBot” is already a Twitch username. App names are separate, but for uniqueness try adding your channel name."
    );
    let taken_no_name = obj(vec![("data", obj(vec![("user", obj(vec![]))]))]);
    assert!(name_check_reply("mybot", &taken_no_name).message.starts_with("“mybot”"));
    let free = obj(vec![("data", obj(vec![("user", JsonValue::Null)]))]);
    let r = name_check_reply("mybot", &free);
    assert_eq!(r.status, "available");
    assert_eq!(r.message, "No Twitch account uses “mybot” — good unique choice for your app name.");
    assert!(r.suggested.is_none());
    assert_eq!(name_check_reply("mybot", &JsonValue::Null).status, "available");
}

#[test]
fn json_seconds() {
    assert_eq!(json_u64(&num(30)), Some(30));
    assert_eq!(json_u64(&num(-3)), Some(0));
    assert_eq!(json_u64(&float(12.9)), Some(12));
    assert_eq!(json_u64(&s(" 45 ")), Some(45));
    assert_eq!(json_u64(&s("x")), None);
    assert_eq!(json_u64(&JsonValue::Bool(true)), None);
}

#[test]
fn session_decisions() {
    assert_eq!(retry_wait_secs("Missing channel:read:ads."), 60);
    assert_eq!(retry_wait_secs("ws closed"), 5);
    assert_eq!(idle_limit_secs(10), 20);
    assert_eq!(idle_limit_secs(30), 60);
    assert_eq!(idle_limit_secs(u64::MAX), u64::MAX);
    assert_eq!(message_kind("session_welcome"), MessageKind::Welcome);
    assert_eq!(message_kind("revocation"), MessageKind::Revocation);
    assert_eq!(message_kind("other"), MessageKind::Other);
    let mut fresh = new_session(EVENTSUB_WS);
    assert!(!fresh.on_reconnect_url);
    let info = SessionInfo { id: "s1".into(), reconnect_url: None, keepalive_timeout_seconds: Some(30) };
    assert_eq!(on_welcome(&mut fresh, &info), WelcomeAction::Subscribe);
    assert_eq!(fresh.keepalive_secs, 30);
    let mut moved = new_session("wss://elsewhere");
    assert_eq!(on_welcome(&mut moved, &info), WelcomeAction::Armed);
    assert!(moved.subscribed);
    let zero = SessionInfo { id: "s".into(), reconnect_url: Some(String::new()), keepalive_timeout_seconds: Some(0) };
    on_reconnect_welcome(&mut moved, &zero);
    assert_eq!(moved.keepalive_secs, 30);
    assert!(reconnect_target(&zero).is_none());
    let to = SessionInfo { id: "s".into(), reconnect_url: Some("wss://x".into()), keepalive_timeout_seconds: None };
    assert_eq!(reconnect_target(&to).as_deref(), Some("wss://x"));
}

#[test]
fn ad_break_notifications() {
    let payload = obj(vec![
        ("subscription", obj(vec![("type", s("channel.ad_break.begin"))])),
        ("event", obj(vec![("duration_seconds", num(90)), ("broadcaster_user_name", s("Streamer"))])),
    ]);
    assert!(is_ad_break_notification(&None, &payload));
    assert!(is_ad_break_notification(&Some("channel.ad_break.begin".into()), &JsonValue::Null));
    assert!(!is_ad_break_notification(&Some("channel.follow".into()), &JsonValue::Null));
    let b = ad_break_of(&payload, &None).unwrap();
    assert_eq!((b.user.as_str(), b.duration_secs), ("Streamer", 90));
    let bare = obj(vec![("duration_seconds", num(0)), ("broadcaster_user_login", s("login"))]);
    let b = ad_break_of(&bare, &Some("chan".into())).unwrap();
    assert_eq!((b.user.as_str(), b.duration_secs), ("login", 1));
    let b = ad_break_of(&obj(vec![("event", obj(vec![]))]), &Some("chan".into())).unwrap();
    assert_eq!((b.user.as_str(), b.duration_secs), ("chan", 60));
    let b = ad_break_of(&obj(vec![("event", obj(vec![]))]), &None).unwrap();
    assert_eq!(b.user, "channel");
    assert!(ad_break_of(&obj(vec![]), &None).is_none());
}

#[test]
fn ad_starts_are_deduplicated() {
    let mut last = 0u64;
    assert!(register_ad_start(&mut last, 1000));
    assert_eq!(last, 1000);
    assert!(!register_ad_start(&mut last, 1089));
    assert_eq!(last, 1000);
    assert!(register_ad_start(&mut last, 1090));
    assert!(!register_ad_start(&mut last, 500));
    assert_eq!(ad_start_detail(90, "eventsub"), "Started (90s via eventsub) — running ad_start automations");
    let mut g = 0u64;
    let first = next_generation(&mut g);
    let second = next_generation(&mut g);
    assert!(!ad_end_runs(g, first));
    assert!(ad_end_runs(g, second));
}

#[test]
fn subscription_answers() {
    assert!(create_outcome(true, 202, "202 Accepted", "", &None).is_ok());
    match create_outcome(false, 409, "409 Conflict", "{}", &Some(obj(vec![("data", JsonValue::Array(vec![obj(vec![("id", s("old"))])]))]))) {
        Err(CreateSubError::Conflict(id)) => assert_eq!(id, "old"),
        other => panic!("unexpected {other:?}"),
    }
    match create_outcome(false, 409, "409 Conflict", "x", &None) {
        Err(CreateSubError::Conflict(id)) => assert_eq!(id, ""),
        other => panic!("unexpected {other:?}"),
    }
    match create_outcome(false, 403, "403 Forbidden", "no", &None) {
        Err(e) => {
            assert_eq!(e.message(), "403 Forbidden: no");
            assert_eq!(
                subscribe_error(&e.message()),
                "Could not subscribe to ad breaks. Needs channel:read:ads from the broadcaster account — reconnect Twitch (or Authorize streamer for ads) in Settings. (403 Forbidden: no)"
            );
        },
        Ok(_) => panic!("expected an error"),
    }
    assert_eq!(subscribe_error("boom"), "Could not subscribe to ad breaks. (boom)");
    assert_eq!(
        conflict_retry_error(&CreateSubError::Conflict("x".into())),
        "Could not subscribe to ad breaks after clearing conflict: conflict id=x"
    );
    let subs = vec![
        obj(vec![("id", s("a")), ("condition", obj(vec![("broadcaster_user_id", s("b1"))])), ("transport", obj(vec![("session_id", s("old"))]))]),
        obj(vec![("id", s("b")), ("condition", obj(vec![("broadcaster_user_id", s("b1"))])), ("transport", obj(vec![("session_id", s("cur"))]))]),
        obj(vec![("id", s("c")), ("condition", obj(vec![("broadcaster_user_id", s("b2"))]))]),
        obj(vec![("condition", obj(vec![("broadcaster_user_id", s("b1"))]))]),
    ];
    assert_eq!(stale_subscription_ids(&subs, "b1", "cur"), vec!["a".to_string()]);
}

#[test]
fn ads_tokens_are_checked() {
    let info = |login: &str, scopes: Vec<&str>| TokenInfo {
        login: login.into(),
        user_id: "9".into(),
        scopes: scopes.into_iter().map(String::from).collect(),
    };
    assert!(check_ads_token(&info("Streamer", vec!["channel:read:ads"]), "streamer").is_ok());
    assert_eq!(
        check_ads_token(&info("streamer", vec![]), "Streamer").unwrap_err(),
        "Streamer ads login is missing channel:read:ads. Authorize the streamer again in Settings."
    );
    assert_eq!(
        check_ads_token(&info("other", vec!["channel:read:ads"]), "Streamer").unwrap_err(),
        "Ads authorization is for “other”, but the channel is “Streamer”. Authorize while logged in as the streamer."
    );
    assert_eq!(
        check_main_token(&info("bot", vec!["channel:read:ads"]), "chan").unwrap_err(),
        "Ad triggers need the streamer’s Twitch login. Chat is connected as “bot”. In Settings, use “Authorize streamer for ads” while logged into Twitch as chan."
    );
    assert_eq!(
        check_main_token(&info("chan", vec!["chat:read"]), "chan").unwrap_err(),
        "Missing channel:read:ads. Reconnect Twitch in Settings so the ads permission is granted."
    );
    assert!(check_main_token(&info("CHAN", vec!["channel:read:ads"]), "chan").is_ok());
}

#[test]
fn the_ads_token_decides_when_present() {
    let info = |login: &str, scopes: Vec<&str>| TokenInfo {
        login: login.into(),
        user_id: "42".into(),
        scopes: scopes.into_iter().map(String::from).collect(),
    };
    match ads_credentials(Some(("ads-tok".into(), info("Streamer", vec!["channel:read:ads"]))), "streamer") {
        AdsCredentials::Ready(t, u) => {
            assert_eq!(t, "ads-tok");
            assert_eq!(u, "42");
        }
        other => panic!("unexpected {other:?}"),
    }
    match ads_credentials(Some(("ads-tok".into(), info("streamer", vec![]))), "streamer") {
        AdsCredentials::Refused(e) => assert_eq!(
            e,
            "Streamer ads login is missing channel:read:ads. Authorize the streamer again in Settings."
        ),
        other => panic!("unexpected {other:?}"),
    }
    assert!(matches!(ads_credentials(None, "streamer"), AdsCredentials::TryMain));
}

#[test]
fn ad_schedule_poll() {
    let body = |last: JsonValue| obj(vec![("data", JsonValue::Array(vec![obj(vec![("last_ad_at", last), ("duration", num(30))])]))]);
    assert_eq!(last_ad_of(&body(s("2024-01-01T00:00:00Z"))), Ok(Some(("2024-01-01T00:00:00Z".to_string(), 30))));
    assert_eq!(last_ad_of(&body(num(1700000000))), Ok(Some(("1700000000".to_string(), 30))));
    assert_eq!(last_ad_of(&body(num(0))), Ok(None));
    assert_eq!(last_ad_of(&body(s(""))), Ok(None));
    assert_eq!(last_ad_of(&obj(vec![("data", JsonValue::Array(vec![]))])), Err("empty ads schedule".to_string()));
    assert_eq!(last_ad_of(&obj(vec![("data", JsonValue::Array(vec![obj(vec![])]))])), Err("no last_ad_at".to_string()));

    let t1 = "2024-05-01T10:00:00Z";
    let t2 = "2024-05-01T10:30:00Z";
    let t3 = "2024-05-01T11:00:00.5Z";
    let mut p = new_poller();
    assert_eq!(poll_observed(&mut p, Ok(Some((t1.into(), 30))), false), None);
    assert!(p.primed);
    assert_eq!(poll_observed(&mut p, Ok(Some((t1.into(), 30))), false), None);
    assert_eq!(poll_observed(&mut p, Ok(Some((t2.into(), 0))), false), Some(1));
    // an earlier ad neither fires nor replaces the recorded one
    assert_eq!(poll_observed(&mut p, Ok(Some(("2024-05-01T09:00:00Z".into(), 30))), false), None);
    assert_eq!(p.seen_last.as_deref(), Some(t2));
    // the same instant written with another offset is no advance
    assert_eq!(poll_observed(&mut p, Ok(Some(("2024-05-01T12:30:00+02:00".into(), 30))), false), None);
    assert_eq!(p.seen_last.as_deref(), Some(t2));
    // an unreadable value changes nothing
    assert_eq!(poll_observed(&mut p, Ok(Some(("soon".into(), 30))), false), None);
    assert_eq!(p.seen_last.as_deref(), Some(t2));
    assert_eq!(poll_observed(&mut p, Ok(Some((t3.into(), 30))), true), None);
    assert_eq!(p.seen_last.as_deref(), Some(t3));
    assert_eq!(poll_observed(&mut p, Err("down".into()), false), None);
    assert_eq!(p.seen_last.as_deref(), Some(t3));
    let mut q = new_poller();
    assert_eq!(poll_observed(&mut q, Ok(None), false), None);
    assert!(q.primed);
    assert_eq!(poll_observed(&mut q, Ok(Some((t1.into(), 20))), false), Some(20));
    // epoch seconds compare as times too
    let mut n = new_poller();
    assert_eq!(poll_observed(&mut n, Ok(Some(("1700000000".into(), 30))), false), None);
    assert_eq!(poll_observed(&mut n, Ok(Some(("1699999999".into(), 30))), false), None);
    assert_eq!(poll_observed(&mut n, Ok(Some(("1700000100".into(), 45))), false), Some(45));
    // a recorded value that is not a time is replaced without firing
    let mut w = new_poller();
    assert_eq!(poll_observed(&mut w, Ok(Some(("garbled".into(), 30))), false), None);
    assert_eq!(poll_observed(&mut w, Ok(Some((t1.into(), 30))), false), None);
    assert_eq!(w.seen_last.as_deref(), Some(t1));
    assert_eq!(poll_observed(&mut w, Ok(Some((t2.into(), 30))), false), Some(30));
    assert_eq!(poll_user(Some("live".into()), "cfg"), "live");
    assert_eq!(poll_user(None, "cfg"), "cfg");
}
