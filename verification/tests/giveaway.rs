use std::collections::HashSet;

use streamry::giveaway::{
    active_view, auto_draw_due, auto_draw_step, chat_action, draw_chat_reply, draw_open_run, draw_winners, entry_reply,
    format_announce, history_limit, history_with_winners, should_auto_draw, start_run, start_run_at, winner_mentions,
    GiveawayChatAction,
};
use streamry::models::{ActiveGiveawayView, Giveaway, GiveawayRunHistory, GiveawayWinner, IncomingChat};

fn giveaway(id: &str) -> Giveaway {
    Giveaway {
        id: id.into(),
        title: "Big one".into(),
        prize: "a key".into(),
        entry_command: "!Enter".into(),
        draw_command: "!draw".into(),
        duration_mins: None,
        winner_count: 2,
        eligibility: "everyone".into(),
        exclude_mods: false,
        confirm_entry: true,
        announce_template: "Winner: ${winner} wins ${prize} (${entries} entries)".into(),
        enabled: true,
    }
}

fn active(g: Giveaway, winners: Vec<GiveawayWinner>) -> ActiveGiveawayView {
    ActiveGiveawayView {
        giveaway: g,
        run_id: "run".into(),
        status: "open".into(),
        started_at: "2024-01-01T00:00:00+00:00".into(),
        ends_at: None,
        entry_count: 0,
        winners,
    }
}

fn chatter(msg: &str) -> IncomingChat {
    IncomingChat {
        user_id: "1".into(),
        login: "viewer".into(),
        display: "Viewer".into(),
        message: msg.into(),
        is_mod: false,
        is_vip: false,
        is_sub: false,
        is_broadcaster: false,
        bits: 0,
    }
}

fn winner(id: &str) -> GiveawayWinner {
    GiveawayWinner { user_id: id.into(), login: format!("user{id}") }
}

#[test]
fn chat_entries_and_draws() {
    let a = active(giveaway("g"), vec![]);
    assert_eq!(chat_action(&a, &chatter("  !ENTER  ")), GiveawayChatAction::Enter);
    assert_eq!(chat_action(&a, &chatter("!enter please")), GiveawayChatAction::Enter);
    assert_eq!(chat_action(&a, &chatter("!entering")), GiveawayChatAction::NotGiveaway);
    assert_eq!(chat_action(&a, &chatter("!draw")), GiveawayChatAction::Ignore);
    let mut m = chatter("!draw now");
    m.is_mod = true;
    assert_eq!(chat_action(&a, &m), GiveawayChatAction::Draw);
    let mut b = chatter("!enter");
    b.is_broadcaster = true;
    assert_eq!(chat_action(&a, &b), GiveawayChatAction::Ignore);
}

#[test]
fn eligibility_rules() {
    let mut g = giveaway("g");
    g.eligibility = "sub".into();
    g.exclude_mods = true;
    let a = active(g, vec![]);
    assert_eq!(chat_action(&a, &chatter("!enter")), GiveawayChatAction::Ignore);
    let mut s = chatter("!enter");
    s.is_sub = true;
    assert_eq!(chat_action(&a, &s), GiveawayChatAction::Enter);
    let mut m = chatter("!enter");
    m.is_mod = true;
    assert_eq!(chat_action(&a, &m), GiveawayChatAction::Ignore);
}

#[test]
fn entry_confirmation() {
    assert_eq!(entry_reply(1, true, "Viewer").as_deref(), Some("@Viewer you're in! Good luck ✨"));
    assert!(entry_reply(0, true, "Viewer").is_none());
    assert!(entry_reply(1, false, "Viewer").is_none());
}

#[test]
fn draw_picks_distinct_entrants_in_count() {
    let entries: Vec<GiveawayWinner> = (0..10).map(|i| winner(&i.to_string())).collect();
    for _ in 0..20 {
        let w = draw_winners(entries.clone(), 3, vec![]).unwrap();
        assert_eq!(w.len(), 3);
        let ids: HashSet<String> = w.iter().map(|x| x.user_id.clone()).collect();
        assert_eq!(ids.len(), 3);
        assert!(w.iter().all(|x| entries.iter().any(|e| e.user_id == x.user_id)));
    }
    assert_eq!(draw_winners(entries.clone(), 0, vec![]).unwrap().len(), 1);
    assert_eq!(draw_winners(entries.clone(), 50, vec![]).unwrap().len(), 10);
}

#[test]
fn draw_keeps_existing_winners() {
    let existing = vec![winner("7")];
    let w = draw_winners(vec![winner("1"), winner("2")], 1, existing).unwrap();
    assert_eq!(w.len(), 1);
    assert_eq!(w[0].user_id, "7");
}

#[test]
fn draw_errors() {
    assert_eq!(draw_winners(vec![], 1, vec![]).unwrap_err(), "No one has entered yet.");
    assert_eq!(draw_open_run(None, vec![winner("1")]).unwrap_err(), "No open giveaway.");
    let a = active(giveaway("g"), vec![]);
    assert_eq!(draw_open_run(Some(a), vec![winner("1"), winner("2"), winner("3")]).unwrap().len(), 2);
}

#[test]
fn announcement_text() {
    let ws = vec![winner("1"), winner("2")];
    assert_eq!(winner_mentions(&ws), "@user1, @user2");
    assert_eq!(winner_mentions(&vec![]), "");
    assert_eq!(
        format_announce("Winner: ${winner} wins ${prize} (${entries} entries)", "a key", 12, &ws),
        "Winner: @user1, @user2 wins a key (12 entries)"
    );
    let ok: Result<Vec<GiveawayWinner>, String> = Ok(ws.clone());
    assert_eq!(draw_chat_reply(&ok, "${winner}!", "p", 1).as_deref(), Some("@user1, @user2!"));
    let none: Result<Vec<GiveawayWinner>, String> = Ok(vec![]);
    assert!(draw_chat_reply(&none, "${winner}!", "p", 1).is_none());
    let err: Result<Vec<GiveawayWinner>, String> = Err("No one has entered yet.".into());
    assert_eq!(draw_chat_reply(&err, "${winner}!", "p", 1).as_deref(), Some("No one has entered yet."));
}

#[test]
fn history_filters_and_limits() {
    assert_eq!(history_limit(0), 1);
    assert_eq!(history_limit(500), 200);
    assert_eq!(history_limit(50), 50);
    let row = |id: &str, ws: Vec<GiveawayWinner>| GiveawayRunHistory {
        run_id: id.into(),
        giveaway_id: "g".into(),
        title: "t".into(),
        prize: "p".into(),
        started_at: "s".into(),
        ends_at: None,
        entry_count: 1,
        winners: ws,
    };
    let kept = history_with_winners(vec![row("a", vec![]), row("b", vec![winner("1")]), row("c", vec![])]);
    assert_eq!(kept.len(), 1);
    assert_eq!(kept[0].run_id, "b");
}

#[test]
fn active_view_needs_its_giveaway() {
    let v = active_view("r".into(), "g2", "open".into(), None, "s".into(), vec![giveaway("g1"), giveaway("g2")], 4, vec![])
        .unwrap();
    assert_eq!(v.giveaway.id, "g2");
    assert_eq!(v.entry_count, 4);
    let e = active_view("r".into(), "zz", "open".into(), None, "s".into(), vec![giveaway("g1")], 0, vec![]).unwrap_err();
    assert_eq!(e, "Giveaway definition missing.");
}

#[test]
fn auto_draw_after_end_time() {
    assert!(should_auto_draw(Some((100, 0)), (100, 0), false));
    assert!(!should_auto_draw(Some((100, 1)), (100, 0), false));
    assert!(!should_auto_draw(Some((100, 0)), (200, 0), true));
    assert!(!should_auto_draw(None, (200, 0), false));
    let ends = Some("2024-01-01T00:00:00Z".to_string());
    assert!(auto_draw_due(&ends, (1704067200, 0), false));
    assert!(!auto_draw_due(&ends, (1704067199, 999), false));
    assert!(!auto_draw_due(&Some("garbage".into()), (i64::MAX, 0), false));
    assert!(!auto_draw_due(&None, (i64::MAX, 0), false));
}

#[test]
fn runs_start_with_fresh_ids() {
    let mut timed = giveaway("timed");
    timed.duration_mins = Some(5);
    let list = vec![giveaway("plain"), timed];
    let r = start_run(&list, "timed").unwrap();
    assert_eq!(r.giveaway_id, "timed");
    assert_eq!(r.run_id.len(), 36);
    assert!(r.ends_at.is_some());
    let r2 = start_run(&list, "plain").unwrap();
    assert!(r2.ends_at.is_none());
    assert_ne!(r.run_id, r2.run_id);
    assert_eq!(start_run(&list, "none").unwrap_err(), "Giveaway not found.");
}

#[test]
fn runs_end_after_their_duration() {
    let mut timed = giveaway("timed");
    timed.duration_mins = Some(60);
    let mut long = giveaway("long");
    long.duration_mins = Some(120_000_000_000);
    let mut endless = giveaway("endless");
    endless.duration_mins = Some(i64::MAX);
    let list = vec![giveaway("plain"), timed, long, endless];
    let now = (1_700_000_000, 0);
    let r = start_run_at(&list, "timed", now, "run-1".into()).unwrap();
    assert_eq!(r.run_id, "run-1");
    assert_eq!(r.started_at, "2023-11-14T22:13:20+00:00");
    assert_eq!(r.ends_at.as_deref(), Some("2023-11-14T23:13:20+00:00"));
    let p = start_run_at(&list, "plain", (1_700_000_000, 500_000_000), "run-2".into()).unwrap();
    assert_eq!(p.started_at, "2023-11-14T22:13:20.500+00:00");
    assert!(p.ends_at.is_none());
    let l = start_run_at(&list, "long", now, "run-3".into()).unwrap();
    assert!(l.ends_at.unwrap().starts_with('+'));
    assert_eq!(
        start_run_at(&list, "endless", now, "run-4".into()).unwrap_err(),
        "Giveaway duration is out of range."
    );
    assert_eq!(start_run_at(&list, "none", now, "run-5".into()).unwrap_err(), "Giveaway not found.");
}

#[test]
fn expired_runs_are_drawn_and_announced() {
    let mut g = giveaway("g");
    g.winner_count = 2;
    g.prize = "a mug".into();
    g.announce_template = "${winner} won ${prize} (${entries} entries)".into();
    let mut a = active(g, vec![]);
    a.ends_at = Some("2024-01-01T00:10:00Z".into());
    a.entry_count = 3;
    let entries = vec![winner("1"), winner("2"), winner("3")];
    let end = (1704067800, 0);
    // not yet over
    assert!(auto_draw_step(Some(a.clone()), entries.clone(), (end.0 - 1, 0)).is_none());
    // over: drawn, closed and announced
    let d = auto_draw_step(Some(a.clone()), entries.clone(), end).unwrap();
    assert_eq!(d.run_id, "run");
    assert_eq!(d.winners.len(), 2);
    assert_ne!(d.winners[0].user_id, d.winners[1].user_id);
    let names = format!("@{}, @{}", d.winners[0].login, d.winners[1].login);
    assert_eq!(d.announcement, format!("{names} won a mug (3 entries)"));
    // nobody entered, already drawn, or no open run: nothing happens
    assert!(auto_draw_step(Some(a.clone()), vec![], end).is_none());
    let mut drawn = a.clone();
    drawn.winners = vec![winner("1")];
    assert!(auto_draw_step(Some(drawn), entries.clone(), end).is_none());
    assert!(auto_draw_step(None, entries, end).is_none());
}
