use streamry::chat::{
    channel_target, classify_line, handshake_lines, parse_privmsg, parse_tags, parse_usernotice, pong_reply,
    privmsg_line, wire_line, IrcLine,
};

#[test]
fn tags_are_read_with_escaped_spaces() {
    let t = parse_tags("@badges=broadcaster/1;display-name=Some\\sOne;mod=0;bad");
    assert_eq!(t.get("display-name").as_deref(), Some("Some One"));
    assert_eq!(t.get("badges").as_deref(), Some("broadcaster/1"));
    assert_eq!(t.get("bad"), None);
    assert!(!t.is_one("mod"));
    assert_eq!(t.get_or_empty("user-id"), "");
}

#[test]
fn later_tag_wins() {
    let t = parse_tags("mod=0;mod=1");
    assert!(t.is_one("mod"));
}

#[test]
fn privmsg_with_tags() {
    let line = "@badges=vip/1,subscriber/12;display-name=Alice;mod=1;user-id=42;bits=100 :alice!alice@alice.tmi.twitch.tv PRIVMSG #chan :!hello world";
    let c = parse_privmsg(line).unwrap();
    assert_eq!(c.user_id, "42");
    assert_eq!(c.display, "Alice");
    assert_eq!(c.login, "alice");
    assert_eq!(c.message, "!hello world");
    assert!(c.is_mod);
    assert!(c.is_vip);
    assert!(c.is_sub);
    assert!(!c.is_broadcaster);
    assert_eq!(c.bits, 100);
}

#[test]
fn privmsg_without_tags_uses_nick() {
    let c = parse_privmsg(":Bob!bob@bob.tmi.twitch.tv PRIVMSG #chan :hi there").unwrap();
    assert_eq!(c.display, "Bob");
    assert_eq!(c.login, "bob");
    assert_eq!(c.message, "hi there");
    assert_eq!(c.bits, 0);
    assert!(!c.is_mod);
}

#[test]
fn broadcaster_badge_makes_mod() {
    let c = parse_privmsg("@badges=broadcaster/1;display-name=Streamer :s!s@s PRIVMSG #s :yo").unwrap();
    assert!(c.is_broadcaster);
    assert!(c.is_mod);
}

#[test]
fn other_lines_are_not_chat() {
    assert!(parse_privmsg(":tmi.twitch.tv 001 bot :Welcome").is_none());
    assert!(parse_privmsg(":a!a@a PRIVMSG #c").is_none());
    assert!(parse_privmsg("@tags-without-space").is_none());
}

#[test]
fn usernotice_kinds() {
    let e = parse_usernotice("@msg-id=resub;login=carol;display-name=Carol;system-msg=Carol\\ssubscribed :tmi.twitch.tv USERNOTICE #chan").unwrap();
    assert_eq!(e.kind, "subscribe");
    assert_eq!(e.login, "carol");
    assert_eq!(e.display, "Carol");
    assert_eq!(e.system_msg, "Carol subscribed");
    let e = parse_usernotice("@msg-id=raid;login=dan :tmi.twitch.tv USERNOTICE #chan").unwrap();
    assert_eq!(e.kind, "raid");
    assert_eq!(e.display, "dan");
    let e = parse_usernotice("@msg-id=bitsbadgetier :tmi.twitch.tv USERNOTICE #chan").unwrap();
    assert_eq!(e.kind, "cheer");
    let e = parse_usernotice("@msg-id=announcement :tmi.twitch.tv USERNOTICE #chan").unwrap();
    assert_eq!(e.kind, "announcement");
    assert!(parse_usernotice("@login=x :tmi.twitch.tv USERNOTICE #chan").is_none());
    assert!(parse_usernotice(":tmi.twitch.tv USERNOTICE #chan").is_none());
}

#[test]
fn handshake_and_outgoing_lines() {
    let l = handshake_lines("abc", "MyBot", "SomeChannel");
    assert_eq!(
        l,
        vec![
            "CAP REQ :twitch.tv/tags twitch.tv/commands".to_string(),
            "PASS oauth:abc".to_string(),
            "NICK mybot".to_string(),
            "JOIN #somechannel".to_string(),
        ]
    );
    assert_eq!(channel_target("ABC"), "#abc");
    assert_eq!(privmsg_line("#abc", "hello"), "PRIVMSG #abc :hello");
    assert_eq!(wire_line("PONG"), "PONG\r\n");
}

#[test]
fn ping_is_answered_with_pong() {
    assert_eq!(pong_reply("PING :tmi.twitch.tv").as_deref(), Some("PONG :tmi.twitch.tv"));
    assert_eq!(pong_reply("PINGPING").as_deref(), Some("PONGPING"));
    assert!(pong_reply(":x PING").is_none());
}

#[test]
fn lines_are_classified() {
    match classify_line("PING :tmi.twitch.tv") {
        IrcLine::Ping(p) => assert_eq!(p, "PONG :tmi.twitch.tv"),
        _ => panic!("expected ping"),
    }
    match classify_line(":a!a@a PRIVMSG #c :hey") {
        IrcLine::Chat(c) => assert_eq!(c.message, "hey"),
        _ => panic!("expected chat"),
    }
    match classify_line("@msg-id=sub;login=z :tmi.twitch.tv USERNOTICE #c") {
        IrcLine::Notice(e) => assert_eq!(e.kind, "subscribe"),
        _ => panic!("expected notice"),
    }
    assert!(matches!(classify_line(":tmi.twitch.tv 001 bot :Welcome"), IrcLine::Other));
}
