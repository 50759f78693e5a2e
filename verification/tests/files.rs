use streamry::activity::new_entry;
use streamry::backup::{backup_entry_index, new_backup, plan_restore, preview_backup, BackupFile, RestoreOptions, BACKUP_VERSION};
use streamry::giveaway::start_run;
use streamry::ids::{id_or_new, new_token};
use streamry::models::Giveaway;
use streamry::media::{default_duration_ms, detect_media_type, is_deletable_file_name, new_clip, play_clip};
use streamry::models::{ChatCommand, ChatTimer, CustomVariable, MediaClip};
use streamry::overlay::{
    is_safe_media_id, media_file_matches, mime_for_path, overlay_info, overlay_port_from, parse_byte_range, range_reply,
    OverlayHub, RangeReply, DEFAULT_PORT,
};

fn is_uuid(s: &str) -> bool {
    let b: Vec<char> = s.chars().collect();
    b.len() == 36
        && b.iter().enumerate().all(|(i, c)| {
            if [8, 13, 18, 23].contains(&i) {
                *c == '-'
            } else {
                c.is_ascii_digit() || ('a'..='f').contains(c)
            }
        })
        && b[14] == '4'
}

#[test]
fn ids_and_tokens() {
    let a = id_or_new(String::new());
    let b = id_or_new(String::new());
    assert!(is_uuid(&a));
    assert_ne!(a, b);
    assert_eq!(id_or_new("keep".into()), "keep");
    assert!(is_uuid(&id_or_new(String::new())));
    let t = new_token();
    assert_eq!(t.len(), 32);
    assert!(t.chars().all(|c| c.is_ascii_hexdigit() && !c.is_ascii_uppercase()));
}

fn seconds(text: &str) -> i64 {
    chrono::DateTime::parse_from_rfc3339(text).unwrap().timestamp()
}

#[test]
fn run_times_come_from_the_clock() {
    let g = Giveaway {
        id: "g".into(),
        title: "t".into(),
        prize: String::new(),
        entry_command: "!enter".into(),
        draw_command: "!draw".into(),
        duration_mins: Some(60),
        winner_count: 1,
        eligibility: "everyone".into(),
        exclude_mods: false,
        confirm_entry: false,
        announce_template: String::new(),
        enabled: true,
    };
    let run = start_run(&vec![g], "g").unwrap();
    let started = seconds(&run.started_at);
    let ends = seconds(&run.ends_at.unwrap());
    assert_eq!(ends - started, 3600);
    assert!((started - chrono::Utc::now().timestamp()).abs() < 60);
}

#[test]
fn activity_entries() {
    let e = new_entry("giveaway", "Title".into(), "Detail".into(), "/giveaways", Some("g1".into()));
    assert!(is_uuid(&e.id));
    assert_eq!(e.kind, "giveaway");
    assert_eq!(e.path, "/giveaways");
    assert_eq!(e.entity_id.as_deref(), Some("g1"));
    assert!(chrono::DateTime::parse_from_rfc3339(&e.at).is_ok());
}

fn command(id: &str) -> ChatCommand {
    ChatCommand {
        id: id.into(),
        name: "n".into(),
        aliases: String::new(),
        response: "r".into(),
        enabled: true,
        permission: "everyone".into(),
        global_cooldown: 5,
        user_cooldown: 15,
        media_id: None,
    }
}

fn timer(id: &str) -> ChatTimer {
    ChatTimer {
        id: id.into(),
        name: "t".into(),
        message: "m".into(),
        interval_mins: 10,
        min_chat_lines: 0,
        enabled: true,
        live_only: false,
    }
}

fn backup() -> BackupFile {
    BackupFile {
        version: 2,
        exported_at: "2024-05-01T00:00:00+00:00".into(),
        commands: vec![command("c1"), command("c2")],
        timers: vec![timer("t1")],
        giveaways: vec![],
        automations: vec![],
        variables: vec![CustomVariable { id: "v1".into(), name: "x".into(), value: "1".into() }],
    }
}

#[test]
fn backup_preview_counts() {
    let p = preview_backup(&backup());
    assert_eq!(p.commands, 2);
    assert_eq!(p.timers, 1);
    assert_eq!(p.giveaways, 0);
    assert_eq!(p.variables, 1);
    assert_eq!(p.exported_at, "2024-05-01T00:00:00+00:00");
    let b = new_backup(vec![command("a")], vec![], vec![], vec![], vec![]);
    assert_eq!(b.version, BACKUP_VERSION);
    assert_eq!(b.commands.len(), 1);
    assert!(chrono::DateTime::parse_from_rfc3339(&b.exported_at).is_ok());
}

#[test]
fn backup_entry_is_found() {
    let names = vec!["readme.txt".to_string(), "x/backup.json".to_string(), "backup.json".to_string()];
    assert_eq!(backup_entry_index(&names), Ok(1));
    assert_eq!(backup_entry_index(&vec!["a.json".to_string()]).unwrap_err(), "Invalid backup: missing backup.json");
}

#[test]
fn restore_with_and_without_replace() {
    let all = RestoreOptions {
        include_commands: true,
        include_timers: true,
        include_giveaways: true,
        include_automations: true,
        include_variables: false,
        replace: true,
    };
    let p = plan_restore(backup(), all);
    assert!(p.clear_commands && p.clear_timers && !p.clear_variables);
    assert_eq!(p.commands[0].id, "c1");
    assert_eq!(p.result.imported_commands, 2);
    assert_eq!(p.result.imported_timers, 1);
    assert_eq!(p.result.imported_variables, 0);
    assert!(p.variables.is_empty());
    assert_eq!(p.result.skipped, 0);

    let merge = RestoreOptions { replace: false, include_variables: true, ..all };
    let p = plan_restore(backup(), merge);
    assert!(!p.clear_commands);
    assert!(is_uuid(&p.commands[0].id));
    assert_ne!(p.commands[0].id, p.commands[1].id);
    assert_eq!(p.commands[0].response, "r");
    assert!(is_uuid(&p.variables[0].id));
    assert_eq!(p.variables[0].value, "1");
    assert_eq!(p.result.imported_variables, 1);
}

#[test]
fn media_types() {
    assert_eq!(detect_media_type("MP3").unwrap(), "sound");
    assert_eq!(detect_media_type("gif").unwrap(), "gif");
    assert_eq!(detect_media_type("jpeg").unwrap(), "image");
    assert_eq!(detect_media_type("MoV").unwrap(), "video");
    assert_eq!(
        detect_media_type("EXE").unwrap_err(),
        "Unsupported file type .exe. Use sound (mp3/wav/ogg/m4a), image (png/jpg/webp), gif, or video (mp4/webm/mov)."
    );
    assert_eq!(
        detect_media_type("").unwrap_err(),
        "Unsupported file type .. Use sound (mp3/wav/ogg/m4a), image (png/jpg/webp), gif, or video (mp4/webm/mov)."
    );
    assert_eq!(default_duration_ms("sound"), 8000);
    assert_eq!(default_duration_ms("video"), 15000);
    assert_eq!(default_duration_ms("gif"), 6000);
    assert_eq!(default_duration_ms("image"), 5000);
    assert_eq!(mime_for_path("JPG"), "image/jpeg");
    assert_eq!(mime_for_path("svg"), "image/svg+xml");
    assert_eq!(mime_for_path("bin"), "application/octet-stream");
}

#[test]
fn new_clips() {
    let c = new_clip(Some("WAV".into()), Some("airhorn".into()), Some("  ".into())).unwrap();
    assert_eq!(c.media_type, "sound");
    assert_eq!(c.name, "airhorn");
    assert_eq!(c.file_name, format!("{}.wav", c.id));
    assert_eq!(c.duration_ms, 8000);
    assert_eq!(c.volume, 80);
    assert_eq!((c.overlay_x, c.overlay_y, c.overlay_w, c.overlay_h), (4, 2, 8, 5));
    assert_eq!(c.chroma_tolerance, 64);
    let named = new_clip(Some("png".into()), None, Some("Logo".into())).unwrap();
    assert_eq!(named.name, "Logo");
    let plain = new_clip(Some("gif".into()), None, None).unwrap();
    assert_eq!(plain.name, "Media");
    assert!(new_clip(None, Some("x".into()), None).is_err());
    assert!(is_deletable_file_name("abc.mp3"));
    assert!(!is_deletable_file_name(""));
    assert!(!is_deletable_file_name("../etc"));
    assert!(!is_deletable_file_name("a/b"));
    assert!(!is_deletable_file_name("a\\b"));
}

#[test]
fn clips_play_on_the_overlay() {
    let clip = MediaClip {
        id: "i".into(),
        name: "n".into(),
        media_type: "sound".into(),
        file_name: "i.mp3".into(),
        duration_ms: 100,
        volume: 150,
        overlay_x: 1,
        overlay_y: 2,
        overlay_w: 3,
        overlay_h: 4,
        always_show: true,
        chroma_key: "#00ff00".into(),
        chroma_tolerance: 500,
    };
    let e = play_clip(&clip);
    assert_eq!(e.url, "/media/i.mp3");
    assert_eq!(e.duration_ms, 500);
    assert_eq!(e.volume_percent, 100);
    assert!(!e.always_show);
    assert_eq!(e.chroma_key, "");
    assert_eq!(e.chroma_tolerance, 120);
    let mut img = clip;
    img.media_type = "image".into();
    img.volume = -3;
    img.chroma_tolerance = -1;
    let e = play_clip(&img);
    assert!(e.always_show);
    assert_eq!(e.chroma_key, "#00ff00");
    assert_eq!(e.volume_percent, 0);
    assert_eq!(e.chroma_tolerance, 0);
}

#[test]
fn overlay_hub_and_port() {
    let hub = OverlayHub::new("/tmp/media".into(), 1919);
    assert_eq!(hub.port(), 1919);
    assert_eq!(hub.browser_url(), "http://127.0.0.1:1919/");
    assert_eq!(hub.media_dir(), "/tmp/media");
    let info = overlay_info(&hub);
    assert_eq!(info.url, "http://127.0.0.1:1919/");
    assert!(info.running);
    assert_eq!(overlay_port_from(&Some("2020".into())), 2020);
    assert_eq!(overlay_port_from(&Some("70000".into())), DEFAULT_PORT);
    assert_eq!(overlay_port_from(&None), DEFAULT_PORT);
}

#[test]
fn media_requests() {
    assert!(is_safe_media_id("abc-123_x.mp3"));
    assert!(!is_safe_media_id("a..b"));
    assert!(!is_safe_media_id("a/b"));
    assert!(media_file_matches("abc.mp3", "abc"));
    assert!(media_file_matches("abc", "abc"));
    assert!(!media_file_matches("abcd.mp3", "abc"));
}

#[test]
fn byte_ranges() {
    assert_eq!(parse_byte_range("bytes=0-99", 1000), Some((0, 99)));
    assert_eq!(parse_byte_range("bytes=500-", 1000), Some((500, 999)));
    assert_eq!(parse_byte_range("bytes=900-5000", 1000), Some((900, 999)));
    assert_eq!(parse_byte_range("bytes=-100", 1000), Some((900, 999)));
    assert_eq!(parse_byte_range("bytes=-5000", 1000), Some((0, 999)));
    assert_eq!(parse_byte_range("bytes= 0-1 , 5-6", 1000), Some((0, 1)));
    assert_eq!(parse_byte_range("bytes=1000-", 1000), None);
    assert_eq!(parse_byte_range("bytes=5-2", 1000), None);
    assert_eq!(parse_byte_range("bytes=-0", 1000), None);
    assert_eq!(parse_byte_range("bytes=a-b", 1000), None);
    assert_eq!(parse_byte_range("items=0-1", 1000), None);
    assert_eq!(parse_byte_range("bytes=0-1", 0), None);
}

#[test]
fn range_answers() {
    match range_reply(Some("bytes=0-9"), 100) {
        RangeReply::Partial { start, end, content_range } => {
            assert_eq!((start, end), (0, 9));
            assert_eq!(content_range, "bytes 0-9/100");
        },
        _ => panic!("expected partial"),
    }
    match range_reply(Some("  bytes=200-"), 100) {
        RangeReply::Unsatisfiable { content_range } => assert_eq!(content_range, "bytes */100"),
        _ => panic!("expected unsatisfiable"),
    }
    assert!(matches!(range_reply(Some("pages=1"), 100), RangeReply::Full));
    assert!(matches!(range_reply(None, 100), RangeReply::Full));
}

#[test]
fn channel_names_are_url_encoded() {
    assert_eq!(
        streamry::web::streams_url("a b&ü~x"),
        "https://api.twitch.tv/helix/streams?user_login=a%20b%26%C3%BC~x"
    );
    assert_eq!(streamry::web::streams_url("plain_Name-1.2"), "https://api.twitch.tv/helix/streams?user_login=plain_Name-1.2");
}
