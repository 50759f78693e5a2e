use streamry::updates::{current_version, dismissed_version_value, is_newer, parse_version, update_check_from_remote};

#[test]
fn compares_versions() {
    assert!(is_newer("0.1.1", "0.1.0"));
    assert!(is_newer("0.2.0", "0.1.9"));
    assert!(is_newer("1.0.0", "0.9.9"));
    assert!(!is_newer("0.1.0", "0.1.0"));
    assert!(!is_newer("0.1.0", "0.1.1"));
    assert!(is_newer("0.1.0-beta", "0.0.9"));
}

#[test]
fn parses_version_segments() {
    assert_eq!(parse_version("1.2.3"), [1, 2, 3]);
    assert_eq!(parse_version("10.0-rc1.7"), [10, 0, 7]);
    assert_eq!(parse_version("2"), [2, 0, 0]);
    assert_eq!(parse_version(""), [0, 0, 0]);
    assert_eq!(parse_version("x.5.6.7"), [0, 5, 6]);
    assert_eq!(parse_version("99999999999999999999.1"), [0, 1, 0]);
}

#[test]
fn current_version_is_package_version() {
    assert_eq!(current_version(), "0.1.0");
}

#[test]
fn update_check_from_version_file() {
    let u = update_check_from_remote("0.1.0", "  v0.2.0 ", Some("  ".into()), Some("notes".into()), "0.2.0").unwrap();
    assert_eq!(u.latest_version, "0.2.0");
    assert!(u.update_available);
    assert!(u.dismissed);
    assert_eq!(u.download_url, "https://techjeeper.github.io/Streamry/downloads.html");
    assert_eq!(u.notes.as_deref(), Some("notes"));

    let u = update_check_from_remote("0.1.0", "0.1.0", Some("https://x/y".into()), Some(" ".into()), "").unwrap();
    assert!(!u.update_available);
    assert!(!u.dismissed);
    assert_eq!(u.download_url, "https://x/y");
    assert!(u.notes.is_none());

    let e = update_check_from_remote("0.1.0", " vv ", None, None, "").unwrap_err();
    assert_eq!(e, "Update server returned an empty version.");
}

#[test]
fn dismissed_version_is_cleaned() {
    assert_eq!(dismissed_version_value(" v1.2.3").unwrap(), "1.2.3");
    assert_eq!(dismissed_version_value("  ").unwrap_err(), "Missing version to dismiss.");
}
