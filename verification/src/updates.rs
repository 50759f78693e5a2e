//! Version comparison and the update check.
use vstd::prelude::*;
use crate::text;

verus! {

pub const DEFAULT_DOWNLOAD_URL: &'static str = "https://techjeeper.github.io/Streamry/downloads.html";
pub const VERSION_URL: &'static str = "https://techjeeper.github.io/Streamry/version.json";
pub const DISMISSED_KEY: &'static str = "update_dismissed_version";

/// Result of an update check.
#[derive(Debug, Clone)]
pub struct UpdateCheck {
    pub current_version: String,
    pub latest_version: String,
    pub update_available: bool,
    /// True when this latest version was dismissed for startup prompts.
    pub dismissed: bool,
    pub download_url: String,
    pub notes: Option<String>,
}

/// Numeric value of one dotted segment: its leading digits, or 0 when there
/// are none or they do not fit in a `u64`.
pub open spec fn segment_value(seg: Seq<char>) -> nat {
    match text::parse_unsigned_seq(text::digit_prefix(seg), u64::MAX as nat) {
        Some(n) => n,
        None => 0,
    }
}

/// The first three dotted segments of a version, as numbers (missing ones are 0).
pub open spec fn version_triple(s: Seq<char>) -> Seq<nat> {
    let parts = text::split_seq(s, '.');
    Seq::new(3, |k: int| if k < parts.len() { segment_value(parts[k]) } else { 0 })
}

/// Lexicographic order on version triples.
pub open spec fn triple_gt(a: Seq<nat>, b: Seq<nat>) -> bool {
    ||| a[0] > b[0]
    ||| a[0] == b[0] && a[1] > b[1]
    ||| a[0] == b[0] && a[1] == b[1] && a[2] > b[2]
}

/// The version with leading white space and `v` prefixes removed.
pub open spec fn clean_version(s: Seq<char>) -> Seq<char> {
    text::strip_prefixes(text::trim_seq(s), seq!['v'])
}

/// The running version.
pub fn current_version() -> (r: String)
    ensures
        r@ == "0.1.0"@,
{
    text::own("0.1.0")
}

fn segment_number(seg: &Vec<char>) -> (r: u64)
    ensures
        r == segment_value(seg@),
{
    let d = text::digit_prefix_of(seg);
    let t = text::string_of(&d);
    match text::parse_unsigned(t.as_str(), u64::MAX) {
        Some(n) => n,
        None => 0,
    }
}

/// Compare dotted numeric versions (`1.2.3`): the first three segments,
/// each read up to its first non-digit.
pub fn parse_version(s: &str) -> (r: [u64; 3])
    ensures
        forall|k: int| 0 <= k < 3 ==> r@[k] == #[trigger] version_triple(s@)[k],
{
    let parts = text::split_chars(s, '.');
    let mut out: [u64; 3] = [0u64; 3];
    let mut i: usize = 0;
    while i < 3 && i < parts.len()
        invariant
            i <= 3,
            text::views_of(parts@) == text::split_seq(s@, '.'),
            out@.len() == 3,
            forall|k: int| 0 <= k < i ==> out@[k] == #[trigger] version_triple(s@)[k],
            forall|k: int| i <= k < 3 ==> out@[k] == 0,
        decreases 3 - i,
    {
        let n = segment_number(&parts[i]);
        assert(text::views_of(parts@)[i as int] == parts@[i as int]@);
        assert(version_triple(s@)[i as int] == segment_value(text::split_seq(s@, '.')[i as int]));
        out[i] = n;
        i += 1;
    }
    assert forall|k: int| 0 <= k < 3 implies out@[k] == #[trigger] version_triple(s@)[k] by {
        if k >= i {
            assert(k >= text::split_seq(s@, '.').len());
        }
    }
    out
}

/// `latest` is a newer version than `current`.
pub fn is_newer(latest: &str, current: &str) -> (r: bool)
    ensures
        r == triple_gt(version_triple(latest@), version_triple(current@)),
{
    let a = parse_version(latest);
    let b = parse_version(current);
    assert(a@[0] == version_triple(latest@)[0]);
    assert(a@[1] == version_triple(latest@)[1]);
    assert(a@[2] == version_triple(latest@)[2]);
    assert(b@[0] == version_triple(current@)[0]);
    assert(b@[1] == version_triple(current@)[1]);
    assert(b@[2] == version_triple(current@)[2]);
    a[0] > b[0] || (a[0] == b[0] && a[1] > b[1]) || (a[0] == b[0] && a[1] == b[1] && a[2] > b[2])
}

/// Keeps an optional text only when it is not blank after trimming.
pub fn non_blank(s: Option<String>) -> (r: Option<String>)
    ensures
        match s {
            Some(t) => if text::trim_seq(t@).len() > 0 { r == Some(t) } else { r is None },
            None => r is None,
        },
{
    match s {
        Some(t) => {
            let tt = text::trim(t.as_str());
            if !tt.as_str().is_empty() { Some(t) } else { None }
        },
        None => None,
    }
}

/// The update check for the version file that the server returned:
/// `remote_version` and the optional `download_url` and `notes` fields.
pub fn update_check_from_remote(
    current: &str,
    remote_version: &str,
    download_url: Option<String>,
    notes: Option<String>,
    dismissed_version: &str,
) -> (r: Result<UpdateCheck, String>)
    ensures
        clean_version(remote_version@).len() == 0 <==> r is Err,
        r is Err ==> r->Err_0@ == "Update server returned an empty version."@,
        r matches Ok(u) ==> {
            &&& u.current_version@ == current@
            &&& u.latest_version@ == clean_version(remote_version@)
            &&& u.update_available == triple_gt(version_triple(u.latest_version@), version_triple(current@))
            &&& u.dismissed == (u.update_available && text::trim_seq(dismissed_version@) == u.latest_version@)
            &&& u.download_url@ == match download_url {
                Some(d) => if text::trim_seq(d@).len() > 0 { d@ } else { DEFAULT_DOWNLOAD_URL@ },
                None => DEFAULT_DOWNLOAD_URL@,
            }
            &&& match notes {
                Some(n) => if text::trim_seq(n@).len() > 0 { u.notes == Some(n) } else { u.notes is None },
                None => u.notes is None,
            }
        },
{
    let t = text::trim(remote_version);
    proof { reveal_strlit("v"); }
    assert("v"@ =~= seq!['v']);
    let latest = text::trim_start_matches(t.as_str(), "v");
    if latest.as_str().is_empty() {
        return Err(text::own("Update server returned an empty version."));
    }
    let update_available = is_newer(latest.as_str(), current);
    let dv = text::trim(dismissed_version);
    let dismissed = update_available && text::str_eq(dv.as_str(), latest.as_str());
    let download = match non_blank(download_url) {
        Some(d) => d,
        None => text::own(DEFAULT_DOWNLOAD_URL),
    };
    Ok(UpdateCheck {
        current_version: text::own(current),
        latest_version: latest,
        update_available,
        dismissed,
        download_url: download,
        notes: non_blank(notes),
    })
}

/// The version to store when the user dismisses an update prompt.
pub fn dismissed_version_value(version: &str) -> (r: Result<String, String>)
    ensures
        clean_version(version@).len() == 0 <==> r is Err,
        r matches Ok(v) ==> v@ == clean_version(version@),
        r matches Err(e) ==> e@ == "Missing version to dismiss."@,
{
    let t = text::trim(version);
    proof { reveal_strlit("v"); }
    assert("v"@ =~= seq!['v']);
    let v = text::trim_start_matches(t.as_str(), "v");
    if v.as_str().is_empty() {
        Err(text::own("Missing version to dismiss."))
    } else {
        Ok(v)
    }
}


/// The version file's address with a cache-busting time stamp (Unix
/// milliseconds).
pub fn version_url_at(millis: i64) -> (r: String)
    ensures
        r@ == VERSION_URL@ + "?t="@ + text::signed_decimal(millis as int),
{
    let a = text::concat(VERSION_URL, "?t=");
    text::concat(a.as_str(), text::i64_text(millis).as_str())
}

// ---------------------------------------------------------------------------
// Laws
// ---------------------------------------------------------------------------

/// Law: "newer than" is a strict order on versions. No version is newer
/// than itself, of two versions at most one is newer than the other, and a
/// version newer than a second that is newer than a third is newer than the
/// third.
pub proof fn newer_is_strict_order(a: Seq<char>, b: Seq<char>, c: Seq<char>)
    ensures
        !triple_gt(version_triple(a), version_triple(a)),
        triple_gt(version_triple(a), version_triple(b)) ==> !triple_gt(version_triple(b), version_triple(a)),
        triple_gt(version_triple(a), version_triple(b)) && triple_gt(version_triple(b), version_triple(c))
            ==> triple_gt(version_triple(a), version_triple(c)),
{
}

} // verus!
