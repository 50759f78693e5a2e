//! The overlay that OBS shows: its address, and how its server answers
//! requests for media files.
use vstd::prelude::*;
use crate::models::OverlayInfo;
use crate::text;

verus! {

/// The port the overlay server listens on unless another is set.
pub const DEFAULT_PORT: u16 = 1919;

/// Where the overlay is served and where its media files are.
#[derive(Debug, Clone)]
pub struct OverlayHub {
    media_dir: String,
    port: u16,
}

impl OverlayHub {
    pub closed spec fn port_spec(&self) -> u16 {
        self.port
    }

    pub closed spec fn media_dir_spec(&self) -> Seq<char> {
        self.media_dir@
    }

    pub fn new(media_dir: String, port: u16) -> (r: OverlayHub)
        ensures
            r.port_spec() == port,
            r.media_dir_spec() == media_dir@,
    {
        OverlayHub { media_dir, port }
    }

    pub fn port(&self) -> (r: u16)
        ensures
            r == self.port_spec(),
    {
        self.port
    }

    /// The address to add as a browser source in OBS.
    pub fn browser_url(&self) -> (r: String)
        ensures
            r@ == "http://127.0.0.1:"@ + text::decimal(self.port_spec() as nat) + "/"@,
    {
        let a = text::concat("http://127.0.0.1:", text::u64_text(self.port as u64).as_str());
        text::concat(a.as_str(), "/")
    }

    pub fn media_dir(&self) -> (r: &str)
        ensures
            r@ == self.media_dir_spec(),
    {
        self.media_dir.as_str()
    }
}

/// What the dashboard shows of the overlay.
pub fn overlay_info(hub: &OverlayHub) -> (r: OverlayInfo)
    ensures
        r.url@ == "http://127.0.0.1:"@ + text::decimal(hub.port_spec() as nat) + "/"@,
        r.port == hub.port_spec(),
        r.running,
{
    OverlayInfo { url: hub.browser_url(), port: hub.port(), running: true }
}

/// The overlay port: the stored one when it reads as a port number, else
/// the default.
pub fn overlay_port_from(stored: &Option<String>) -> (r: u16)
    ensures
        r == match stored {
            Some(s) => match text::parse_unsigned_seq(s@, 65535) {
                Some(n) => n as u16,
                None => DEFAULT_PORT,
            },
            None => DEFAULT_PORT,
        },
{
    match stored {
        Some(s) => match text::parse_unsigned(s.as_str(), 65535) {
            Some(n) => n as u16,
            None => DEFAULT_PORT,
        },
        None => DEFAULT_PORT,
    }
}

// ---------------------------------------------------------------------------
// Media files
// ---------------------------------------------------------------------------

pub open spec fn mime_of(ext: Seq<char>) -> Seq<char> {
    let e = text::lower(ext);
    if e == "mp3"@ {
        "audio/mpeg"@
    } else if e == "wav"@ {
        "audio/wav"@
    } else if e == "ogg"@ {
        "audio/ogg"@
    } else if e == "m4a"@ {
        "audio/mp4"@
    } else if e == "webm"@ {
        "video/webm"@
    } else if e == "mp4"@ {
        "video/mp4"@
    } else if e == "mov"@ {
        "video/quicktime"@
    } else if e == "gif"@ {
        "image/gif"@
    } else if e == "png"@ {
        "image/png"@
    } else if e == "jpg"@ || e == "jpeg"@ {
        "image/jpeg"@
    } else if e == "webp"@ {
        "image/webp"@
    } else if e == "svg"@ {
        "image/svg+xml"@
    } else {
        "application/octet-stream"@
    }
}

/// The content type the overlay server sends for a media file, by the
/// file's extension (empty when it has none).
pub fn mime_for_path(ext: &str) -> (r: &'static str)
    ensures
        r@ == mime_of(ext@),
{
    let e = text::to_lower(ext);
    let es = e.as_str();
    if text::str_eq(es, "mp3") {
        "audio/mpeg"
    } else if text::str_eq(es, "wav") {
        "audio/wav"
    } else if text::str_eq(es, "ogg") {
        "audio/ogg"
    } else if text::str_eq(es, "m4a") {
        "audio/mp4"
    } else if text::str_eq(es, "webm") {
        "video/webm"
    } else if text::str_eq(es, "mp4") {
        "video/mp4"
    } else if text::str_eq(es, "mov") {
        "video/quicktime"
    } else if text::str_eq(es, "gif") {
        "image/gif"
    } else if text::str_eq(es, "png") {
        "image/png"
    } else if text::str_eq(es, "jpg") || text::str_eq(es, "jpeg") {
        "image/jpeg"
    } else if text::str_eq(es, "webp") {
        "image/webp"
    } else if text::str_eq(es, "svg") {
        "image/svg+xml"
    } else {
        "application/octet-stream"
    }
}

// ---------------------------------------------------------------------------
// Serving media files
// ---------------------------------------------------------------------------

pub open spec fn is_media_id_char(c: char) -> bool {
    ('a' <= c <= 'z') || ('A' <= c <= 'Z') || ('0' <= c <= '9') || c == '-' || c == '_' || c == '.'
}

/// A requested media id the server accepts: ASCII letters, digits, `-`,
/// `_` and `.` only, and no `..`.
pub open spec fn safe_media_id_spec(id: Seq<char>) -> bool {
    (forall|i: int| 0 <= i < id.len() ==> is_media_id_char(#[trigger] id[i])) && !text::contains_seq(id, ".."@)
}

pub fn is_safe_media_id(id: &str) -> (r: bool)
    ensures
        r == safe_media_id_spec(id@),
{
    let v = text::chars_of(id);
    let mut i: usize = 0;
    while i < v.len()
        invariant
            i <= v.len(),
            v@ == id@,
            forall|j: int| 0 <= j < i ==> is_media_id_char(#[trigger] v@[j]),
        decreases v.len() - i,
    {
        let c = v[i];
        if !(text::is_ascii_alnum_char(c) || c == '-' || c == '_' || c == '.') {
            return false;
        }
        i += 1;
    }
    !text::contains(id, "..")
}

/// A file in the media folder answers a request for `id` when it is named
/// `id` or `id.` followed by an extension.
pub fn media_file_matches(file_name: &str, id: &str) -> (r: bool)
    ensures
        r == (file_name@ == id@ || text::starts_with_seq(file_name@, id@ + seq!['.'])),
{
    let dotted = text::concat(id, ".");
    proof { reveal_strlit("."); }
    assert("."@ =~= seq!['.']);
    text::str_eq(file_name, id) || text::starts_with(file_name, dotted.as_str())
}

/// The byte range a `Range` header asks of a file of `len` bytes, as
/// first and last byte: `bytes=a-b` (up to the end when `b` is missing, cut
/// at the end), or `bytes=-n` (the last `n` bytes); only the first of
/// several ranges counts. `None` when the header is no such range or the
/// range lies outside the file.
pub open spec fn byte_range_spec(h: Seq<char>, len: u64) -> Option<(u64, u64)> {
    if !text::starts_with_seq(h, "bytes="@) {
        None
    } else {
        let s = text::trim_seq(h.subrange(6, h.len() as int));
        let first = match text::split_once_seq(s, seq![',']) {
            Some((a, _)) => a,
            None => s,
        };
        match text::split_once_seq(text::trim_seq(first), seq!['-']) {
            None => None,
            Some((a, b)) => if a.len() == 0 {
                match text::parse_unsigned_seq(b, u64::MAX as nat) {
                    None => None,
                    Some(n) => if n == 0 || len == 0 {
                        None
                    } else {
                        let m = if n < len { n } else { len as nat };
                        Some(((len - m) as u64, (len - 1) as u64))
                    },
                }
            } else {
                match text::parse_unsigned_seq(a, u64::MAX as nat) {
                    None => None,
                    Some(start) => if start >= len {
                        None
                    } else if b.len() == 0 {
                        Some((start as u64, (len - 1) as u64))
                    } else {
                        match text::parse_unsigned_seq(b, u64::MAX as nat) {
                            None => None,
                            Some(e) => {
                                let end = if e < len - 1 { e } else { (len - 1) as nat };
                                if end < start { None } else { Some((start as u64, end as u64)) }
                            },
                        }
                    },
                }
            },
        }
    }
}

pub fn parse_byte_range(header: &str, len: u64) -> (r: Option<(u64, u64)>)
    ensures
        r == byte_range_spec(header@, len),
        r matches Some((a, b)) ==> a <= b < len,
{
    proof {
        reveal_strlit("bytes=");
        reveal_strlit(",");
        reveal_strlit("-");
    }
    assert(","@ =~= seq![',']);
    assert("-"@ =~= seq!['-']);
    let rest = match text::strip_prefix(header, "bytes=") {
        Some(x) => x,
        None => {
            return None;
        },
    };
    let s = text::trim(rest.as_str());
    let first = match text::split_once(s.as_str(), ",") {
        Some((a, _)) => a,
        None => s,
    };
    let t = text::trim(first.as_str());
    let (a, b) = match text::split_once(t.as_str(), "-") {
        Some(p) => p,
        None => {
            return None;
        },
    };
    if a.as_str().is_empty() {
        let n = match text::parse_unsigned(b.as_str(), u64::MAX) {
            Some(n) => n,
            None => {
                return None;
            },
        };
        if n == 0 || len == 0 {
            return None;
        }
        let m = if n < len { n } else { len };
        return Some((len - m, len - 1));
    }
    let start = match text::parse_unsigned(a.as_str(), u64::MAX) {
        Some(x) => x,
        None => {
            return None;
        },
    };
    if start >= len {
        return None;
    }
    let end = if b.as_str().is_empty() {
        len - 1
    } else {
        match text::parse_unsigned(b.as_str(), u64::MAX) {
            Some(e) => if e < len - 1 { e } else { len - 1 },
            None => {
                return None;
            },
        }
    };
    if end < start {
        return None;
    }
    Some((start, end))
}

/// How the server answers a request for a file of `len` bytes, given the
/// request's `Range` header (`None` when there is none or it is not text).
pub enum RangeReply {
    /// `206 Partial Content` with the bytes `start..=end` and this
    /// `Content-Range`.
    Partial { start: u64, end: u64, content_range: String },
    /// `416 Range Not Satisfiable` with this `Content-Range`.
    Unsatisfiable { content_range: String },
    /// `200 OK` with the whole file.
    Full,
}

pub open spec fn range_reply_spec(range: Option<Seq<char>>, len: u64, r: RangeReply) -> bool {
    match range {
        None => r is Full,
        Some(h) => match byte_range_spec(h, len) {
            Some((a, b)) => r matches RangeReply::Partial { start, end, content_range } && start == a && end == b
                && content_range@ == "bytes "@ + text::decimal(a as nat) + "-"@ + text::decimal(b as nat) + "/"@
                    + text::decimal(len as nat),
            None => if text::starts_with_seq(text::trim_start_seq(h), "bytes="@) {
                r matches RangeReply::Unsatisfiable { content_range } && content_range@ == "bytes */"@
                    + text::decimal(len as nat)
            } else {
                r is Full
            },
        },
    }
}

pub fn range_reply(range: Option<&str>, len: u64) -> (r: RangeReply)
    ensures
        range_reply_spec(match range { Some(h) => Some(h@), None => None }, len, r),
{
    match range {
        None => RangeReply::Full,
        Some(h) => match parse_byte_range(h, len) {
            Some((a, b)) => {
                let s1 = text::concat("bytes ", text::u64_text(a).as_str());
                let s2 = text::concat(s1.as_str(), "-");
                let s3 = text::concat(s2.as_str(), text::u64_text(b).as_str());
                let s4 = text::concat(s3.as_str(), "/");
                let content_range = text::concat(s4.as_str(), text::u64_text(len).as_str());
                RangeReply::Partial { start: a, end: b, content_range }
            },
            None => {
                let t = text::trim_start(h);
                if text::starts_with(t.as_str(), "bytes=") {
                    RangeReply::Unsatisfiable { content_range: text::concat("bytes */", text::u64_text(len).as_str()) }
                } else {
                    RangeReply::Full
                }
            },
        },
    }
}

} // verus!
