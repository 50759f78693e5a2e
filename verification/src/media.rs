//! Media clips: their types, defaults, file names, how the overlay plays
//! them, and how the overlay server answers requests for their files.
use vstd::prelude::*;
use crate::ids;
use crate::models::{self, MediaClip};
use crate::text;

verus! {

// ---------------------------------------------------------------------------
// Types of media
// ---------------------------------------------------------------------------

/// The kind of media a file extension stands for (any case).
pub open spec fn media_type_of(ext: Seq<char>) -> Option<Seq<char>> {
    let e = text::lower(ext);
    if e == "mp3"@ || e == "wav"@ || e == "ogg"@ || e == "m4a"@ {
        Some("sound"@)
    } else if e == "gif"@ {
        Some("gif"@)
    } else if e == "png"@ || e == "jpg"@ || e == "jpeg"@ || e == "webp"@ || e == "svg"@ {
        Some("image"@)
    } else if e == "mp4"@ || e == "webm"@ || e == "mov"@ {
        Some("video"@)
    } else {
        None
    }
}

/// The message for a file whose extension is not a media type.
pub open spec fn unsupported_message(ext: Seq<char>) -> Seq<char> {
    "Unsupported file type ."@ + text::lower(ext)
        + ". Use sound (mp3/wav/ogg/m4a), image (png/jpg/webp), gif, or video (mp4/webm/mov)."@
}

/// The media type of a file by its extension (empty when it has none).
pub fn detect_media_type(ext: &str) -> (r: Result<String, String>)
    ensures
        match media_type_of(ext@) {
            Some(t) => r matches Ok(x) && x@ == t,
            None => r matches Err(e) && e@ == unsupported_message(ext@),
        },
{
    let e = text::to_lower(ext);
    let es = e.as_str();
    if text::str_eq(es, "mp3") || text::str_eq(es, "wav") || text::str_eq(es, "ogg") || text::str_eq(es, "m4a") {
        Ok(text::own("sound"))
    } else if text::str_eq(es, "gif") {
        Ok(text::own("gif"))
    } else if text::str_eq(es, "png") || text::str_eq(es, "jpg") || text::str_eq(es, "jpeg") || text::str_eq(es, "webp")
        || text::str_eq(es, "svg") {
        Ok(text::own("image"))
    } else if text::str_eq(es, "mp4") || text::str_eq(es, "webm") || text::str_eq(es, "mov") {
        Ok(text::own("video"))
    } else {
        let a = text::concat("Unsupported file type .", es);
        Err(text::concat(
            a.as_str(),
            ". Use sound (mp3/wav/ogg/m4a), image (png/jpg/webp), gif, or video (mp4/webm/mov).",
        ))
    }
}

pub open spec fn default_duration_spec(media_type: Seq<char>) -> i64 {
    if media_type == "sound"@ {
        8000
    } else if media_type == "video"@ {
        15000
    } else if media_type == "gif"@ {
        6000
    } else {
        5000
    }
}

/// How long a clip of a media type plays by default, in milliseconds.
pub fn default_duration_ms(media_type: &str) -> (r: i64)
    ensures
        r == default_duration_spec(media_type@),
{
    if text::str_eq(media_type, "sound") {
        8000
    } else if text::str_eq(media_type, "video") {
        15000
    } else if text::str_eq(media_type, "gif") {
        6000
    } else {
        5000
    }
}

// ---------------------------------------------------------------------------
// Importing a file
// ---------------------------------------------------------------------------

/// The name a new clip shows: the given name unless blank, else the file's
/// stem, else `Media`.
pub open spec fn display_name_spec(name: Option<String>, stem: Option<String>) -> Seq<char> {
    match name {
        Some(n) if text::trim_seq(n@).len() > 0 => n@,
        _ => match stem {
            Some(s) => s@,
            None => "Media"@,
        },
    }
}

/// The clip made for an imported file, given the file's extension and stem
/// (each `None` when the path has none) and the name the user chose. It is
/// refused when the extension is no media type. The clip's file is stored as
/// `{id}.{extension}` (`bin` without one), lower-cased.
pub fn new_clip(ext: Option<String>, stem: Option<String>, name: Option<String>) -> (r: Result<MediaClip, String>)
    ensures
        ({
            let e = match ext { Some(x) => x@, None => Seq::<char>::empty() };
            match media_type_of(e) {
                None => r matches Err(m) && m@ == unsupported_message(e),
                Some(t) => r matches Ok(c) && {
                    let file_ext = match ext { Some(x) => text::lower(x@), None => text::lower("bin"@) };
                    &&& ids::is_uuid_text(c.id@)
                    &&& c.file_name@ == c.id@ + seq!['.'] + file_ext
                    &&& c.name@ == display_name_spec(name, stem)
                    &&& c.media_type@ == t
                    &&& c.duration_ms == default_duration_spec(t)
                    &&& c.volume == 80
                    &&& c.overlay_x == 4 && c.overlay_y == 2 && c.overlay_w == 8 && c.overlay_h == 5
                    &&& !c.always_show
                    &&& c.chroma_key@.len() == 0
                    &&& c.chroma_tolerance == 64
                },
            }
        }),
{
    let e = match &ext {
        Some(x) => text::own(x.as_str()),
        None => String::new(),
    };
    let media_type = match detect_media_type(e.as_str()) {
        Ok(t) => t,
        Err(m) => {
            return Err(m);
        },
    };
    let file_ext = match &ext {
        Some(x) => text::to_lower(x.as_str()),
        None => text::to_lower("bin"),
    };
    let id = ids::new_id();
    let with_dot = text::concat(id.as_str(), ".");
    let file_name = text::concat(with_dot.as_str(), file_ext.as_str());
    proof { reveal_strlit("."); }
    assert("."@ =~= seq!['.']);
    let display = match name {
        Some(n) if !text::trim(n.as_str()).as_str().is_empty() => n,
        _ => match stem {
            Some(s) => s,
            None => text::own("Media"),
        },
    };
    let duration_ms = default_duration_ms(media_type.as_str());
    Ok(MediaClip {
        id,
        name: display,
        media_type,
        file_name,
        duration_ms,
        volume: 80,
        overlay_x: models::default_overlay_x(),
        overlay_y: models::default_overlay_y(),
        overlay_w: models::default_overlay_w(),
        overlay_h: models::default_overlay_h(),
        always_show: false,
        chroma_key: String::new(),
        chroma_tolerance: models::default_chroma_tolerance(),
    })
}

/// A stored file name that may be deleted: not empty, and with no `..`,
/// `/` or `\` that could reach outside the media folder.
pub open spec fn deletable_spec(name: Seq<char>) -> bool {
    name.len() > 0 && !text::contains_seq(name, ".."@) && !name.contains('/') && !name.contains('\\')
}

pub fn is_deletable_file_name(name: &str) -> (r: bool)
    ensures
        r == deletable_spec(name@),
{
    !name.is_empty() && !text::contains(name, "..") && !text::contains_char(name, '/') && !text::contains_char(name, '\\')
}

// ---------------------------------------------------------------------------
// Playing a clip
// ---------------------------------------------------------------------------

/// What the overlay is told to show. The volume is a percentage (the
/// overlay page takes it as a fraction of one).
#[derive(Debug, Clone)]
pub struct OverlayEvent {
    pub id: String,
    pub name: String,
    pub media_type: String,
    pub url: String,
    pub duration_ms: i64,
    pub volume_percent: i64,
    pub grid_x: i64,
    pub grid_y: i64,
    pub grid_w: i64,
    pub grid_h: i64,
    pub always_show: bool,
    pub chroma_key: String,
    pub chroma_tolerance: i64,
}

pub open spec fn clamp(v: int, lo: int, hi: int) -> int {
    if v < lo { lo } else if v > hi { hi } else { v }
}

/// The overlay event that plays a clip: its file under `/media/`, at least
/// half a second long, its volume held to 0–100 %, kept on screen only for
/// images, chroma-keyed only for images, gifs and videos, with a tolerance
/// held to 0–120.
pub fn play_clip(clip: &MediaClip) -> (r: OverlayEvent)
    ensures
        r.id == clip.id,
        r.name == clip.name,
        r.media_type == clip.media_type,
        r.url@ == "/media/"@ + clip.file_name@,
        r.duration_ms == (if clip.duration_ms > 500 { clip.duration_ms } else { 500 }),
        r.volume_percent == clamp(clip.volume as int, 0, 100),
        r.grid_x == clip.overlay_x,
        r.grid_y == clip.overlay_y,
        r.grid_w == clip.overlay_w,
        r.grid_h == clip.overlay_h,
        r.always_show == (clip.always_show && clip.media_type@ == "image"@),
        r.chroma_key@ == (if clip.media_type@ == "image"@ || clip.media_type@ == "gif"@ || clip.media_type@ == "video"@ {
            clip.chroma_key@
        } else {
            Seq::empty()
        }),
        r.chroma_tolerance == clamp(clip.chroma_tolerance as int, 0, 120),
{
    let t = clip.media_type.as_str();
    let is_image = text::str_eq(t, "image");
    let keyed = is_image || text::str_eq(t, "gif") || text::str_eq(t, "video");
    let volume_percent = if clip.volume < 0 { 0 } else if clip.volume > 100 { 100 } else { clip.volume };
    let chroma_tolerance = if clip.chroma_tolerance < 0 {
        0
    } else if clip.chroma_tolerance > 120 {
        120
    } else {
        clip.chroma_tolerance
    };
    OverlayEvent {
        id: clip.id.clone(),
        name: clip.name.clone(),
        media_type: clip.media_type.clone(),
        url: text::concat("/media/", clip.file_name.as_str()),
        duration_ms: if clip.duration_ms > 500 { clip.duration_ms } else { 500 },
        volume_percent,
        grid_x: clip.overlay_x,
        grid_y: clip.overlay_y,
        grid_w: clip.overlay_w,
        grid_h: clip.overlay_h,
        always_show: clip.always_show && is_image,
        chroma_key: if keyed { clip.chroma_key.clone() } else { String::new() },
        chroma_tolerance,
    }
}

} // verus!
