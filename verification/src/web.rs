//! Addresses of the Twitch API that the bot builds from user text.
use vstd::prelude::*;
use crate::text;

verus! {

/// The UTF-8 encoding of a character.
pub open spec fn utf8_bytes(c: char) -> Seq<u8> {
    let u = c as u32;
    if u < 0x80 {
        seq![u as u8]
    } else if u < 0x800 {
        seq![(0xC0 | (u >> 6)) as u8, (0x80 | (u & 0x3F)) as u8]
    } else if u < 0x10000 {
        seq![(0xE0 | (u >> 12)) as u8, (0x80 | ((u >> 6) & 0x3F)) as u8, (0x80 | (u & 0x3F)) as u8]
    } else {
        seq![
            (0xF0 | (u >> 18)) as u8,
            (0x80 | ((u >> 12) & 0x3F)) as u8,
            (0x80 | ((u >> 6) & 0x3F)) as u8,
            (0x80 | (u & 0x3F)) as u8,
        ]
    }
}

pub open spec fn hex_digit(d: u8) -> char {
    if d < 10 { ((48 + d) as u8) as char } else { ((55 + d) as u8) as char }
}

/// A byte as it appears in a URL: ASCII letters, digits, `-`, `.`, `_` and
/// `~` as themselves, any other byte as `%` and two upper-case hex digits.
pub open spec fn encoded_byte(b: u8) -> Seq<char> {
    if (48 <= b <= 57) || (65 <= b <= 90) || (97 <= b <= 122) || b == 45 || b == 46 || b == 95 || b == 126 {
        seq![b as char]
    } else {
        seq!['%', hex_digit(b >> 4), hex_digit(b & 15)]
    }
}

pub open spec fn encoded_bytes(bs: Seq<u8>) -> Seq<char>
    decreases bs.len(),
{
    if bs.len() == 0 { Seq::empty() } else { encoded_bytes(bs.drop_last()) + encoded_byte(bs.last()) }
}

/// A text percent-encoded byte by byte over its UTF-8 encoding.
pub open spec fn url_encoded(s: Seq<char>) -> Seq<char>
    decreases s.len(),
{
    if s.len() == 0 { Seq::empty() } else { url_encoded(s.drop_last()) + encoded_bytes(utf8_bytes(s.last())) }
}

/// Percent-encodes a text with `urlencoding::encode`, which encodes every
/// byte of the text's UTF-8 form except ASCII letters, digits, `-`, `.`,
/// `_` and `~`, with upper-case hex digits; the contract states exactly
/// that.
#[verifier::external_body]
fn url_encode(s: &str) -> (r: String)
    ensures
        r@ == url_encoded(s@),
{
    urlencoding::encode(s).into_owned()
}

/// The Helix address that tells whether a channel is live.
pub fn streams_url(channel: &str) -> (r: String)
    ensures
        r@ == "https://api.twitch.tv/helix/streams?user_login="@ + url_encoded(channel@),
{
    let encoded = url_encode(channel);
    text::concat("https://api.twitch.tv/helix/streams?user_login=", encoded.as_str())
}

} // verus!
