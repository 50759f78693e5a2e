//! Fresh identifiers and tokens.
use vstd::prelude::*;
use crate::text;

verus! {

pub open spec fn is_lower_hex(c: char) -> bool {
    ('0' <= c <= '9') || ('a' <= c <= 'f')
}

/// Positions of the hyphens in a hyphenated UUID.
pub open spec fn is_uuid_hyphen_pos(i: int) -> bool {
    i == 8 || i == 13 || i == 18 || i == 23
}

/// A hyphenated lower-case version-4 UUID: 36 characters, hyphens at
/// positions 8, 13, 18 and 23, lower-case hex digits elsewhere, and the
/// version digit `4` at position 14.
pub open spec fn is_uuid_text(s: Seq<char>) -> bool {
    &&& s.len() == 36
    &&& forall|i: int| 0 <= i < 36 ==> if is_uuid_hyphen_pos(i) { #[trigger] s[i] == '-' } else { is_lower_hex(s[i]) }
    &&& s[14] == '4'
}

/// A new random identifier: `uuid::Uuid::new_v4()` in its hyphenated
/// lower-case text form. Its value is random; the contract states only its
/// shape, as the crate's `new_v4` (version bits set to 4) and its `Display`
/// (lower-case hex, hyphenated) give it.
#[verifier::external_body]
pub(crate) fn new_id() -> (r: String)
    ensures
        is_uuid_text(r@),
{
    uuid::Uuid::new_v4().to_string()
}

/// The identifier kept when set, a new one when empty.
pub fn id_or_new(id: String) -> (r: String)
    ensures
        id@.len() > 0 ==> r == id,
        id@.len() == 0 ==> is_uuid_text(r@),
{
    if id.as_str().is_empty() {
        new_id()
    } else {
        id
    }
}

/// A new control token: a random UUID without its hyphens (32 lower-case
/// hex digits).
pub fn new_token() -> (r: String)
    ensures
        r@.len() == 32,
        forall|i: int| 0 <= i < r@.len() ==> is_lower_hex(#[trigger] r@[i]),
{
    let id = new_id();
    let r = text::remove_char(id.as_str(), '-');
    proof {
        lemma_remove_hyphens(id@, 36);
        assert(id@.take(36) =~= id@);
    }
    r
}

proof fn lemma_remove_hyphens(s: Seq<char>, n: int)
    requires
        is_uuid_text(s),
        0 <= n <= 36,
    ensures
        text::remove_char_seq(s.take(n), '-').len() == n - (if n > 23 { 4int } else if n > 18 { 3int } else if n > 13 { 2int } else if n > 8 { 1int } else { 0int }),
        forall|i: int| 0 <= i < text::remove_char_seq(s.take(n), '-').len()
            ==> is_lower_hex(#[trigger] text::remove_char_seq(s.take(n), '-')[i]),
    decreases n,
{
    if n == 0 {
        assert(s.take(0) =~= Seq::<char>::empty());
    } else {
        lemma_remove_hyphens(s, n - 1);
        assert(s.take(n).drop_last() =~= s.take(n - 1));
        assert(s.take(n).last() == s[n - 1]);
        if is_uuid_hyphen_pos(n - 1) {
            assert(s[n - 1] == '-');
        } else {
            assert(is_lower_hex(s[n - 1]));
        }
    }
    if n == 36 {
        assert(s.take(36) =~= s);
    }
}

} // verus!
