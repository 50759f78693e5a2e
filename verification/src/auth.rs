//! Signing in with Twitch: the device-code flow's decisions, and the hint
//! the setup screen gives about an app name.
use vstd::prelude::*;
use crate::json::{self, JsonValue};
use crate::models::TwitchUser;
use crate::text;

verus! {

/// Tokens returned by Twitch's token endpoint.
#[derive(Debug, Clone)]
pub struct TokenResponse {
    pub access_token: String,
    pub refresh_token: Option<String>,
}

// ---------------------------------------------------------------------------
// Device-code flow
// ---------------------------------------------------------------------------

/// The scopes of a device-code request, space separated.
pub open spec fn joined_scopes(scopes: Seq<String>) -> Seq<char>
    decreases scopes.len(),
{
    if scopes.len() == 0 {
        Seq::empty()
    } else if scopes.len() == 1 {
        scopes[0]@
    } else {
        joined_scopes(scopes.drop_last()) + seq![' '] + scopes.last()@
    }
}

pub fn scope_text(scopes: &Vec<String>) -> (r: String)
    ensures
        r@ == joined_scopes(scopes@),
{
    let mut out = String::new();
    let mut i: usize = 0;
    proof { reveal_strlit(" "); }
    assert(scopes@.take(0) =~= Seq::<String>::empty());
    while i < scopes.len()
        invariant
            i <= scopes.len(),
            out@ == joined_scopes(scopes@.take(i as int)),
            " "@ == seq![' '],
        decreases scopes.len() - i,
    {
        assert(scopes@.take(i + 1).drop_last() =~= scopes@.take(i as int));
        if i == 0 {
            out = text::own(scopes[0].as_str());
        } else {
            let a = text::concat(out.as_str(), " ");
            out = text::concat(a.as_str(), scopes[i].as_str());
        }
        i += 1;
    }
    assert(scopes@.take(scopes.len() as int) =~= scopes@);
    out
}

/// The error of a refused device-code request.
pub fn device_code_failed(body: &str) -> (r: String)
    ensures
        r@ == "Device code request failed: "@ + body@,
{
    text::concat("Device code request failed: ", body)
}

/// What the device-code poll does with one answer of the token endpoint.
pub enum PollStep {
    /// Authorised: the body holds the tokens.
    Done,
    /// Not yet: ask again after this many seconds.
    Wait(u64),
    /// Refused, with this error.
    Fail(String),
}

/// One answer of the token endpoint: success ends the poll; a pending
/// authorisation waits as before; `slow_down` waits five seconds longer;
/// anything else fails.
pub fn poll_step(success: bool, body: &str, wait: u64) -> (r: PollStep)
    requires
        !success && !text::contains_seq(body@, "authorization_pending"@) && text::contains_seq(body@, "slow_down"@)
            ==> wait <= u64::MAX - 5,
    ensures
        success ==> r is Done,
        !success && text::contains_seq(body@, "authorization_pending"@) ==> r == PollStep::Wait(wait),
        !success && !text::contains_seq(body@, "authorization_pending"@) && text::contains_seq(body@, "slow_down"@)
            ==> r == PollStep::Wait((wait + 5) as u64),
        !success && !text::contains_seq(body@, "authorization_pending"@) && !text::contains_seq(body@, "slow_down"@)
            ==> (r matches PollStep::Fail(e) && e@ == "Authorization failed: "@ + body@),
{
    if success {
        PollStep::Done
    } else if text::contains(body, "authorization_pending") {
        PollStep::Wait(wait)
    } else if text::contains(body, "slow_down") {
        PollStep::Wait(wait + 5)
    } else {
        PollStep::Fail(text::concat("Authorization failed: ", body))
    }
}

/// The signed-in user: the first one Twitch returned.
pub fn first_user(users: Vec<TwitchUser>) -> (r: Result<TwitchUser, String>)
    ensures
        users@.len() > 0 ==> r == Ok::<TwitchUser, String>(users@[0]),
        users@.len() == 0 ==> (r matches Err(e) && e@ == "No Twitch user returned."@),
{
    let mut users = users;
    if users.len() == 0 {
        return Err(text::own("No Twitch user returned."));
    }
    Ok(users.remove(0))
}

// ---------------------------------------------------------------------------
// App-name hint
// ---------------------------------------------------------------------------

/// The answer of an app-name check.
#[derive(Debug, Clone)]
pub struct NameCheckResult {
    pub ok: bool,
    pub status: String,
    pub message: String,
    pub suggested: Option<String>,
}

/// What a character becomes in a Twitch login: ASCII letters and digits
/// lower-cased, spaces and hyphens as `_`, anything else dropped.
pub open spec fn login_char(c: char) -> Option<char> {
    if text::is_ascii_alnum(c) {
        Some(text::ascii_lower(c))
    } else if c == ' ' || c == '-' {
        Some('_')
    } else {
        None
    }
}

pub open spec fn login_chars(s: Seq<char>) -> Seq<char>
    decreases s.len(),
{
    if s.len() == 0 {
        Seq::empty()
    } else {
        let r = login_chars(s.drop_last());
        match login_char(s.last()) {
            Some(c) => r.push(c),
            None => r,
        }
    }
}

/// The login a name would have: its login characters without leading or
/// trailing `_`.
pub open spec fn login_candidate(trimmed: Seq<char>) -> Seq<char> {
    text::strip_suffixes(text::strip_prefixes(login_chars(trimmed), seq!['_']), seq!['_'])
}

/// The ASCII letters and digits of a text, in order.
pub open spec fn alnum_chars(s: Seq<char>) -> Seq<char>
    decreases s.len(),
{
    if s.len() == 0 {
        Seq::empty()
    } else {
        let r = alnum_chars(s.drop_last());
        if text::is_ascii_alnum(s.last()) { r.push(s.last()) } else { r }
    }
}

/// The name suggested when a name cannot be checked: its first twelve
/// letters and digits followed by `Bot`, or `MyChannelBot` when that would
/// be shorter than four bytes.
pub open spec fn suggested_bot_name(trimmed: Seq<char>) -> Seq<char> {
    let a = alnum_chars(trimmed);
    let s = (if a.len() <= 12 { a } else { a.take(12) }) + "Bot"@;
    if text::utf8_len(s) >= 4 { s } else { "MyChannelBot"@ }
}

/// Before asking Twitch: either the answer already, or the login to look up.
pub enum NamePrecheck {
    Answer(NameCheckResult),
    Lookup(String),
}

pub open spec fn precheck_spec(name: Seq<char>, r: NamePrecheck) -> bool {
    let trimmed = text::trim_seq(name);
    let login = login_candidate(trimmed);
    if text::utf8_len(trimmed) < 3 || text::utf8_len(trimmed) > 100 {
        r matches NamePrecheck::Answer(a) && !a.ok && a.status@ == "invalid"@
            && a.message@ == "Name must be between 3 and 100 characters."@ && a.suggested is None
    } else if text::utf8_len(login) < 4 || text::utf8_len(login) > 25 {
        r matches NamePrecheck::Answer(a) && a.ok && a.status@ == "unchecked"@
            && a.message@ == "Twitch can’t verify this style of app name ahead of time. If Create fails, try a shorter unique name (letters/numbers) that includes your channel."@
            && (a.suggested matches Some(s) && s@ == suggested_bot_name(trimmed))
    } else {
        r matches NamePrecheck::Lookup(l) && l@ == login
    }
}

fn login_chars_of(s: &str) -> (r: String)
    ensures
        r@ == login_chars(s@),
{
    let v = text::chars_of(s);
    let mut out: Vec<char> = Vec::new();
    let mut i: usize = 0;
    while i < v.len()
        invariant
            i <= v.len(),
            v@ == s@,
            out@ == login_chars(v@.take(i as int)),
        decreases v.len() - i,
    {
        assert(v@.take(i + 1).drop_last() =~= v@.take(i as int));
        let c = v[i];
        if text::is_ascii_alnum_char(c) {
            out.push(text::ascii_lower_char(c));
        } else if c == ' ' || c == '-' {
            out.push('_');
        }
        i += 1;
    }
    assert(v@.take(v.len() as int) =~= v@);
    text::string_of(&out)
}

fn alnum_prefix(s: &str, n: usize) -> (r: String)
    ensures
        r@ == (if alnum_chars(s@).len() <= n { alnum_chars(s@) } else { alnum_chars(s@).take(n as int) }),
{
    let v = text::chars_of(s);
    let mut out: Vec<char> = Vec::new();
    let mut i: usize = 0;
    while i < v.len()
        invariant
            i <= v.len(),
            v@ == s@,
            out@ == alnum_chars(v@.take(i as int)),
        decreases v.len() - i,
    {
        assert(v@.take(i + 1).drop_last() =~= v@.take(i as int));
        let c = v[i];
        if text::is_ascii_alnum_char(c) {
            out.push(c);
        }
        i += 1;
    }
    assert(v@.take(v.len() as int) =~= v@);
    if out.len() > n {
        out.truncate(n);
    }
    text::string_of(&out)
}

/// Checks a name before anything is asked of Twitch.
pub fn name_precheck(name: &str) -> (r: NamePrecheck)
    ensures
        precheck_spec(name@, r),
{
    let trimmed = text::trim(name);
    let t = trimmed.as_str();
    match text::utf8_len_at_most(t, 100) {
        Some(n) => {
            if n < 3 {
                return NamePrecheck::Answer(NameCheckResult {
                    ok: false,
                    status: text::own("invalid"),
                    message: text::own("Name must be between 3 and 100 characters."),
                    suggested: None,
                });
            }
        },
        None => {
            return NamePrecheck::Answer(NameCheckResult {
                ok: false,
                status: text::own("invalid"),
                message: text::own("Name must be between 3 and 100 characters."),
                suggested: None,
            });
        },
    }
    proof {
        reveal_strlit("_");
    }
    assert("_"@ =~= seq!['_']);
    let chars = login_chars_of(t);
    let a = text::trim_start_matches(chars.as_str(), "_");
    let login = text::trim_end_matches(a.as_str(), "_");
    let fits = match text::utf8_len_at_most(login.as_str(), 25) {
        Some(n) => n >= 4,
        None => false,
    };
    if !fits {
        let prefix = alnum_prefix(t, 12);
        let s = text::concat(prefix.as_str(), "Bot");
        let long_enough = text::utf8_len_at_most(s.as_str(), 3).is_none();
        let suggested = if long_enough { s } else { text::own("MyChannelBot") };
        return NamePrecheck::Answer(NameCheckResult {
            ok: true,
            status: text::own("unchecked"),
            message: text::own(
                "Twitch can’t verify this style of app name ahead of time. If Create fails, try a shorter unique name (letters/numbers) that includes your channel.",
            ),
            suggested: Some(suggested),
        });
    }
    NamePrecheck::Lookup(login)
}

/// The GraphQL query that looks a login up (quotes removed from it).
pub fn lookup_query(login: &str) -> (r: String)
    ensures
        r@ == "query { user(login: \""@ + text::remove_char_seq(login@, '"') + "\") { id login displayName } }"@,
{
    let clean = text::remove_char(login, '"');
    let a = text::concat("query { user(login: \"", clean.as_str());
    text::concat(a.as_str(), "\") { id login displayName } }")
}

/// The answer when Twitch could not be asked.
pub fn name_check_unreachable(login: &str) -> (r: NameCheckResult)
    ensures
        r.ok && r.status@ == "unknown"@,
        r.message@ == "Couldn’t reach Twitch to check. You can continue — if the name is taken when you Create, pick another."@,
        r.suggested matches Some(s) && s@ == login@ + "_bot"@,
{
    NameCheckResult {
        ok: true,
        status: text::own("unknown"),
        message: text::own(
            "Couldn’t reach Twitch to check. You can continue — if the name is taken when you Create, pick another.",
        ),
        suggested: Some(text::concat(login, "_bot")),
    }
}

/// The user Twitch's reply names at `/data/user`, when it is not null.
pub open spec fn reply_user(reply: JsonValue) -> Option<JsonValue> {
    match json::get(reply, "data"@) {
        Some(d) => match json::get(d, "user"@) {
            Some(JsonValue::Null) => None,
            Some(u) => Some(u),
            None => None,
        },
        None => None,
    }
}

/// The answer from Twitch's reply: the login is taken when the reply names
/// a user (shown by its display name, else the login); otherwise it is free.
pub fn name_check_reply(login: &str, reply: &JsonValue) -> (r: NameCheckResult)
    ensures
        r.ok,
        match reply_user(*reply) {
            Some(u) => {
                let display = match json::get_str(u, "displayName"@) {
                    Some(d) => d,
                    None => login@,
                };
                &&& r.status@ == "taken"@
                &&& r.message@ == "“"@ + display
                    + "” is already a Twitch username. App names are separate, but for uniqueness try adding your channel name."@
                &&& r.suggested matches Some(s) && s@ == login@ + "_bot"@
            },
            None => {
                &&& r.status@ == "available"@
                &&& r.message@ == "No Twitch account uses “"@ + login@ + "” — good unique choice for your app name."@
                &&& r.suggested is None
            },
        },
{
    let user = match json::get_member(reply, "data") {
        Some(d) => match json::get_member(d, "user") {
            Some(JsonValue::Null) => None,
            Some(u) => Some(u),
            None => None,
        },
        None => None,
    };
    match user {
        Some(u) => {
            let display = match json::get_member(u, "displayName") {
                Some(d) => match json::as_str(d) {
                    Some(s) => text::own(s),
                    None => text::own(login),
                },
                None => text::own(login),
            };
            let a = text::concat("“", display.as_str());
            NameCheckResult {
                ok: true,
                status: text::own("taken"),
                message: text::concat(
                    a.as_str(),
                    "” is already a Twitch username. App names are separate, but for uniqueness try adding your channel name.",
                ),
                suggested: Some(text::concat(login, "_bot")),
            }
        },
        None => {
            let a = text::concat("No Twitch account uses “", login);
            NameCheckResult {
                ok: true,
                status: text::own("available"),
                message: text::concat(a.as_str(), "” — good unique choice for your app name."),
                suggested: None,
            }
        },
    }
}

} // verus!
