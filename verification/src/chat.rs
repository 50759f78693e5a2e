//! Twitch IRC: message tags, chat lines, user notices, and the lines the bot sends.
use vstd::prelude::*;
use crate::models::IncomingChat;
use crate::text;

verus! {

pub type TagsView = Seq<(Seq<char>, Seq<char>)>;

/// One `key=value` tag, with `\s` in the value read as a space.
pub open spec fn tag_pair(part: Seq<char>) -> Option<(Seq<char>, Seq<char>)> {
    match text::split_once_seq(part, seq!['=']) {
        Some((k, v)) => Some((k, text::replace_seq(v, seq!['\\', 's'], seq![' ']))),
        None => None,
    }
}

/// The tags of the `;`-separated parts, in order; parts without `=` are skipped.
pub open spec fn tags_from_parts(parts: Seq<Seq<char>>) -> TagsView
    decreases parts.len(),
{
    if parts.len() == 0 {
        Seq::empty()
    } else {
        let r = tags_from_parts(parts.drop_last());
        match tag_pair(parts.last()) {
            Some(p) => r.push(p),
            None => r,
        }
    }
}

/// The tags of an IRC tag block such as `@badges=...;mod=1`.
pub open spec fn parse_tags_seq(raw: Seq<char>) -> TagsView {
    tags_from_parts(text::split_seq(text::strip_prefixes(raw, seq!['@']), ';'))
}

/// Value of a tag; when a key repeats, the last value counts.
pub open spec fn tag_get(tags: TagsView, key: Seq<char>) -> Option<Seq<char>>
    decreases tags.len(),
{
    if tags.len() == 0 {
        None
    } else if tags.last().0 == key {
        Some(tags.last().1)
    } else {
        tag_get(tags.drop_last(), key)
    }
}

pub open spec fn tag_or_empty(tags: TagsView, key: Seq<char>) -> Seq<char> {
    match tag_get(tags, key) {
        Some(v) => v,
        None => Seq::empty(),
    }
}

/// Parsed IRC message tags.
#[derive(Debug, Clone)]
pub struct Tags {
    pub pairs: Vec<(String, String)>,
}

impl Tags {
    pub open spec fn view_pairs(&self) -> TagsView {
        self.pairs@.map_values(|p: (String, String)| (p.0@, p.1@))
    }

    /// An empty set of tags.
    pub fn empty() -> (r: Tags)
        ensures
            r.view_pairs() == Seq::<(Seq<char>, Seq<char>)>::empty(),
    {
        let t = Tags { pairs: Vec::new() };
        assert(t.view_pairs() =~= Seq::<(Seq<char>, Seq<char>)>::empty());
        t
    }

    /// Value of a tag (the last one when the key repeats).
    pub fn get(&self, key: &str) -> (r: Option<String>)
        ensures
            match tag_get(self.view_pairs(), key@) {
                Some(v) => r matches Some(x) && x@ == v,
                None => r is None,
            },
    {
        let mut i: usize = self.pairs.len();
        assert(self.view_pairs().take(i as int) =~= self.view_pairs());
        while i > 0
            invariant
                i <= self.pairs.len(),
                tag_get(self.view_pairs(), key@) == tag_get(self.view_pairs().take(i as int), key@),
            decreases i,
        {
            let ghost t = self.view_pairs().take(i as int);
            assert(t.drop_last() =~= self.view_pairs().take(i - 1));
            assert(t.last() == (self.pairs@[i - 1].0@, self.pairs@[i - 1].1@));
            if text::str_eq(self.pairs[i - 1].0.as_str(), key) {
                return Some(self.pairs[i - 1].1.clone());
            }
            i -= 1;
        }
        None
    }

    /// Value of a tag, or the empty string.
    pub fn get_or_empty(&self, key: &str) -> (r: String)
        ensures
            r@ == tag_or_empty(self.view_pairs(), key@),
    {
        match self.get(key) {
            Some(v) => v,
            None => String::new(),
        }
    }

    /// The tag is present with value `1`.
    pub fn is_one(&self, key: &str) -> (r: bool)
        ensures
            r == (tag_get(self.view_pairs(), key@) == Some("1"@)),
    {
        match self.get(key) {
            Some(v) => text::str_eq(v.as_str(), "1"),
            None => false,
        }
    }
}

/// Reads the tag block of an IRC line (`@k=v;k2=v2`).
pub fn parse_tags(raw: &str) -> (r: Tags)
    ensures
        r.view_pairs() == parse_tags_seq(raw@),
{
    proof {
        reveal_strlit("@");
        reveal_strlit("=");
        reveal_strlit("\\s");
        reveal_strlit(" ");
    }
    assert("@"@ =~= seq!['@']);
    assert("="@ =~= seq!['=']);
    assert("\\s"@ =~= seq!['\\', 's']);
    assert(" "@ =~= seq![' ']);
    let body = text::trim_start_matches(raw, "@");
    let parts = text::split_chars(body.as_str(), ';');
    let mut tags = Tags::empty();
    let mut i: usize = 0;
    assert(parts@.take(0) =~= Seq::<Vec<char>>::empty());
    assert(text::views_of(parts@.take(0)) =~= Seq::<Seq<char>>::empty());
    while i < parts.len()
        invariant
            i <= parts.len(),
            text::views_of(parts@) == text::split_seq(text::strip_prefixes(raw@, seq!['@']), ';'),
            tags.view_pairs() == tags_from_parts(text::views_of(parts@).take(i as int)),
            "="@ == seq!['='],
            "\\s"@ == seq!['\\', 's'],
            " "@ == seq![' '],
        decreases parts.len() - i,
    {
        let part = text::string_of(&parts[i]);
        let ghost pv = text::views_of(parts@).take(i + 1);
        assert(pv.drop_last() =~= text::views_of(parts@).take(i as int));
        assert(pv.last() == part@);
        match text::split_once(part.as_str(), "=") {
            Some((k, v)) => {
                let v2 = text::replace(v.as_str(), "\\s", " ");
                let ghost before = tags.view_pairs();
                tags.pairs.push((k, v2));
                assert(tags.view_pairs() =~= before.push((k@, v2@)));
            },
            None => {},
        }
        i += 1;
    }
    assert(text::views_of(parts@).take(parts.len() as int) =~= text::views_of(parts@));
    tags
}

/// Tags and the remainder of an IRC line: a line that starts with `@`
/// carries a tag block up to its first space.
pub open spec fn line_tags_rest(line: Seq<char>) -> Option<(TagsView, Seq<char>)> {
    if text::starts_with_seq(line, seq!['@']) {
        match text::split_once_seq(line, seq![' ']) {
            Some((t, r)) => Some((parse_tags_seq(t), r)),
            None => None,
        }
    } else {
        Some((Seq::empty(), line))
    }
}

/// The sender name of a chat line: its `display-name` tag, else the nick
/// before `!` without the leading `:`.
pub open spec fn sender_name(tags: TagsView, rest: Seq<char>) -> Seq<char> {
    match tag_get(tags, "display-name"@) {
        Some(d) => d,
        None => text::strip_prefixes(text::split_seq(rest, '!')[0], seq![':']),
    }
}

/// Cheered bits of a chat line (0 when absent or unreadable).
pub open spec fn bits_of(tags: TagsView) -> nat {
    match tag_get(tags, "bits"@) {
        Some(b) => match text::parse_unsigned_seq(b, u64::MAX as nat) {
            Some(n) => n,
            None => 0,
        },
        None => 0,
    }
}

/// What a `PRIVMSG` line says of its sender and message.
pub open spec fn chat_matches(c: IncomingChat, tags: TagsView, rest: Seq<char>, msg: Seq<char>) -> bool {
    let name = sender_name(tags, rest);
    let badges = tag_or_empty(tags, "badges"@);
    &&& c.user_id@ == tag_or_empty(tags, "user-id"@)
    &&& c.login@ == text::lower(name)
    &&& c.display@ == name
    &&& c.message@ == msg
    &&& c.is_broadcaster == text::contains_seq(badges, "broadcaster/"@)
    &&& c.is_mod == (tag_get(tags, "mod"@) == Some("1"@) || c.is_broadcaster)
    &&& c.is_vip == text::contains_seq(badges, "vip/"@)
    &&& c.is_sub == (tag_get(tags, "subscriber"@) == Some("1"@) || text::contains_seq(badges, "subscriber/"@))
    &&& c.bits == bits_of(tags)
}

/// The parts of a chat line: its tags, the text after the tags, and the message.
pub open spec fn privmsg_parts(line: Seq<char>) -> Option<(TagsView, Seq<char>, Seq<char>)> {
    match line_tags_rest(line) {
        None => None,
        Some((tags, rest)) => if !text::contains_seq(rest, " PRIVMSG "@) {
            None
        } else {
            match text::split_once_seq(rest, " :"@) {
                Some((_, msg)) => Some((tags, rest, msg)),
                None => None,
            }
        },
    }
}

fn split_line(line: &str) -> (r: Option<(Tags, String)>)
    ensures
        match line_tags_rest(line@) {
            Some((t, rest)) => r matches Some(x) && x.0.view_pairs() == t && x.1@ == rest,
            None => r is None,
        },
{
    proof {
        reveal_strlit("@");
        reveal_strlit(" ");
    }
    assert("@"@ =~= seq!['@']);
    assert(" "@ =~= seq![' ']);
    if text::starts_with(line, "@") {
        match text::split_once(line, " ") {
            Some((t, r)) => Some((parse_tags(t.as_str()), r)),
            None => None,
        }
    } else {
        Some((Tags::empty(), text::own(line)))
    }
}

/// Reads a chat (`PRIVMSG`) line.
pub fn parse_privmsg(line: &str) -> (r: Option<IncomingChat>)
    ensures
        match privmsg_parts(line@) {
            Some((tags, rest, msg)) => r matches Some(c) && chat_matches(c, tags, rest, msg),
            None => r is None,
        },
{
    let (tags, rest) = match split_line(line) {
        Some(x) => x,
        None => return None,
    };
    if !text::contains(rest.as_str(), " PRIVMSG ") {
        return None;
    }
    proof {
        reveal_strlit(" :");
        reveal_strlit("!");
        reveal_strlit(":");
    }
    let msg = match text::split_once(rest.as_str(), " :") {
        Some((_, m)) => m,
        None => return None,
    };
    let name = match tags.get("display-name") {
        Some(d) => d,
        None => {
            let pieces = text::split_chars(rest.as_str(), '!');
            proof {
                text::lemma_split_nonempty(rest@, '!');
            }
            assert(text::views_of(pieces@)[0] == pieces@[0]@);
            let first = text::string_of(&pieces[0]);
            assert(":"@ =~= seq![':']);
            text::trim_start_matches(first.as_str(), ":")
        },
    };
    let badges = tags.get_or_empty("badges");
    let is_broadcaster = text::contains(badges.as_str(), "broadcaster/");
    let is_mod = tags.is_one("mod") || is_broadcaster;
    let is_vip = text::contains(badges.as_str(), "vip/");
    let is_sub = tags.is_one("subscriber") || text::contains(badges.as_str(), "subscriber/");
    let bits = match tags.get("bits") {
        Some(b) => match text::parse_unsigned(b.as_str(), u64::MAX) {
            Some(n) => n,
            None => 0,
        },
        None => 0,
    };
    Some(IncomingChat {
        user_id: tags.get_or_empty("user-id"),
        login: text::to_lower(name.as_str()),
        display: name,
        message: msg,
        is_mod,
        is_vip,
        is_sub,
        is_broadcaster,
        bits,
    })
}

/// A `USERNOTICE` event (subscription, raid, cheer, ...).
#[derive(Debug, Clone)]
pub struct UserNoticeEvent {
    pub kind: String,
    pub login: String,
    pub display: String,
    pub system_msg: String,
}

/// The automation trigger of a notice's `msg-id`.
pub open spec fn notice_kind(id: Seq<char>) -> Seq<char> {
    if id == "sub"@ || id == "resub"@ || id == "subgift"@ || id == "submysterygift"@
        || id == "anonsubgift"@ || id == "giftpaidupgrade"@ || id == "primepaidupgrade"@
        || id == "anongiftpaidupgrade"@ {
        "subscribe"@
    } else if id == "raid"@ {
        "raid"@
    } else if id == "bits"@ || id == "cheer"@ || id == "bitsbadgetier"@ {
        "cheer"@
    } else {
        id
    }
}

/// The tags of a notice line, when it is one that carries a `msg-id`.
pub open spec fn notice_tags(line: Seq<char>) -> Option<TagsView> {
    if !text::contains_seq(line, " USERNOTICE "@) || !text::starts_with_seq(line, seq!['@']) {
        None
    } else {
        match text::split_once_seq(line, seq![' ']) {
            Some((t, _)) => if tag_get(parse_tags_seq(t), "msg-id"@) is Some {
                Some(parse_tags_seq(t))
            } else {
                None
            },
            None => None,
        }
    }
}

pub fn notice_kind_of(id: &str) -> (r: String)
    ensures
        r@ == notice_kind(id@),
{
    if text::str_eq(id, "sub") || text::str_eq(id, "resub") || text::str_eq(id, "subgift")
        || text::str_eq(id, "submysterygift") || text::str_eq(id, "anonsubgift")
        || text::str_eq(id, "giftpaidupgrade") || text::str_eq(id, "primepaidupgrade")
        || text::str_eq(id, "anongiftpaidupgrade") {
        text::own("subscribe")
    } else if text::str_eq(id, "raid") {
        text::own("raid")
    } else if text::str_eq(id, "bits") || text::str_eq(id, "cheer") || text::str_eq(id, "bitsbadgetier") {
        text::own("cheer")
    } else {
        text::own(id)
    }
}

/// The event a notice with these tags gives.
pub open spec fn notice_matches(tags: TagsView, e: UserNoticeEvent) -> bool {
    &&& e.kind@ == notice_kind(tag_or_empty(tags, "msg-id"@))
    &&& e.login@ == tag_or_empty(tags, "login"@)
    &&& e.display@ == match tag_get(tags, "display-name"@) {
        Some(d) => d,
        None => tag_or_empty(tags, "login"@),
    }
    &&& e.system_msg@ == tag_or_empty(tags, "system-msg"@)
}

/// Reads a `USERNOTICE` line.
pub fn parse_usernotice(line: &str) -> (r: Option<UserNoticeEvent>)
    ensures
        match notice_tags(line@) {
            Some(tags) => r matches Some(e) && notice_matches(tags, e),
            None => r is None,
        },
{
    if !text::contains(line, " USERNOTICE ") {
        return None;
    }
    proof {
        reveal_strlit("@");
        reveal_strlit(" ");
    }
    assert("@"@ =~= seq!['@']);
    assert(" "@ =~= seq![' ']);
    if !text::starts_with(line, "@") {
        return None;
    }
    let tags = match text::split_once(line, " ") {
        Some((t, _)) => parse_tags(t.as_str()),
        None => return None,
    };
    let msg_id = match tags.get("msg-id") {
        Some(m) => m,
        None => return None,
    };
    let display = match tags.get("display-name") {
        Some(d) => d,
        None => tags.get_or_empty("login"),
    };
    Some(UserNoticeEvent {
        kind: notice_kind_of(msg_id.as_str()),
        login: tags.get_or_empty("login"),
        display,
        system_msg: tags.get_or_empty("system-msg"),
    })
}

// ---------------------------------------------------------------------------
// The connection
// ---------------------------------------------------------------------------

/// Twitch chat's IRC server (TLS).
pub const IRC_HOST: &'static str = "irc.chat.twitch.tv";
pub const IRC_PORT: u16 = 6697;

/// The channel as IRC names it: `#` and the channel in lower case.
pub fn channel_target(channel: &str) -> (r: String)
    ensures
        r@ == seq!['#'] + text::lower(channel@),
{
    let c = text::to_lower(channel);
    proof { reveal_strlit("#"); }
    assert("#"@ =~= seq!['#']);
    text::concat("#", c.as_str())
}

/// The lines that open a chat session: the tag and command capabilities,
/// the token, the bot's nick (lower case) and the channel to join.
pub fn handshake_lines(token: &str, bot_login: &str, channel: &str) -> (r: Vec<String>)
    ensures
        r@.len() == 4,
        r@[0]@ == "CAP REQ :twitch.tv/tags twitch.tv/commands"@,
        r@[1]@ == "PASS oauth:"@ + token@,
        r@[2]@ == "NICK "@ + text::lower(bot_login@),
        r@[3]@ == "JOIN "@ + seq!['#'] + text::lower(channel@),
{
    let nick = text::to_lower(bot_login);
    let chan = channel_target(channel);
    let mut out: Vec<String> = Vec::new();
    out.push(text::own("CAP REQ :twitch.tv/tags twitch.tv/commands"));
    out.push(text::concat("PASS oauth:", token));
    out.push(text::concat("NICK ", nick.as_str()));
    out.push(text::concat("JOIN ", chan.as_str()));
    proof {
        assert("JOIN "@ + chan@ =~= "JOIN "@ + seq!['#'] + text::lower(channel@));
    }
    out
}

/// The line that posts `text` to the channel `chan`.
pub fn privmsg_line(chan: &str, msg: &str) -> (r: String)
    ensures
        r@ == "PRIVMSG "@ + chan@ + " :"@ + msg@,
{
    let a = text::concat("PRIVMSG ", chan);
    let b = text::concat(a.as_str(), " :");
    text::concat(b.as_str(), msg)
}

/// A line as it is written to the server, ended by CR LF.
pub fn wire_line(line: &str) -> (r: String)
    ensures
        r@ == line@ + seq!['\r', '\n'],
{
    proof { reveal_strlit("\r\n"); }
    assert("\r\n"@ =~= seq!['\r', '\n']);
    text::concat(line, "\r\n")
}

/// The answer to a server `PING`: the line with its leading `PING` made
/// `PONG`.
pub fn pong_reply(line: &str) -> (r: Option<String>)
    ensures
        text::starts_with_seq(line@, "PING"@) ==> (r matches Some(p) && p@ == "PONG"@ + line@.subrange(4, line@.len() as int)),
        !text::starts_with_seq(line@, "PING"@) ==> r is None,
{
    proof { reveal_strlit("PING"); }
    match text::strip_prefix(line, "PING") {
        Some(rest) => Some(text::concat("PONG", rest.as_str())),
        None => None,
    }
}

/// What a line from the server is.
pub enum IrcLine {
    /// A `PING`, answered with this line.
    Ping(String),
    /// A chat message.
    Chat(IncomingChat),
    /// A subscription, raid or cheer notice.
    Notice(UserNoticeEvent),
    Other,
}

/// Reads a line from the server: a `PING` first, then a chat message, then
/// a notice.
pub fn classify_line(line: &str) -> (r: IrcLine)
    ensures
        text::starts_with_seq(line@, "PING"@) ==> (r matches IrcLine::Ping(p) && p@ == "PONG"@ + line@.subrange(4, line@.len() as int)),
        !text::starts_with_seq(line@, "PING"@) ==> match privmsg_parts(line@) {
            Some((tags, rest, msg)) => r matches IrcLine::Chat(c) && chat_matches(c, tags, rest, msg),
            None => match notice_tags(line@) {
                Some(tags) => r matches IrcLine::Notice(e) && notice_matches(tags, e),
                None => r is Other,
            },
        },
{
    match pong_reply(line) {
        Some(p) => {
            return IrcLine::Ping(p);
        },
        None => {},
    }
    match parse_privmsg(line) {
        Some(c) => {
            return IrcLine::Chat(c);
        },
        None => {},
    }
    match parse_usernotice(line) {
        Some(e) => IrcLine::Notice(e),
        None => IrcLine::Other,
    }
}

// ---------------------------------------------------------------------------
// Laws
// ---------------------------------------------------------------------------

/// The `msg-id`s of Twitch's subscription notices: new subscriptions,
/// resubscriptions, gifted and mystery-gift subscriptions, and upgrades of
/// gifted or Prime subscriptions.
pub open spec fn is_subscription_notice(id: Seq<char>) -> bool {
    id == "sub"@ || id == "resub"@ || id == "subgift"@ || id == "submysterygift"@ || id == "anonsubgift"@
        || id == "giftpaidupgrade"@ || id == "primepaidupgrade"@ || id == "anongiftpaidupgrade"@
}

/// Law: every kind of subscription notice (gifted ones included) is a
/// `subscribe` event, a raid notice a `raid` event, and a bits notice a
/// `cheer` event; any other notice keeps its `msg-id` as its kind.
pub proof fn notice_kinds_name_their_events(id: Seq<char>)
    ensures
        is_subscription_notice(id) ==> notice_kind(id) == "subscribe"@,
        id == "raid"@ ==> notice_kind(id) == "raid"@,
        (id == "bits"@ || id == "cheer"@ || id == "bitsbadgetier"@) ==> notice_kind(id) == "cheer"@,
        !is_subscription_notice(id) && id != "raid"@ && id != "bits"@ && id != "cheer"@ && id != "bitsbadgetier"@
            ==> notice_kind(id) == id,
{
    reveal_strlit("sub");
    reveal_strlit("resub");
    reveal_strlit("subgift");
    reveal_strlit("submysterygift");
    reveal_strlit("anonsubgift");
    reveal_strlit("giftpaidupgrade");
    reveal_strlit("primepaidupgrade");
    reveal_strlit("anongiftpaidupgrade");
    reveal_strlit("raid");
    reveal_strlit("bits");
    reveal_strlit("cheer");
    reveal_strlit("bitsbadgetier");
    if id == "raid"@ {
        assert(id[0] == 'r');
        assert(!is_subscription_notice(id)) by {
            assert("resub"@.len() != 4 && "sub"@.len() != 4);
        }
    }
    if id == "bits"@ || id == "cheer"@ || id == "bitsbadgetier"@ {
        assert(id[0] == 'b' || id[0] == 'c');
        assert(!is_subscription_notice(id)) by {
            assert("sub"@[0] == 's' && "resub"@[0] == 'r' && "subgift"@[0] == 's' && "submysterygift"@[0] == 's');
            assert("anonsubgift"@[0] == 'a' && "giftpaidupgrade"@[0] == 'g' && "primepaidupgrade"@[0] == 'p');
            assert("anongiftpaidupgrade"@[0] == 'a');
        }
        assert(id != "raid"@) by {
            assert("raid"@[0] == 'r');
        }
    }
}

/// Law: a `USERNOTICE` line whose `msg-id` is a subscription notice (a
/// gifted subscription too) is read as a `subscribe` event, so it runs the
/// subscribe automations; the event names the notice's user.
pub proof fn subscription_notices_are_subscribe_events(line: Seq<char>, e: UserNoticeEvent)
    requires
        notice_tags(line) is Some,
        notice_matches(notice_tags(line)->0, e),
    ensures
        is_subscription_notice(tag_or_empty(notice_tags(line)->0, "msg-id"@)) ==> e.kind@ == "subscribe"@,
        e.login@ == tag_or_empty(notice_tags(line)->0, "login"@),
{
    notice_kinds_name_their_events(tag_or_empty(notice_tags(line)->0, "msg-id"@));
}

} // verus!
