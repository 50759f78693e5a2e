//! Giveaways: entering and drawing from chat, the winner draw, announcements
//! and the winner history.
use vstd::prelude::*;
use rand::seq::SliceRandom;
use crate::models::{ActiveGiveawayView, Giveaway, GiveawayRunHistory, GiveawayWinner, IncomingChat};
use crate::clock::{self, Instant};
use crate::ids;
use crate::text;

verus! {

broadcast use vstd::seq_lib::group_seq_properties, vstd::multiset::group_multiset_axioms;

/// Puts the entries in a uniformly random order, drawn from the operating
/// system's secure random source (`SliceRandom::shuffle` with `OsRng`). The
/// contract says only that the result is a reordering of the entries; which
/// order comes out is left open.
#[verifier::external_body]
fn shuffle_entries(v: &mut Vec<GiveawayWinner>)
    ensures
        final(v)@.len() == old(v)@.len(),
        final(v)@.to_multiset() == old(v)@.to_multiset(),
{
    v.shuffle(&mut rand::rngs::OsRng);
}

/// `msg` is the command `cmd`, alone or followed by a space and more text.
pub open spec fn is_command(msg: Seq<char>, cmd: Seq<char>) -> bool {
    msg == cmd || text::starts_with_seq(msg, cmd + seq![' '])
}

/// What a chat line means for the open giveaway.
#[derive(Debug, Clone, Copy, PartialEq, Eq)]
pub enum GiveawayChatAction {
    /// The line is neither the entry nor the draw command.
    NotGiveaway,
    /// The line is a giveaway command that this chatter may not use: no reply.
    Ignore,
    /// Record the chatter as an entrant.
    Enter,
    /// Draw the winners.
    Draw,
}

/// The meaning of a chat line for the open giveaway `g`.
pub open spec fn chat_action_spec(g: Giveaway, c: IncomingChat) -> GiveawayChatAction {
    let msg = text::lower(text::trim_seq(c.message@));
    if is_command(msg, text::lower(g.entry_command@)) {
        if g.eligibility@ == "sub"@ && !c.is_sub && !c.is_mod {
            GiveawayChatAction::Ignore
        } else if g.exclude_mods && c.is_mod && !c.is_broadcaster {
            GiveawayChatAction::Ignore
        } else if c.is_broadcaster {
            GiveawayChatAction::Ignore
        } else {
            GiveawayChatAction::Enter
        }
    } else if is_command(msg, text::lower(g.draw_command@)) {
        if !(c.is_mod || c.is_broadcaster) {
            GiveawayChatAction::Ignore
        } else {
            GiveawayChatAction::Draw
        }
    } else {
        GiveawayChatAction::NotGiveaway
    }
}

fn is_command_exec(msg: &str, cmd: &str) -> (r: bool)
    ensures
        r == is_command(msg@, cmd@),
{
    if text::str_eq(msg, cmd) {
        return true;
    }
    let with_space = text::concat(cmd, " ");
    proof { reveal_strlit(" "); }
    assert(with_space@ =~= cmd@ + seq![' ']);
    text::starts_with(msg, with_space.as_str())
}

/// What a chat line means for the open giveaway: entry (for eligible
/// chatters: not the broadcaster, subscribers or moderators when the
/// giveaway is for subscribers, no moderators when they are excluded) or
/// draw (moderators and the broadcaster only).
pub fn chat_action(active: &ActiveGiveawayView, chat: &IncomingChat) -> (r: GiveawayChatAction)
    ensures
        r == chat_action_spec(active.giveaway, *chat),
{
    let t = text::trim(chat.message.as_str());
    let msg = text::to_lower(t.as_str());
    let entry = text::to_lower(active.giveaway.entry_command.as_str());
    let draw = text::to_lower(active.giveaway.draw_command.as_str());
    if is_command_exec(msg.as_str(), entry.as_str()) {
        if text::str_eq(active.giveaway.eligibility.as_str(), "sub") && !chat.is_sub && !chat.is_mod {
            return GiveawayChatAction::Ignore;
        }
        if active.giveaway.exclude_mods && chat.is_mod && !chat.is_broadcaster {
            return GiveawayChatAction::Ignore;
        }
        if chat.is_broadcaster {
            return GiveawayChatAction::Ignore;
        }
        return GiveawayChatAction::Enter;
    }
    if is_command_exec(msg.as_str(), draw.as_str()) {
        if !(chat.is_mod || chat.is_broadcaster) {
            return GiveawayChatAction::Ignore;
        }
        return GiveawayChatAction::Draw;
    }
    GiveawayChatAction::NotGiveaway
}

/// The reply to a giveaway entry: a confirmation when the entry was new
/// (`inserted` rows) and the giveaway confirms entries.
pub fn entry_reply(inserted: usize, confirm_entry: bool, display: &str) -> (r: Option<String>)
    ensures
        (inserted > 0 && confirm_entry) ==> (r matches Some(m) && m@ == seq!['@'] + display@ + " you're in! Good luck ✨"@),
        !(inserted > 0 && confirm_entry) ==> r is None,
{
    if inserted > 0 && confirm_entry {
        let a = text::concat("@", display);
        proof { reveal_strlit("@"); }
        let m = text::concat(a.as_str(), " you're in! Good luck ✨");
        assert(m@ =~= seq!['@'] + display@ + " you're in! Good luck ✨"@);
        Some(m)
    } else {
        None
    }
}

/// How many winners a draw picks: the giveaway's count (at least one), at
/// most one per entrant.
pub open spec fn winner_target(winner_count: i64, entrants: nat) -> nat {
    let wanted: int = if winner_count < 1 { 1 } else { winner_count as int };
    if wanted < entrants { wanted as nat } else { entrants }
}

/// Draws the winners of the open run.
///
/// When the run already has winners they are returned unchanged. Otherwise
/// the entrants are put in a uniformly random order (see `shuffle_entries`)
/// and the first `winner_target` of them win.
pub fn draw_winners(
    entries: Vec<GiveawayWinner>,
    winner_count: i64,
    existing_winners: Vec<GiveawayWinner>,
) -> (r: Result<Vec<GiveawayWinner>, String>)
    ensures
        existing_winners@.len() > 0 ==> r == Ok::<Vec<GiveawayWinner>, String>(existing_winners),
        existing_winners@.len() == 0 && entries@.len() == 0 ==> (r matches Err(e) && e@ == "No one has entered yet."@),
        existing_winners@.len() == 0 && entries@.len() > 0 ==> (r matches Ok(w) && {
            &&& w@.len() == winner_target(winner_count, entries@.len())
            &&& w@.to_multiset().subset_of(entries@.to_multiset())
        }),
{
    if existing_winners.len() > 0 {
        return Ok(existing_winners);
    }
    if entries.len() == 0 {
        return Err(text::own("No one has entered yet."));
    }
    let wanted: u64 = if winner_count < 1 { 1 } else { winner_count as u64 };
    let count: usize = if wanted < entries.len() as u64 { wanted as usize } else { entries.len() };
    let mut pool = entries;
    let ghost entrants = pool@;
    shuffle_entries(&mut pool);
    let ghost shuffled = pool@;
    pool.truncate(count);
    proof {
        assert(shuffled =~= shuffled.subrange(0, count as int) + shuffled.subrange(count as int, shuffled.len() as int));
        vstd::seq_lib::lemma_multiset_commutative(
            shuffled.subrange(0, count as int),
            shuffled.subrange(count as int, shuffled.len() as int),
        );
        assert(pool@.to_multiset().subset_of(entrants.to_multiset()));
    }
    Ok(pool)
}

/// Law: a draw never names the same entrant twice. When the entries have no
/// duplicates (each chatter enters a run once), neither have the winners,
/// and every winner is an entrant.
pub proof fn draw_picks_distinct_entrants(entries: Seq<GiveawayWinner>, winners: Seq<GiveawayWinner>)
    requires
        entries.no_duplicates(),
        winners.to_multiset().subset_of(entries.to_multiset()),
    ensures
        winners.no_duplicates(),
        forall|i: int| 0 <= i < winners.len() ==> entries.contains(#[trigger] winners[i]),
{
    entries.lemma_multiset_has_no_duplicates();
    assert forall|x: GiveawayWinner| winners.to_multiset().contains(x) implies winners.to_multiset().count(x) == 1 by {
        assert(entries.to_multiset().count(x) >= winners.to_multiset().count(x));
        assert(entries.to_multiset().contains(x));
    }
    winners.lemma_multiset_has_no_duplicates_conv();
    assert forall|i: int| 0 <= i < winners.len() implies entries.contains(#[trigger] winners[i]) by {
        assert(winners.to_multiset().contains(winners[i]));
        assert(entries.to_multiset().contains(winners[i]));
    }
}

/// `@login` of each winner, joined by `, `.
pub open spec fn mentions(ws: Seq<GiveawayWinner>) -> Seq<char>
    decreases ws.len(),
{
    if ws.len() == 0 {
        Seq::empty()
    } else if ws.len() == 1 {
        seq!['@'] + ws[0].login@
    } else {
        mentions(ws.drop_last()) + seq![',', ' ', '@'] + ws.last().login@
    }
}

/// The winner announcement: the template with `${winner}`, `${prize}` and
/// `${entries}` filled in.
pub open spec fn announcement(template: Seq<char>, prize: Seq<char>, entries: i64, ws: Seq<GiveawayWinner>) -> Seq<char> {
    text::replace_seq(
        text::replace_seq(text::replace_seq(template, "${winner}"@, mentions(ws)), "${prize}"@, prize),
        "${entries}"@,
        text::signed_decimal(entries as int),
    )
}

/// `@a, @b, ...` for the winners.
pub fn winner_mentions(winners: &Vec<GiveawayWinner>) -> (r: String)
    ensures
        r@ == mentions(winners@),
{
    let mut out = String::new();
    let mut i: usize = 0;
    proof {
        reveal_strlit("@");
        reveal_strlit(", @");
    }
    assert(winners@.take(0) =~= Seq::<GiveawayWinner>::empty());
    while i < winners.len()
        invariant
            i <= winners.len(),
            out@ == mentions(winners@.take(i as int)),
            "@"@ == seq!['@'],
            ", @"@ == seq![',', ' ', '@'],
        decreases winners.len() - i,
    {
        assert(winners@.take(i + 1).drop_last() =~= winners@.take(i as int));
        assert(winners@.take(i + 1).last() == winners@[i as int]);
        let sep = if i == 0 { "@" } else { ", @" };
        let a = text::concat(out.as_str(), sep);
        out = text::concat(a.as_str(), winners[i].login.as_str());
        proof {
            if i == 0 {
                assert(out@ =~= seq!['@'] + winners@[0].login@);
            }
        }
        i += 1;
    }
    assert(winners@.take(winners.len() as int) =~= winners@);
    out
}

/// The winner announcement for a run: its giveaway's template and prize,
/// its entry count and its winners.
pub fn format_announce(template: &str, prize: &str, entries: i64, winners: &Vec<GiveawayWinner>) -> (r: String)
    ensures
        r@ == announcement(template@, prize@, entries, winners@),
{
    let names = winner_mentions(winners);
    let a = text::replace(template, "${winner}", names.as_str());
    let b = text::replace(a.as_str(), "${prize}", prize);
    let n = text::i64_text(entries);
    text::replace(b.as_str(), "${entries}", n.as_str())
}

/// The number of history rows to load: `limit` clamped to 1..=200.
pub fn history_limit(limit: i64) -> (r: i64)
    ensures
        r == (if limit < 1 { 1 } else if limit > 200 { 200 } else { limit }),
{
    if limit < 1 { 1 } else if limit > 200 { 200 } else { limit }
}

/// The history rows that have winners, in order.
pub open spec fn with_winners(rows: Seq<GiveawayRunHistory>) -> Seq<GiveawayRunHistory> {
    rows.filter(|h: GiveawayRunHistory| h.winners@.len() > 0)
}

/// Keeps the history rows that have at least one winner.
pub fn history_with_winners(rows: Vec<GiveawayRunHistory>) -> (r: Vec<GiveawayRunHistory>)
    ensures
        r@ == with_winners(rows@),
{
    let mut rest = rows;
    let mut out: Vec<GiveawayRunHistory> = Vec::new();
    let ghost all = rest@;
    let ghost mut k: int = 0;
    assert(all.take(0) =~= Seq::<GiveawayRunHistory>::empty());
    while rest.len() > 0
        invariant
            0 <= k <= all.len(),
            rest@ == all.subrange(k, all.len() as int),
            out@ == with_winners(all.take(k)),
        decreases rest.len(),
    {
        let row = rest.remove(0);
        proof {
            assert(all.take(k + 1).drop_last() =~= all.take(k));
            assert(all.take(k + 1).last() == row);
            reveal_with_fuel(Seq::filter, 1);
            assert(rest@ =~= all.subrange(k + 1, all.len() as int));
        }
        if row.winners.len() > 0 {
            out.push(row);
        }
        proof { k = k + 1; }
    }
    assert(all.take(k) =~= all);
    out
}

/// Builds the view of the open run from its stored row.
pub fn active_view(
    run_id: String,
    giveaway_id: &str,
    status: String,
    ends_at: Option<String>,
    started_at: String,
    giveaways: Vec<Giveaway>,
    entry_count: i64,
    winners: Vec<GiveawayWinner>,
) -> (r: Result<ActiveGiveawayView, String>)
    ensures
        (exists|i: int| 0 <= i < giveaways@.len() && giveaways@[i].id@ == giveaway_id@) <==> r is Ok,
        r matches Err(e) ==> e@ == "Giveaway definition missing."@,
        r matches Ok(v) ==> {
            &&& exists|i: int| 0 <= i < giveaways@.len() && giveaways@[i] == v.giveaway
                && (forall|j: int| 0 <= j < i ==> giveaways@[j].id@ != giveaway_id@)
            &&& v.giveaway.id@ == giveaway_id@
            &&& v.run_id == run_id
            &&& v.status == status
            &&& v.started_at == started_at
            &&& v.ends_at == ends_at
            &&& v.entry_count == entry_count
            &&& v.winners == winners
        },
{
    let mut gws = giveaways;
    let ghost all = gws@;
    let mut i: usize = 0;
    while i < gws.len()
        invariant
            i <= gws.len(),
            gws@ == all,
            all == giveaways@,
            forall|j: int| 0 <= j < i ==> all[j].id@ != giveaway_id@,
        decreases gws.len() - i,
    {
        if text::str_eq(gws[i].id.as_str(), giveaway_id) {
            let g = gws.remove(i);
            assert(all[i as int] == g);
            assert(all[i as int].id@ == giveaway_id@);
            return Ok(ActiveGiveawayView {
                giveaway: g,
                run_id,
                status,
                started_at,
                ends_at,
                entry_count,
                winners,
            });
        }
        i += 1;
    }
    Err(text::own("Giveaway definition missing."))
}

/// The scheduler draws an open run by itself once its end time has come
/// and it has no winners yet (`ends_at` as read from the run; `None` when it
/// has no end time or the stored one could not be read).
pub fn should_auto_draw(ends_at: Option<Instant>, now: Instant, has_winners: bool) -> (r: bool)
    ensures
        r == (ends_at matches Some(e) && clock::instant_le((e.0 as int, e.1 as int), (now.0 as int, now.1 as int))
            && !has_winners),
{
    match ends_at {
        Some(e) => clock::not_later(e, now) && !has_winners,
        None => false,
    }
}

/// The scheduler draws the open run once its stored end time reads as a
/// time that has come and it has no winners yet.
pub open spec fn draw_due(ends_at: Option<String>, now: Instant, has_winners: bool) -> bool {
    match ends_at {
        Some(s) => {
            let e = clock::rfc3339_instant(s@);
            e matches Some(e) && clock::instant_le((e.0 as int, e.1 as int), (now.0 as int, now.1 as int))
                && !has_winners
        },
        None => false,
    }
}

/// Whether the scheduler draws the open run now, given its stored end time.
pub fn auto_draw_due(ends_at: &Option<String>, now: Instant, has_winners: bool) -> (r: bool)
    ensures
        r == draw_due(*ends_at, now, has_winners),
{
    match ends_at {
        Some(s) => should_auto_draw(clock::parse_rfc3339(s.as_str()), now, has_winners),
        None => false,
    }
}

/// What a scheduler tick does to the open run: close it with these winners
/// and say the announcement in chat.
#[derive(Debug, Clone)]
pub struct AutoDraw {
    pub run_id: String,
    pub winners: Vec<GiveawayWinner>,
    pub announcement: String,
}

/// One scheduler tick over the open run, given the run's entries: once its
/// end time has come and it has no winners, and someone has entered, its
/// winners are drawn, and the run is to be closed with them and announced.
/// Otherwise the tick leaves it alone.
pub fn auto_draw_step(active: Option<ActiveGiveawayView>, entries: Vec<GiveawayWinner>, now: Instant) -> (r: Option<AutoDraw>)
    ensures
        match active {
            None => r is None,
            Some(a) => if draw_due(a.ends_at, now, a.winners@.len() > 0) && entries@.len() > 0 {
                r matches Some(d) && {
                    &&& d.run_id == a.run_id
                    &&& d.winners@.len() == winner_target(a.giveaway.winner_count, entries@.len())
                    &&& d.winners@.len() > 0
                    &&& d.winners@.to_multiset().subset_of(entries@.to_multiset())
                    &&& d.announcement@ == announcement(
                        a.giveaway.announce_template@,
                        a.giveaway.prize@,
                        a.entry_count,
                        d.winners@,
                    )
                }
            } else {
                r is None
            },
        },
{
    match active {
        None => None,
        Some(a) => {
            if !auto_draw_due(&a.ends_at, now, a.winners.len() > 0) || entries.len() == 0 {
                return None;
            }
            match draw_winners(entries, a.giveaway.winner_count, Vec::new()) {
                Ok(w) => {
                    let text = format_announce(a.giveaway.announce_template.as_str(), a.giveaway.prize.as_str(), a.entry_count, &w);
                    Some(AutoDraw { run_id: a.run_id, winners: w, announcement: text })
                },
                Err(_) => None,
            }
        },
    }
}

/// Draws the winners of the open run, if there is one.
pub fn draw_open_run(active: Option<ActiveGiveawayView>, entries: Vec<GiveawayWinner>) -> (r: Result<Vec<GiveawayWinner>, String>)
    ensures
        active is None ==> (r matches Err(e) && e@ == "No open giveaway."@),
        active matches Some(a) ==> ({
            &&& a.winners@.len() > 0 ==> r == Ok::<Vec<GiveawayWinner>, String>(a.winners)
            &&& a.winners@.len() == 0 && entries@.len() == 0 ==> (r matches Err(e) && e@ == "No one has entered yet."@)
            &&& a.winners@.len() == 0 && entries@.len() > 0 ==> (r matches Ok(w) && {
                &&& w@.len() == winner_target(a.giveaway.winner_count, entries@.len())
                &&& w@.to_multiset().subset_of(entries@.to_multiset())
            })
        }),
{
    match active {
        None => Err(text::own("No open giveaway.")),
        Some(a) => draw_winners(entries, a.giveaway.winner_count, a.winners),
    }
}

/// The chat reply to a draw command: the announcement when winners were
/// drawn, nothing when none were, the error when the draw failed.
pub fn draw_chat_reply(
    outcome: &Result<Vec<GiveawayWinner>, String>,
    template: &str,
    prize: &str,
    entries: i64,
) -> (r: Option<String>)
    ensures
        match outcome {
            Ok(w) => if w@.len() > 0 {
                r matches Some(m) && m@ == announcement(template@, prize@, entries, w@)
            } else {
                r is None
            },
            Err(e) => r == Some(*e),
        },
{
    match outcome {
        Ok(w) => if w.len() > 0 { Some(format_announce(template, prize, entries, w)) } else { None },
        Err(e) => Some(e.clone()),
    }
}

/// A run as it is opened.
#[derive(Debug, Clone)]
pub struct RunStart {
    pub run_id: String,
    pub giveaway_id: String,
    pub started_at: String,
    pub ends_at: Option<String>,
}

/// Where the run's start and end read back as times, the end is the
/// giveaway's duration after the start.
pub open spec fn ends_after(run: RunStart, duration_mins: Option<i64>) -> bool {
    duration_mins matches Some(m) ==> (run.ends_at matches Some(e)
        ==> (clock::rfc3339_instant(run.started_at@) matches Some(ts)
        ==> (clock::rfc3339_instant(e@) matches Some(te) ==> te.0 == ts.0 + m * 60 && te.1 == ts.1)))
}

/// The start and end texts of a run opened at `now` with this duration in
/// minutes; `None` when one of them cannot be written (the end falls
/// outside the times that can be held).
pub open spec fn run_times(now: Instant, d: Option<i64>) -> Option<(Seq<char>, Option<Seq<char>>)> {
    match clock::rfc3339_text(now) {
        None => None,
        Some(st) => match d {
            None => Some((st, None)),
            Some(m) => {
                let e = now.0 + m * 60;
                if i64::MIN <= e <= i64::MAX {
                    match clock::rfc3339_text((e as i64, now.1)) {
                        Some(et) => Some((st, Some(et))),
                        None => None,
                    }
                } else {
                    None
                }
            },
        },
    }
}

/// `i` is the first giveaway of the list with the id `id`.
pub open spec fn first_with_id(list: Seq<Giveaway>, id: Seq<char>, i: int) -> bool {
    &&& 0 <= i < list.len()
    &&& list[i].id@ == id
    &&& forall|j: int| 0 <= j < i ==> (#[trigger] list[j]).id@ != id
}

/// The end of a run opened at `now` after `m` minutes, as seconds.
fn end_seconds(now: i64, m: i64) -> (r: Option<i64>)
    ensures
        match r {
            Some(e) => e == now + m * 60,
            None => !(i64::MIN <= now + m * 60 <= i64::MAX),
        },
{
    let e: i128 = (now as i128) + (m as i128) * 60;
    if e < (i64::MIN as i128) || e > (i64::MAX as i128) {
        None
    } else {
        Some(e as i64)
    }
}

/// Opens a run of the giveaway `id` at `now` under the id `run_id`: it
/// starts at `now` and, when the giveaway has a duration, ends that many
/// minutes later (see `run_times`). An error when there is no such
/// giveaway, or when the end lies beyond the times that can be written.
pub fn start_run_at(list: &Vec<Giveaway>, id: &str, now: Instant, run_id: String) -> (r: Result<RunStart, String>)
    ensures
        (forall|i: int| 0 <= i < list@.len() ==> (#[trigger] list@[i]).id@ != id@) ==> (r matches Err(e)
            && e@ == "Giveaway not found."@),
        (exists|i: int| 0 <= i < list@.len() && (#[trigger] list@[i]).id@ == id@) ==> exists|i: int|
            #[trigger] first_with_id(list@, id@, i),
        forall|i: int| #[trigger] first_with_id(list@, id@, i) ==> match run_times(now, list@[i].duration_mins) {
            None => r matches Err(e) && e@ == "Giveaway duration is out of range."@,
            Some((st, et)) => r matches Ok(run) && {
                &&& run.run_id == run_id
                &&& run.giveaway_id == list@[i].id
                &&& run.started_at@ == st
                &&& match et {
                    None => run.ends_at is None,
                    Some(t) => run.ends_at matches Some(x) && x@ == t,
                }
                &&& (now.1 < 1_000_000_000 ==> ends_after(run, list@[i].duration_mins))
            },
        },
{
    let mut i: usize = 0;
    while i < list.len()
        invariant
            i <= list.len(),
            forall|j: int| 0 <= j < i ==> (#[trigger] list@[j]).id@ != id@,
        decreases list.len() - i,
    {
        if text::str_eq(list[i].id.as_str(), id) {
            let g = &list[i];
            assert(first_with_id(list@, id@, i as int));
            assert forall|k: int| #[trigger] first_with_id(list@, id@, k) implies k == i by {
                if k < i {
                } else if k > i {
                    assert(list@[i as int].id@ == id@);
                }
            }
            let started_at = match clock::rfc3339_at(now) {
                Some(t) => t,
                None => {
                    return Err(text::own("Giveaway duration is out of range."));
                },
            };
            let ends_at = match g.duration_mins {
                None => None,
                Some(m) => match end_seconds(now.0, m) {
                    None => {
                        return Err(text::own("Giveaway duration is out of range."));
                    },
                    Some(e) => match clock::rfc3339_at((e, now.1)) {
                        Some(t) => Some(t),
                        None => {
                            return Err(text::own("Giveaway duration is out of range."));
                        },
                    },
                },
            };
            return Ok(RunStart { run_id, giveaway_id: g.id.clone(), started_at, ends_at });
        }
        i += 1;
    }
    Err(text::own("Giveaway not found."))
}

/// Opens a run of the giveaway `id` now, under a new run id (see
/// `start_run_at`). A giveaway without a duration always opens; one with a
/// duration opens unless its end lies beyond the times that can be
/// written.
pub fn start_run(list: &Vec<Giveaway>, id: &str) -> (r: Result<RunStart, String>)
    ensures
        (forall|i: int| 0 <= i < list@.len() ==> (#[trigger] list@[i]).id@ != id@) ==> (r matches Err(e)
            && e@ == "Giveaway not found."@),
        (exists|i: int| 0 <= i < list@.len() && (#[trigger] list@[i]).id@ == id@) ==> exists|i: int|
            #[trigger] first_with_id(list@, id@, i),
        forall|i: int| #[trigger] first_with_id(list@, id@, i) ==> {
            &&& list@[i].duration_mins is None ==> r is Ok
            &&& r matches Err(e) ==> e@ == "Giveaway duration is out of range."@
            &&& r matches Ok(run) ==> {
                &&& run.giveaway_id == list@[i].id
                &&& ids::is_uuid_text(run.run_id@)
                &&& (run.ends_at is Some <==> list@[i].duration_mins is Some)
                &&& ends_after(run, list@[i].duration_mins)
            }
        },
{
    let now = clock::now_instant();
    let run_id = ids::new_id();
    start_run_at(list, id, now, run_id)
}

// ---------------------------------------------------------------------------
// Laws
// ---------------------------------------------------------------------------

/// Law: the broadcaster never enters their own giveaway, and only
/// moderators and the broadcaster can draw it.
pub proof fn entries_and_draws_are_guarded(g: Giveaway, c: IncomingChat)
    ensures
        c.is_broadcaster ==> chat_action_spec(g, c) != GiveawayChatAction::Enter,
        chat_action_spec(g, c) == GiveawayChatAction::Draw ==> c.is_mod || c.is_broadcaster,
        chat_action_spec(g, c) == GiveawayChatAction::Enter && g.eligibility@ == "sub"@ ==> c.is_sub || c.is_mod,
        chat_action_spec(g, c) == GiveawayChatAction::Enter && g.exclude_mods ==> !c.is_mod,
{
}

/// The chat line is the giveaway's entry command (case and surrounding
/// blanks aside, optionally followed by more text).
pub open spec fn is_entry_line(g: Giveaway, c: IncomingChat) -> bool {
    is_command(text::lower(text::trim_seq(c.message@)), text::lower(g.entry_command@))
}

/// Law: who enters a giveaway. On its entry command a chatter is entered
/// exactly when they are not the broadcaster, they are a subscriber or a
/// moderator if the giveaway is for subscribers, and they are not a
/// moderator if moderators are excluded. So a moderator enters a
/// subscriber giveaway that does not exclude moderators, and every
/// subscriber who is neither broadcaster nor excluded moderator enters.
pub proof fn who_enters_a_giveaway(g: Giveaway, c: IncomingChat)
    ensures
        is_entry_line(g, c) ==> (chat_action_spec(g, c) == GiveawayChatAction::Enter <==> {
            &&& !c.is_broadcaster
            &&& g.eligibility@ == "sub"@ ==> (c.is_sub || c.is_mod)
            &&& g.exclude_mods ==> !c.is_mod
        }),
        is_entry_line(g, c) ==> (chat_action_spec(g, c) == GiveawayChatAction::Enter
            || chat_action_spec(g, c) == GiveawayChatAction::Ignore),
        is_entry_line(g, c) && c.is_mod && !c.is_broadcaster && !g.exclude_mods
            ==> chat_action_spec(g, c) == GiveawayChatAction::Enter,
        is_entry_line(g, c) && c.is_sub && !c.is_broadcaster && !(g.exclude_mods && c.is_mod)
            ==> chat_action_spec(g, c) == GiveawayChatAction::Enter,
{
}

} // verus!
