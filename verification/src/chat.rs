//! Chat history: which messages count as "today", and the transcript handed to the
//! language model.

use vstd::prelude::*;

use crate::discord::DiscordMessage;

verus! {

/// Nanoseconds in 24 hours.
pub const DAY_NANOS: i128 = 86_400_000_000_000;

/// The instant an RFC 3339 timestamp denotes, in nanoseconds since the Unix epoch,
/// or `None` when the text is not an RFC 3339 timestamp.
pub uninterp spec fn rfc3339_instant_nanos(text: Seq<char>) -> Option<i128>;

/// `time::OffsetDateTime::parse(text, &Rfc3339)`, taken as nanoseconds since the
/// Unix epoch (`unix_timestamp_nanos`); `None` when parsing fails. The result is
/// named, not stated: it depends on the text alone.
#[verifier::external_body]
fn parse_rfc3339_nanos(text: &str) -> (r: Option<i128>)
    ensures
        r == rfc3339_instant_nanos(text@),
{
    match time::OffsetDateTime::parse(text, &time::format_description::well_known::Rfc3339) {
        Ok(t) => Some(t.unix_timestamp_nanos()),
        Err(_) => None,
    }
}

/// Bound on the size of any instant `time` can represent, in nanoseconds.
pub open spec fn instant_bound() -> int {
    1_000_000_000_000_000_000_000_000
}

/// `time::OffsetDateTime::now_utc().unix_timestamp_nanos()`: the current time. Only
/// its range is stated: years stay within ±999 999, far below 10^24 nanoseconds.
#[verifier::external_body]
fn now_unix_nanos() -> (r: i128)
    ensures
        -instant_bound() < r < instant_bound(),
{
    time::OffsetDateTime::now_utc().unix_timestamp_nanos()
}

/// The instant 24 hours before `now`.
pub fn day_before(now: i128) -> (r: i128)
    requires
        -instant_bound() < now < instant_bound(),
    ensures
        r == now - DAY_NANOS,
{
    now - DAY_NANOS
}

/// The instant 24 hours ago, in nanoseconds since the Unix epoch.
pub fn get_24h_ago() -> (r: i128)
    ensures
        -instant_bound() - DAY_NANOS < r < instant_bound() - DAY_NANOS,
{
    let now = now_unix_nanos();
    day_before(now)
}

/// The message was sent at or after `cutoff`; a message whose timestamp does not
/// parse never counts.
pub open spec fn sent_since(m: DiscordMessage, cutoff: i128) -> bool {
    match rfc3339_instant_nanos(m.timestamp@) {
        Some(t) => t >= cutoff,
        None => false,
    }
}

/// The messages sent since `cutoff`, in the order they were given.
pub open spec fn messages_since_spec(ms: Seq<DiscordMessage>, cutoff: i128) -> Seq<DiscordMessage>
    decreases ms.len(),
{
    if ms.len() == 0 {
        seq![]
    } else {
        let rest = messages_since_spec(ms.drop_last(), cutoff);
        if sent_since(ms.last(), cutoff) {
            rest.push(ms.last())
        } else {
            rest
        }
    }
}

/// Whether the message was sent at or after `cutoff`.
pub fn is_sent_since(m: &DiscordMessage, cutoff: i128) -> (b: bool)
    ensures
        b == sent_since(*m, cutoff),
{
    match parse_rfc3339_nanos(m.timestamp.as_str()) {
        Some(t) => t >= cutoff,
        None => false,
    }
}

/// Keeps the messages sent at or after `cutoff`, in order.
pub fn messages_since(messages: Vec<DiscordMessage>, cutoff: i128) -> (r: Vec<DiscordMessage>)
    ensures
        r@ == messages_since_spec(messages@, cutoff),
{
    let ghost all = messages@;
    let mut rest = messages;
    let mut kept: Vec<DiscordMessage> = Vec::new();
    let ghost mut k: int = 0;
    while rest.len() > 0
        invariant
            0 <= k <= all.len(),
            rest@ == all.skip(k),
            kept@ == messages_since_spec(all.take(k), cutoff),
        decreases rest.len(),
    {
        let m = rest.remove(0);
        proof {
            assert(m == all[k]);
            assert(all.take(k + 1).drop_last() =~= all.take(k));
            assert(all.take(k + 1).last() == all[k]);
        }
        if is_sent_since(&m, cutoff) {
            kept.push(m);
        }
        proof {
            k = k + 1;
            assert(rest@ =~= all.skip(k));
        }
    }
    proof {
        assert(all.take(k) =~= all);
    }
    kept
}

/// Whether a message's timestamp reads as an instant at or after `cutoff`.
pub open spec fn sent_at_or_after(cutoff: i128) -> spec_fn(DiscordMessage) -> bool {
    |m: DiscordMessage|
        match rfc3339_instant_nanos(m.timestamp@) {
            Some(t) => t >= cutoff,
            None => false,
        }
}

/// The messages kept as today's are exactly those whose timestamp reads as an instant
/// at or after the cutoff, all of them, in the order they were fetched: no message of
/// the day is dropped, none from before it is kept.
pub proof fn law_messages_since_is_filter(ms: Seq<DiscordMessage>, cutoff: i128)
    ensures
        messages_since_spec(ms, cutoff) == ms.filter(sent_at_or_after(cutoff)),
    decreases ms.len(),
{
    reveal(Seq::filter);
    if ms.len() > 0 {
        law_messages_since_is_filter(ms.drop_last(), cutoff);
    }
}

/// A message is among those kept exactly when it was fetched and its timestamp reads
/// as an instant at or after the cutoff.
pub proof fn law_messages_since_membership(ms: Seq<DiscordMessage>, cutoff: i128, m: DiscordMessage)
    ensures
        messages_since_spec(ms, cutoff).contains(m) <==> (ms.contains(m) && match rfc3339_instant_nanos(
            m.timestamp@,
        ) {
            Some(t) => t >= cutoff,
            None => false,
        }),
    decreases ms.len(),
{
    if ms.len() > 0 {
        let init = ms.drop_last();
        law_messages_since_membership(init, cutoff, m);
        let rest = messages_since_spec(init, cutoff);
        assert(ms =~= init.push(ms.last()));
        assert(ms.contains(m) <==> (init.contains(m) || ms.last() == m)) by {
            if ms.contains(m) {
                let i = choose|i: int| 0 <= i < ms.len() && ms[i] == m;
                if i < ms.len() - 1 {
                    assert(init[i] == m);
                }
            }
            if init.contains(m) {
                let i = choose|i: int| 0 <= i < init.len() && init[i] == m;
                assert(ms[i] == m);
            }
            if ms.last() == m {
                assert(ms[ms.len() - 1] == m);
            }
        }
        if sent_since(ms.last(), cutoff) {
            assert(rest.push(ms.last()).contains(m) <==> (rest.contains(m) || ms.last() == m)) by {
                let p = rest.push(ms.last());
                if p.contains(m) {
                    let i = choose|i: int| 0 <= i < p.len() && p[i] == m;
                    if i < rest.len() {
                        assert(rest[i] == m);
                    }
                }
                if rest.contains(m) {
                    let i = choose|i: int| 0 <= i < rest.len() && rest[i] == m;
                    assert(p[i] == m);
                }
                if ms.last() == m {
                    assert(p[rest.len() as int] == m);
                }
            }
        }
    }
}

/// One transcript line: `Author: **name**; Content: text`.
pub open spec fn transcript_line(author: Seq<char>, content: Seq<char>) -> Seq<char> {
    "Author: **"@ + author + "**; Content: "@ + content
}

/// Lines joined with newlines between them.
pub open spec fn joined_lines(lines: Seq<Seq<char>>) -> Seq<char>
    decreases lines.len(),
{
    if lines.len() == 0 {
        seq![]
    } else if lines.len() == 1 {
        lines[0]
    } else {
        joined_lines(lines.drop_last()) + "\n"@ + lines.last()
    }
}

/// Transcript lines of messages fetched newest first: oldest message on the first line.
pub open spec fn message_lines(ms: Seq<DiscordMessage>) -> Seq<Seq<char>> {
    Seq::new(
        ms.len(),
        |k: int| transcript_line(ms[ms.len() - 1 - k].author.username@, ms[ms.len() - 1 - k].content@),
    )
}

fn append_line(out: &mut String, author: &str, content: &str)
    ensures
        final(out)@ == old(out)@ + transcript_line(author@, content@),
{
    out.append("Author: **");
    out.append(author);
    out.append("**; Content: ");
    out.append(content);
    proof {
        assert(final(out)@ =~= old(out)@ + transcript_line(author@, content@));
    }
}

/// The transcript of messages that Discord returned newest first: one line per
/// message, oldest first, separated by newlines.
pub fn format_messages(messages: &[DiscordMessage]) -> (r: String)
    ensures
        r@ == joined_lines(message_lines(messages@)),
{
    let n = messages.len();
    let ghost lines = message_lines(messages@);
    let mut r = String::new();
    let mut k: usize = 0;
    while k < n
        invariant
            n == messages@.len(),
            lines == message_lines(messages@),
            k <= n,
            r@ == joined_lines(lines.take(k as int)),
        decreases n - k,
    {
        let m = &messages[n - 1 - k];
        if k > 0 {
            r.append("\n");
        }
        append_line(&mut r, m.author.username.as_str(), m.content.as_str());
        proof {
            assert(lines.take(k + 1).drop_last() =~= lines.take(k as int));
            assert(lines.take(k + 1).last() == lines[k as int]);
            if k == 0 {
                assert(lines.take(1).len() == 1);
            }
        }
        k = k + 1;
    }
    proof {
        assert(lines.take(n as int) =~= lines);
    }
    r
}

/// A transcript line carries the whole author name and the whole message: it is
/// `Author: **`, the author, `**; Content: `, then the content, nothing cut.
pub proof fn law_transcript_line_is_whole(author: Seq<char>, content: Seq<char>)
    ensures
        transcript_line(author, content).len() == author.len() + content.len() + 23,
        transcript_line(author, content).take(10) == "Author: **"@,
        transcript_line(author, content).subrange(10, 10 + author.len() as int) == author,
        transcript_line(author, content).subrange(10 + author.len() as int, 23 + author.len() as int)
            == "**; Content: "@,
        transcript_line(author, content).skip(23 + author.len() as int) == content,
{
    reveal_strlit("Author: **");
    reveal_strlit("**; Content: ");
    let l = transcript_line(author, content);
    assert(l.take(10) =~= "Author: **"@);
    assert(l.subrange(10, 10 + author.len() as int) =~= author);
    assert(l.subrange(10 + author.len() as int, 23 + author.len() as int) =~= "**; Content: "@);
    assert(l.skip(23 + author.len() as int) =~= content);
}

/// The transcript of a single message is its one line, holding its author and its
/// whole content.
pub proof fn law_transcript_of_one_message(m: DiscordMessage)
    ensures
        joined_lines(message_lines(seq![m])) == "Author: **"@ + m.author.username@
            + "**; Content: "@ + m.content@,
{
    assert(message_lines(seq![m]).len() == 1);
    assert(message_lines(seq![m])[0] == transcript_line(m.author.username@, m.content@));
}

/// Joining two non-empty groups of lines puts a newline between their joins.
pub proof fn lemma_joined_lines_concat(x: Seq<Seq<char>>, y: Seq<Seq<char>>)
    requires
        x.len() > 0,
        y.len() > 0,
    ensures
        joined_lines(x + y) == joined_lines(x) + "\n"@ + joined_lines(y),
    decreases y.len(),
{
    if y.len() == 1 {
        assert((x + y).drop_last() =~= x);
        assert((x + y).last() == y[0]);
    } else {
        lemma_joined_lines_concat(x, y.drop_last());
        assert((x + y).drop_last() =~= x + y.drop_last());
        assert((x + y).last() == y.last());
        assert(joined_lines(x) + "\n"@ + joined_lines(y.drop_last()) + "\n"@ + y.last()
            =~= joined_lines(x) + "\n"@ + (joined_lines(y.drop_last()) + "\n"@ + y.last()));
    }
}

/// The transcript of messages fetched in two batches, newer batch first: the older
/// batch's transcript, a newline, then the newer batch's.
pub proof fn law_transcript_of_batches(newer: Seq<DiscordMessage>, older: Seq<DiscordMessage>)
    requires
        newer.len() > 0,
        older.len() > 0,
    ensures
        joined_lines(message_lines(newer + older)) == joined_lines(message_lines(older)) + "\n"@
            + joined_lines(message_lines(newer)),
{
    assert(message_lines(newer + older) =~= message_lines(older) + message_lines(newer));
    lemma_joined_lines_concat(message_lines(older), message_lines(newer));
}

/// One message of a chat history: who wrote it and what.
pub struct ChatEntry {
    pub author: String,
    pub content: String,
}

/// Transcript lines of chat entries gathered newest first: oldest entry on the first line.
pub open spec fn entry_lines(es: Seq<ChatEntry>) -> Seq<Seq<char>> {
    Seq::new(
        es.len(),
        |k: int| transcript_line(es[es.len() - 1 - k].author@, es[es.len() - 1 - k].content@),
    )
}

/// The transcript of a day's chat entries, gathered newest first: one line per entry,
/// oldest first, separated by newlines.
pub fn string_format_today_messages(messages_today: &Vec<ChatEntry>) -> (r: String)
    ensures
        r@ == joined_lines(entry_lines(messages_today@)),
{
    let n = messages_today.len();
    let ghost lines = entry_lines(messages_today@);
    let mut r = String::new();
    let mut k: usize = 0;
    while k < n
        invariant
            n == messages_today@.len(),
            lines == entry_lines(messages_today@),
            k <= n,
            r@ == joined_lines(lines.take(k as int)),
        decreases n - k,
    {
        let e = &messages_today[n - 1 - k];
        if k > 0 {
            r.append("\n");
        }
        append_line(&mut r, e.author.as_str(), e.content.as_str());
        proof {
            assert(lines.take(k + 1).drop_last() =~= lines.take(k as int));
            assert(lines.take(k + 1).last() == lines[k as int]);
            if k == 0 {
                assert(lines.take(1).len() == 1);
            }
        }
        k = k + 1;
    }
    proof {
        assert(lines.take(n as int) =~= lines);
    }
    r
}

/// The reply sent when there is nothing to summarize.
pub open spec fn nothing_to_summarize() -> Seq<char> {
    "No messages found to summarize..."@
}

/// The reply carrying a chat summary: the channel's name on a heading line, then the
/// summary.
pub open spec fn chat_summary_reply(channel_name: Seq<char>, summary: Seq<char>) -> Seq<char> {
    "**Channel: **"@ + channel_name + "\n"@ + summary
}

/// The reply text for a chat summary.
pub fn chat_summary_text(channel_name: &str, summary: &str) -> (r: String)
    ensures
        r@ == chat_summary_reply(channel_name@, summary@),
{
    let mut r = String::from_str("**Channel: **");
    r.append(channel_name);
    r.append("\n");
    r.append(summary);
    proof {
        assert(r@ =~= chat_summary_reply(channel_name@, summary@));
    }
    r
}

/// The reply sent when there is nothing to summarize.
pub fn no_messages_text() -> (r: String)
    ensures
        r@ == nothing_to_summarize(),
{
    String::from_str("No messages found to summarize...")
}

} // verus!
