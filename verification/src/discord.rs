//! Discord REST objects as the bot reads them, and the requests it sends:
//! endpoint addresses, authorization header and failure messages.

use vstd::prelude::*;
use vstd::utf8::encode_utf8;

verus! {

/// Base address of Discord's REST API.
pub const DISCORD_API: &'static str = "https://discord.com/api/v10";

/// Number of messages fetched when summarizing a channel.
pub const HISTORY_LIMIT: u32 = 100;

/// A channel message.
#[derive(Debug)]
pub struct DiscordMessage {
    pub id: String,
    pub author: DiscordAuthor,
    pub content: String,
    /// RFC 3339 time at which the message was sent.
    pub timestamp: String,
    pub reactions: Vec<DiscordReaction>,
}

/// The author of a message.
#[derive(Debug)]
pub struct DiscordAuthor {
    pub username: String,
    pub bot: bool,
}

/// One reaction on a message; `me` is set when the bot itself reacted.
#[derive(Debug)]
pub struct DiscordReaction {
    pub emoji: DiscordEmoji,
    pub me: bool,
}

/// A reaction's emoji: the character itself for a Unicode emoji.
#[derive(Debug)]
pub struct DiscordEmoji {
    pub name: Option<String>,
}

/// A channel; direct-message channels have no name.
#[derive(Debug)]
pub struct DiscordChannel {
    pub name: Option<String>,
}

/// The name of a channel, which summaries are headed with.
pub open spec fn channel_name_result(channel: DiscordChannel) -> Result<Seq<char>, Seq<char>> {
    match channel.name {
        Some(n) => Ok(n@),
        None => Err("Channel has no name (possibly a DM channel)"@),
    }
}

/// The name of a channel, or the error reported for a channel without one.
pub fn channel_name_of(channel: DiscordChannel) -> (r: Result<String, String>)
    ensures
        match (r, channel_name_result(channel)) {
            (Ok(a), Ok(b)) => a@ == b,
            (Err(a), Err(b)) => a@ == b,
            _ => false,
        },
{
    match channel.name {
        Some(n) => Ok(n),
        None => Err(String::from_str("Channel has no name (possibly a DM channel)")),
    }
}

/// The decimal digit `d` (`d < 10`).
pub open spec fn digit_char(d: nat) -> char {
    (48 + d) as char
}

/// Decimal notation of a natural number, without leading zeros.
pub open spec fn decimal(n: nat) -> Seq<char>
    decreases n,
{
    if n < 10 {
        seq![digit_char(n)]
    } else {
        decimal(n / 10).push(digit_char(n % 10))
    }
}

fn digit_str(d: u32) -> (s: &'static str)
    requires
        d < 10,
    ensures
        s@ == seq![digit_char(d as nat)],
{
    proof {
        reveal_strlit("0");
        reveal_strlit("1");
        reveal_strlit("2");
        reveal_strlit("3");
        reveal_strlit("4");
        reveal_strlit("5");
        reveal_strlit("6");
        reveal_strlit("7");
        reveal_strlit("8");
        reveal_strlit("9");
    }
    let s = match d {
        0 => "0",
        1 => "1",
        2 => "2",
        3 => "3",
        4 => "4",
        5 => "5",
        6 => "6",
        7 => "7",
        8 => "8",
        _ => "9",
    };
    assert(s@ =~= seq![digit_char(d as nat)]);
    s
}

/// Appends the decimal notation of `n`.
pub fn append_decimal(out: &mut String, n: u32)
    ensures
        final(out)@ == old(out)@ + decimal(n as nat),
    decreases n,
{
    if n >= 10 {
        append_decimal(out, n / 10);
    }
    out.append(digit_str(n % 10));
    proof {
        if n >= 10 {
            assert(decimal(n as nat) == decimal((n / 10) as nat).push(digit_char((n % 10) as nat)));
        }
    }
}

/// Address of a channel's recent messages.
pub open spec fn messages_url_spec(channel_id: Seq<char>, limit: nat) -> Seq<char> {
    DISCORD_API@ + "/channels/"@ + channel_id + "/messages?limit="@ + decimal(limit)
}

/// Address of a channel.
pub open spec fn channel_url_spec(channel_id: Seq<char>) -> Seq<char> {
    DISCORD_API@ + "/channels/"@ + channel_id
}

/// Address of one message.
pub open spec fn message_url_spec(channel_id: Seq<char>, message_id: Seq<char>) -> Seq<char> {
    DISCORD_API@ + "/channels/"@ + channel_id + "/messages/"@ + message_id
}

/// Address of the deferred response of an interaction (Discord calls it `@original`).
pub open spec fn original_response_url_spec(application_id: Seq<char>, token: Seq<char>) -> Seq<
    char,
> {
    DISCORD_API@ + "/webhooks/"@ + application_id + "/"@ + token + "/messages/@original"@
}

/// Address under which the bot adds its own reaction to a message.
pub open spec fn reaction_url_spec(channel_id: Seq<char>, message_id: Seq<char>, emoji: Seq<char>) -> Seq<
    char,
> {
    DISCORD_API@ + "/channels/"@ + channel_id + "/messages/"@ + message_id + "/reactions/"@
        + percent_encoded(encode_utf8(emoji)) + "/@me"@
}

/// Address of a channel's recent messages, at most `limit` of them.
pub fn messages_url(channel_id: &str, limit: u32) -> (r: String)
    ensures
        r@ == messages_url_spec(channel_id@, limit as nat),
{
    let mut r = String::from_str(DISCORD_API);
    r.append("/channels/");
    r.append(channel_id);
    r.append("/messages?limit=");
    append_decimal(&mut r, limit);
    r
}

/// Address of a channel.
pub fn channel_url(channel_id: &str) -> (r: String)
    ensures
        r@ == channel_url_spec(channel_id@),
{
    let mut r = String::from_str(DISCORD_API);
    r.append("/channels/");
    r.append(channel_id);
    r
}

/// Address of one message of a channel.
pub fn message_url(channel_id: &str, message_id: &str) -> (r: String)
    ensures
        r@ == message_url_spec(channel_id@, message_id@),
{
    let mut r = String::from_str(DISCORD_API);
    r.append("/channels/");
    r.append(channel_id);
    r.append("/messages/");
    r.append(message_id);
    r
}

/// Address of the deferred response of the interaction with this token.
pub fn original_response_url(application_id: &str, token: &str) -> (r: String)
    ensures
        r@ == original_response_url_spec(application_id@, token@),
{
    let mut r = String::from_str(DISCORD_API);
    r.append("/webhooks/");
    r.append(application_id);
    r.append("/");
    r.append(token);
    r.append("/messages/@original");
    r
}

/// Address for adding the bot's reaction `emoji` to a message.
pub fn reaction_url(channel_id: &str, message_id: &str, emoji: &str) -> (r: String)
    ensures
        r@ == reaction_url_spec(channel_id@, message_id@, emoji@),
{
    let encoded = url_encode(emoji);
    let mut r = String::from_str(DISCORD_API);
    r.append("/channels/");
    r.append(channel_id);
    r.append("/messages/");
    r.append(message_id);
    r.append("/reactions/");
    r.append(encoded.as_str());
    r.append("/@me");
    r
}

/// The `Authorization` header value for a bot token.
pub fn bot_authorization(bot_token: &str) -> (r: String)
    ensures
        r@ == "Bot "@ + bot_token@,
{
    let mut r = String::from_str("Bot ");
    r.append(bot_token);
    r
}

/// The error reported when Discord answers a request with a failure status.
pub fn request_failure(request: &str, status: &str, body: &str) -> (r: String)
    ensures
        r@ == "Discord "@ + request@ + " failed ("@ + status@ + "): "@ + body@,
{
    let mut r = String::from_str("Discord ");
    r.append(request);
    r.append(" failed (");
    r.append(status);
    r.append("): ");
    r.append(body);
    r
}

/// Bytes left as they are by percent-encoding: ASCII letters, digits and `-._~`.
pub open spec fn is_unreserved(b: u8) -> bool {
    (48 <= b <= 57) || (65 <= b <= 90) || (97 <= b <= 122) || b == 45 || b == 46 || b == 95
        || b == 126
}

/// Upper-case hexadecimal digit of `d` (`d < 16`).
pub open spec fn hex_digit_upper(d: u8) -> char {
    if d < 10 {
        (48 + d) as char
    } else {
        (55 + d) as char
    }
}

/// Percent-encoding of a byte string: each byte other than an unreserved one
/// becomes `%` and two upper-case hexadecimal digits.
pub open spec fn percent_encoded(bytes: Seq<u8>) -> Seq<char>
    decreases bytes.len(),
{
    if bytes.len() == 0 {
        seq![]
    } else {
        let b = bytes[0];
        (if is_unreserved(b) {
            seq![b as char]
        } else {
            seq!['%', hex_digit_upper(b / 16), hex_digit_upper(b % 16)]
        }) + percent_encoded(bytes.drop_first())
    }
}

/// `urlencoding::encode`: percent-encodes the UTF-8 bytes of `s`, keeping ASCII
/// letters, digits and `-._~`.
#[verifier::external_body]
fn url_encode(s: &str) -> (r: String)
    ensures
        r@ == percent_encoded(encode_utf8(s@)),
{
    urlencoding::encode(s).into_owned()
}

} // verus!
