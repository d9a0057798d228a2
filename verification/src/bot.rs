//! Decisions of the long-running gateway bot (local development mode): which emoji
//! reactions and commands start which job, what the user is told when a command
//! cannot run, which commands are registered, and how a finished summary is delivered.

use vstd::prelude::*;

use crate::article::{already_summarized, bot_already_replied, extract_url, first_link, opt_string_view};
use crate::chat::{messages_since, messages_since_spec, ChatEntry};
use crate::commands::{is_slash_command, Command, PER_USER_SUMMARY, STANDARD_SUMMARY};
use crate::discord::DiscordMessage;
use crate::interaction::{find_option_text, option_text, CommandOption};
use crate::text::str_eq;

verus! {

/// The reply to a plain chat message: `!ping` is answered with `Pong!`.
pub open spec fn ping_reply_spec(content: Seq<char>) -> Option<Seq<char>> {
    if content == "!ping"@ {
        Some("Pong!"@)
    } else {
        None
    }
}

/// The reply to a plain chat message, if any.
pub fn ping_reply(content: &str) -> (r: Option<&'static str>)
    ensures
        match (r, ping_reply_spec(content@)) {
            (Some(a), Some(b)) => a@ == b,
            (None, None) => true,
            _ => false,
        },
{
    if str_eq(content, "!ping") {
        Some("Pong!")
    } else {
        None
    }
}

/// What a Unicode emoji reaction asks the bot to do.
#[derive(Debug, Clone, Copy, PartialEq, Eq, Structural)]
pub enum ReactionRequest {
    /// 📄: direct-message the reacting user a summary of the channel's day.
    ChatSummary,
    /// 📑: the same, attributed per user.
    PerUserChatSummary,
    /// 📖: reply to the message with a summary of the article it links.
    ArticleSummary,
    /// Any other emoji.
    Ignore,
}

/// What a Unicode emoji reaction asks the bot to do.
pub open spec fn reaction_request_spec(emoji: Seq<char>) -> ReactionRequest {
    if emoji == "\u{1F4C4}"@ {
        ReactionRequest::ChatSummary
    } else if emoji == "\u{1F4D1}"@ {
        ReactionRequest::PerUserChatSummary
    } else if emoji == "\u{1F4D6}"@ {
        ReactionRequest::ArticleSummary
    } else {
        ReactionRequest::Ignore
    }
}

/// What a Unicode emoji reaction asks the bot to do.
pub fn reaction_request(emoji: &str) -> (r: ReactionRequest)
    ensures
        r == reaction_request_spec(emoji@),
{
    if str_eq(emoji, "\u{1F4C4}") {
        ReactionRequest::ChatSummary
    } else if str_eq(emoji, "\u{1F4D1}") {
        ReactionRequest::PerUserChatSummary
    } else if str_eq(emoji, "\u{1F4D6}") {
        ReactionRequest::ArticleSummary
    } else {
        ReactionRequest::Ignore
    }
}

/// The summary style a chat-summary reaction asks for.
pub open spec fn reaction_task_spec(r: ReactionRequest) -> Option<Seq<char>> {
    match r {
        ReactionRequest::ChatSummary => Some(STANDARD_SUMMARY@),
        ReactionRequest::PerUserChatSummary => Some(PER_USER_SUMMARY@),
        _ => None,
    }
}

/// The summary style a chat-summary reaction asks for.
pub fn reaction_task(r: ReactionRequest) -> (t: Option<&'static str>)
    ensures
        match (t, reaction_task_spec(r)) {
            (Some(a), Some(b)) => a@ == b,
            (None, None) => true,
            _ => false,
        },
{
    match r {
        ReactionRequest::ChatSummary => Some(STANDARD_SUMMARY),
        ReactionRequest::PerUserChatSummary => Some(PER_USER_SUMMARY),
        _ => None,
    }
}

/// The link to summarize for a message, or why there is none: the message was
/// summarized before, or it holds no link.
pub enum ArticleRequest {
    AlreadySummarized,
    NoUrl,
    Summarize(String),
}

/// The link to summarize for a message.
pub open spec fn article_request_spec(msg: DiscordMessage) -> Option<Seq<char>> {
    if already_summarized(msg) {
        None
    } else {
        first_link(msg.content@)
    }
}

/// Decides what an article request on a message leads to.
pub fn article_request(msg: &DiscordMessage) -> (r: ArticleRequest)
    ensures
        r is AlreadySummarized <==> already_summarized(*msg),
        r is NoUrl <==> (!already_summarized(*msg) && first_link(msg.content@) is None),
        r matches ArticleRequest::Summarize(u) ==> Some(u@) == article_request_spec(*msg),
        article_request_spec(*msg) is Some ==> r is Summarize,
{
    if bot_already_replied(msg) {
        return ArticleRequest::AlreadySummarized;
    }
    match extract_url(msg.content.as_str()) {
        Some(u) => ArticleRequest::Summarize(u),
        None => ArticleRequest::NoUrl,
    }
}

/// The context-menu command's target as far as the bot could get it.
pub enum MenuTarget {
    /// The interaction names no target message.
    Missing,
    /// Fetching the target message failed.
    FetchFailed,
    /// The target message.
    Fetched(DiscordMessage),
}

/// The link the context-menu command summarizes, or the notice shown to the user.
pub open spec fn menu_target_spec(t: MenuTarget) -> Result<Seq<char>, Seq<char>> {
    match t {
        MenuTarget::Missing => Err("Could not find the target message."@),
        MenuTarget::FetchFailed => Err("Failed to fetch the target message."@),
        MenuTarget::Fetched(msg) => if already_summarized(msg) {
            Err("This article has already been summarized."@)
        } else {
            match first_link(msg.content@) {
                Some(u) => Ok(u),
                None => Err("No URL found in the target message."@),
            }
        },
    }
}

/// The link the context-menu command summarizes, or the notice shown to the user.
pub fn menu_target_url(t: MenuTarget) -> (r: Result<String, String>)
    ensures
        match (r, menu_target_spec(t)) {
            (Ok(a), Ok(b)) => a@ == b,
            (Err(a), Err(b)) => a@ == b,
            _ => false,
        },
{
    match t {
        MenuTarget::Missing => Err(String::from_str("Could not find the target message.")),
        MenuTarget::FetchFailed => Err(String::from_str("Failed to fetch the target message.")),
        MenuTarget::Fetched(msg) => match article_request(&msg) {
            ArticleRequest::AlreadySummarized => Err(
                String::from_str("This article has already been summarized."),
            ),
            ArticleRequest::NoUrl => Err(String::from_str("No URL found in the target message.")),
            ArticleRequest::Summarize(u) => Ok(u),
        },
    }
}

/// The link `/summary-article` summarizes, or the notice shown to the user.
pub open spec fn slash_article_spec(options: Seq<CommandOption>) -> Result<Seq<char>, Seq<char>> {
    match option_text(options, "url"@) {
        Some(u) => Ok(u),
        None => Err("Please provide a URL to summarize."@),
    }
}

/// The link `/summary-article` summarizes, or the notice shown to the user.
pub fn slash_article_url(options: &Vec<CommandOption>) -> (r: Result<String, String>)
    ensures
        match (r, slash_article_spec(options@)) {
            (Ok(a), Ok(b)) => a@ == b,
            (Err(a), Err(b)) => a@ == b,
            _ => false,
        },
{
    match find_option_text(options, "url") {
        Some(u) => Ok(u),
        None => Err(String::from_str("Please provide a URL to summarize.")),
    }
}

/// The kind of a registered command.
#[derive(Debug, Clone, Copy, PartialEq, Eq, Structural)]
pub enum CommandKind {
    /// A slash command.
    ChatInput,
    /// An entry of a message's context menu.
    Message,
}

/// A string option of a registered command.
pub struct OptionSpec {
    pub name: String,
    pub description: String,
    pub required: bool,
}

/// A command as registered with Discord.
pub struct CommandSpec {
    pub name: String,
    pub description: Option<String>,
    pub kind: CommandKind,
    pub options: Vec<OptionSpec>,
}

/// The registered command has this name, description, kind and no options.
pub open spec fn plain_command(c: CommandSpec, name: Seq<char>, description: Option<Seq<char>>, kind: CommandKind) -> bool {
    &&& c.name@ == name
    &&& opt_string_view(c.description) == description
    &&& c.kind == kind
    &&& c.options.len() == 0
}

fn command(name: &str, description: Option<&str>, kind: CommandKind) -> (c: CommandSpec)
    ensures
        plain_command(
            c,
            name@,
            match description {
                Some(d) => Some(d@),
                None => None,
            },
            kind,
        ),
{
    CommandSpec {
        name: String::from_str(name),
        description: match description {
            Some(d) => Some(String::from_str(d)),
            None => None,
        },
        kind,
        options: Vec::new(),
    }
}

/// The commands the bot registers globally when it connects.
pub fn global_commands() -> (cs: Vec<CommandSpec>)
    ensures
        cs.len() == 4,
        plain_command(
            cs@[0],
            "summary-24hr"@,
            Some("Summarize the last 24 hours of this channel"@),
            CommandKind::ChatInput,
        ),
        plain_command(
            cs@[1],
            "summary-peruser"@,
            Some("Per-user summary of the last 24 hours"@),
            CommandKind::ChatInput,
        ),
        cs@[2].name@ == "summary-article"@,
        opt_string_view(cs@[2].description) == Some("Summarize an article from a URL"@),
        cs@[2].kind == CommandKind::ChatInput,
        cs@[2].options.len() == 1,
        cs@[2].options@[0].name@ == "url"@,
        cs@[2].options@[0].description@ == "The article URL to summarize"@,
        cs@[2].options@[0].required,
        plain_command(cs@[3], "Summarize Article"@, None, CommandKind::Message),
{
    let mut cs: Vec<CommandSpec> = Vec::new();
    cs.push(
        command(
            "summary-24hr",
            Some("Summarize the last 24 hours of this channel"),
            CommandKind::ChatInput,
        ),
    );
    cs.push(
        command(
            "summary-peruser",
            Some("Per-user summary of the last 24 hours"),
            CommandKind::ChatInput,
        ),
    );
    let mut article = command(
        "summary-article",
        Some("Summarize an article from a URL"),
        CommandKind::ChatInput,
    );
    article.options.push(
        OptionSpec {
            name: String::from_str("url"),
            description: String::from_str("The article URL to summarize"),
            required: true,
        },
    );
    cs.push(article);
    cs.push(command("Summarize Article", None, CommandKind::Message));
    cs
}

/// Where a job's answer goes.
#[derive(Debug, Clone, Copy, PartialEq, Eq, Structural)]
pub enum TargetKind {
    /// A direct message to the user who reacted.
    ReactionDm,
    /// A reply to the message that was reacted to.
    ReactionReply,
    /// The deferred response of a command, seen only by its user.
    EphemeralInteraction,
    /// The deferred response of a command, seen by the channel.
    VisibleInteraction,
}

/// Where the answer to a reaction request goes: chat summaries are sent to the reacting
/// user directly, article summaries reply to the message.
pub open spec fn reaction_target_spec(r: ReactionRequest) -> Option<TargetKind> {
    match r {
        ReactionRequest::ChatSummary => Some(TargetKind::ReactionDm),
        ReactionRequest::PerUserChatSummary => Some(TargetKind::ReactionDm),
        ReactionRequest::ArticleSummary => Some(TargetKind::ReactionReply),
        ReactionRequest::Ignore => None,
    }
}

/// Where the answer to a reaction request goes.
pub fn reaction_target(r: ReactionRequest) -> (t: Option<TargetKind>)
    ensures
        t == reaction_target_spec(r),
{
    match r {
        ReactionRequest::ChatSummary => Some(TargetKind::ReactionDm),
        ReactionRequest::PerUserChatSummary => Some(TargetKind::ReactionDm),
        ReactionRequest::ArticleSummary => Some(TargetKind::ReactionReply),
        ReactionRequest::Ignore => None,
    }
}

/// Where the answer to a command goes: slash commands answer only their user, the
/// context-menu command answers the channel.
pub open spec fn command_target_spec(c: Command) -> Option<TargetKind> {
    match c {
        Command::SummaryDay => Some(TargetKind::EphemeralInteraction),
        Command::SummaryPerUser => Some(TargetKind::EphemeralInteraction),
        Command::SummaryArticle => Some(TargetKind::EphemeralInteraction),
        Command::SummarizeArticleMenu => Some(TargetKind::VisibleInteraction),
        Command::Unknown => None,
    }
}

/// Where the answer to a command goes.
pub fn command_target(c: Command) -> (t: Option<TargetKind>)
    ensures
        t == command_target_spec(c),
{
    match c {
        Command::SummaryDay => Some(TargetKind::EphemeralInteraction),
        Command::SummaryPerUser => Some(TargetKind::EphemeralInteraction),
        Command::SummaryArticle => Some(TargetKind::EphemeralInteraction),
        Command::SummarizeArticleMenu => Some(TargetKind::VisibleInteraction),
        Command::Unknown => None,
    }
}

/// Whether a command's deferred response is seen only by its user.
pub fn deferral_is_private(t: TargetKind) -> (b: bool)
    ensures
        b == (t == TargetKind::EphemeralInteraction),
{
    match t {
        TargetKind::EphemeralInteraction => true,
        _ => false,
    }
}

/// The gateway bot defers a command privately exactly when the interactions endpoint
/// does: for the slash commands.
pub proof fn law_private_answers_agree(c: Command)
    requires
        c != Command::Unknown,
    ensures
        command_target_spec(c) is Some,
        (command_target_spec(c)->0 == TargetKind::EphemeralInteraction) == is_slash_command(c),
{
}

/// How a chat summary is delivered.
#[derive(Debug, Clone, Copy, PartialEq, Eq, Structural)]
pub enum ChatDelivery {
    /// As a direct message to the reacting user.
    DirectMessage,
    /// By editing the deferred response.
    EditResponse,
}

/// How a chat summary is delivered to a target, or why it cannot be.
pub open spec fn chat_delivery_spec(target: TargetKind, reaction_has_user: bool) -> Result<
    ChatDelivery,
    Seq<char>,
> {
    match target {
        TargetKind::ReactionDm => if reaction_has_user {
            Ok(ChatDelivery::DirectMessage)
        } else {
            Err("No user_id on reaction"@)
        },
        TargetKind::EphemeralInteraction => Ok(ChatDelivery::EditResponse),
        _ => Err("Invalid response target for chat summary"@),
    }
}

/// How a chat summary is delivered to a target, or why it cannot be.
pub fn chat_delivery(target: TargetKind, reaction_has_user: bool) -> (r: Result<ChatDelivery, String>)
    ensures
        match (r, chat_delivery_spec(target, reaction_has_user)) {
            (Ok(a), Ok(b)) => a == b,
            (Err(a), Err(b)) => a@ == b,
            _ => false,
        },
{
    match target {
        TargetKind::ReactionDm => if reaction_has_user {
            Ok(ChatDelivery::DirectMessage)
        } else {
            Err(String::from_str("No user_id on reaction"))
        },
        TargetKind::EphemeralInteraction => Ok(ChatDelivery::EditResponse),
        _ => Err(String::from_str("Invalid response target for chat summary")),
    }
}

/// One step of delivering an article summary.
#[derive(Debug, Clone, Copy, PartialEq, Eq, Structural)]
pub enum ArticleStep {
    /// Reply to the summarized message with the summary.
    ReplyToMessage,
    /// Put the summary into the deferred response.
    EditResponse,
    /// Add the marker reaction to the summarized message.
    AddMarker,
}

/// The steps that deliver an article summary, or why it cannot be delivered.
pub open spec fn article_delivery_spec(target: TargetKind, has_source: bool) -> Result<
    Seq<ArticleStep>,
    Seq<char>,
> {
    match target {
        TargetKind::ReactionReply => if has_source {
            Ok(seq![ArticleStep::ReplyToMessage, ArticleStep::AddMarker])
        } else {
            Ok(seq![])
        },
        TargetKind::EphemeralInteraction => Ok(seq![ArticleStep::EditResponse]),
        TargetKind::VisibleInteraction => if has_source {
            Ok(seq![ArticleStep::EditResponse, ArticleStep::AddMarker])
        } else {
            Ok(seq![ArticleStep::EditResponse])
        },
        TargetKind::ReactionDm => Err("Invalid response target for article summary"@),
    }
}

/// The steps that deliver an article summary, in order.
pub fn article_delivery(target: TargetKind, has_source: bool) -> (r: Result<Vec<ArticleStep>, String>)
    ensures
        match (r, article_delivery_spec(target, has_source)) {
            (Ok(a), Ok(b)) => a@ == b,
            (Err(a), Err(b)) => a@ == b,
            _ => false,
        },
{
    match target {
        TargetKind::ReactionReply => if has_source {
            let v = vec![ArticleStep::ReplyToMessage, ArticleStep::AddMarker];
            assert(v@ =~= seq![ArticleStep::ReplyToMessage, ArticleStep::AddMarker]);
            Ok(v)
        } else {
            let v: Vec<ArticleStep> = Vec::new();
            assert(v@ =~= Seq::<ArticleStep>::empty());
            Ok(v)
        },
        TargetKind::EphemeralInteraction => {
            let v = vec![ArticleStep::EditResponse];
            assert(v@ =~= seq![ArticleStep::EditResponse]);
            Ok(v)
        },
        TargetKind::VisibleInteraction => if has_source {
            let v = vec![ArticleStep::EditResponse, ArticleStep::AddMarker];
            assert(v@ =~= seq![ArticleStep::EditResponse, ArticleStep::AddMarker]);
            Ok(v)
        } else {
            let v = vec![ArticleStep::EditResponse];
            assert(v@ =~= seq![ArticleStep::EditResponse]);
            Ok(v)
        },
        TargetKind::ReactionDm => Err(String::from_str("Invalid response target for article summary")),
    }
}

/// The marker is added only to a message the summary answers, after the summary is
/// posted; a summary only the invoking user sees never adds it.
pub proof fn law_marker_follows_summary(target: TargetKind, has_source: bool)
    ensures
        article_delivery_spec(target, has_source) matches Ok(steps) ==> (forall|k: int|
            0 <= k < steps.len() && steps[k] == ArticleStep::AddMarker ==> has_source && k
                == steps.len() - 1 && k > 0),
        article_delivery_spec(TargetKind::EphemeralInteraction, has_source) == Ok::<
            Seq<ArticleStep>,
            Seq<char>,
        >(seq![ArticleStep::EditResponse]),
{
}

/// The notice sent when a job fails: commands are told `Something went wrong: <error>`
/// in their deferred response; reactions get no notice.
pub open spec fn error_notice_spec(target: TargetKind, error: Seq<char>) -> Option<Seq<char>> {
    match target {
        TargetKind::EphemeralInteraction => Some("Something went wrong: "@ + error),
        TargetKind::VisibleInteraction => Some("Something went wrong: "@ + error),
        _ => None,
    }
}

/// The notice sent when a job fails.
pub fn error_notice(target: TargetKind, error: &str) -> (r: Option<String>)
    ensures
        match (r, error_notice_spec(target, error@)) {
            (Some(a), Some(b)) => a@ == b,
            (None, None) => true,
            _ => false,
        },
{
    match target {
        TargetKind::EphemeralInteraction | TargetKind::VisibleInteraction => {
            let mut m = String::from_str("Something went wrong: ");
            m.append(error);
            Some(m)
        },
        _ => None,
    }
}

/// The chat entry of a message: its author's name and its text.
pub open spec fn entry_of(m: DiscordMessage) -> (Seq<char>, Seq<char>) {
    (m.author.username@, m.content@)
}

/// The day's chat entries: one per message sent since `cutoff`, in order.
pub fn today_entries(messages: Vec<DiscordMessage>, cutoff: i128) -> (r: Vec<ChatEntry>)
    ensures
        r@.len() == messages_since_spec(messages@, cutoff).len(),
        forall|k: int|
            0 <= k < r@.len() ==> (#[trigger] r@[k].author@, r@[k].content@) == entry_of(
                messages_since_spec(messages@, cutoff)[k],
            ),
{
    let today = messages_since(messages, cutoff);
    let mut entries: Vec<ChatEntry> = Vec::new();
    let mut k: usize = 0;
    while k < today.len()
        invariant
            k <= today.len(),
            entries@.len() == k,
            forall|j: int|
                0 <= j < k ==> (#[trigger] entries@[j].author@, entries@[j].content@) == entry_of(
                    today@[j],
                ),
        decreases today.len() - k,
    {
        let m = &today[k];
        entries.push(
            ChatEntry { author: m.author.username.clone(), content: m.content.clone() },
        );
        k = k + 1;
    }
    entries
}

} // verus!
