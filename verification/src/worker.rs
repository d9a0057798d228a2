//! The worker's command workflow as a state machine. Each command alternates Discord,
//! web and model requests with decisions; the decisions live here, as a step from the
//! current state and the outcome of the last request to the next state and the next
//! request. The caller performs each request and feeds its outcome back in.

use vstd::prelude::*;

use crate::article::{
    already_summarized, article_text_from_html, article_text_result, bot_already_replied,
    extract_url, first_link, opt_string_view, SUMMARY_MARKER,
};
use crate::bedrock::{
    reply_text, reply_text_spec, system_prompt_for, system_prompt_spec, ConverseReply,
    ARTICLE_SUMMARY_SYSTEM, PER_USER_SUMMARY_SYSTEM, STANDARD_SUMMARY_SYSTEM,
};
use crate::chat::{
    law_messages_since_is_filter, sent_at_or_after, chat_summary_reply, chat_summary_text, format_messages, joined_lines, message_lines,
    messages_since, messages_since_spec, no_messages_text, nothing_to_summarize,
};
use crate::commands::{
    chat_task, chat_task_of, command_named, command_of, Command, PER_USER_SUMMARY, STANDARD_SUMMARY,
};
use crate::discord::{
    channel_name_of, channel_name_result, DiscordChannel, DiscordMessage, HISTORY_LIMIT,
};
use crate::interaction::{
    find_option_text, find_resolved_content, option_text, resolved_content, Interaction,
    InteractionData,
};
use crate::text::{
    discord_limit, discord_truncated, truncate_to_discord_limit, utf8_len,
};

verus! {

/// The message that receives the bot's marker reaction once its summary is posted.
#[derive(Debug, PartialEq, Eq)]
pub struct ReactTarget {
    pub channel_id: String,
    pub message_id: String,
}

/// Where a command's workflow stands, and what it still needs to know.
#[derive(Debug, PartialEq, Eq)]
pub enum WorkerState {
    /// Chat summary: waiting for the channel.
    ChatAwaitChannel { token: String, channel_id: String, task: String },
    /// Chat summary: waiting for the channel's recent messages.
    ChatAwaitMessages { token: String, channel_name: String, task: String },
    /// Chat summary: waiting for the model's summary.
    ChatAwaitSummary { token: String, channel_name: String },
    /// Context menu: waiting for the target message. `fallback_url` is the link found
    /// in the message as Discord resolved it with the interaction.
    MenuAwaitTarget {
        token: String,
        channel_id: String,
        target_id: String,
        fallback_url: Option<String>,
    },
    /// Article summary: waiting for the article page.
    ArticleAwaitPage { token: String, url: String, react: Option<ReactTarget> },
    /// Article summary: waiting for the model's summary.
    ArticleAwaitSummary { token: String, react: Option<ReactTarget> },
    /// Waiting for the interaction's response to be edited.
    AwaitEdit { token: String, react: Option<ReactTarget> },
    /// Waiting for the marker reaction to be added.
    AwaitReaction { token: String },
    /// An error is being shown to the user.
    ReportingError,
    /// Nothing left to do.
    Finished,
}

/// A request the caller performs for the workflow.
#[derive(Debug, PartialEq, Eq)]
pub enum WorkerAction {
    /// Fetch a channel (Discord `GET /channels/{id}`).
    FetchChannel { channel_id: String },
    /// Fetch a channel's most recent messages, newest first.
    FetchMessages { channel_id: String, limit: u32 },
    /// Fetch one message.
    FetchMessage { channel_id: String, message_id: String },
    /// Fetch a web page's HTML.
    FetchPage { url: String },
    /// Ask the model: a system prompt and the user's content.
    Converse { system_prompt: String, user_content: String },
    /// Replace the interaction's deferred response.
    EditResponse { token: String, content: String },
    /// Add the bot's reaction to a message.
    AddReaction { channel_id: String, message_id: String, emoji: String },
    /// The command is done.
    Finish,
}

/// The outcome of the last request.
pub enum WorkerEvent {
    /// Outcome of [`WorkerAction::FetchChannel`].
    Channel(Result<DiscordChannel, String>),
    /// Outcome of [`WorkerAction::FetchMessages`], with the instant 24 hours before
    /// the messages arrived.
    Messages { result: Result<Vec<DiscordMessage>, String>, cutoff: i128 },
    /// Outcome of [`WorkerAction::FetchMessage`].
    TargetMessage(Result<DiscordMessage, String>),
    /// Outcome of [`WorkerAction::FetchPage`]: the page's HTML.
    Page(Result<String, String>),
    /// Outcome of [`WorkerAction::Converse`].
    Reply(Result<ConverseReply, String>),
    /// Outcome of [`WorkerAction::EditResponse`] or [`WorkerAction::AddReaction`].
    Completed(Result<(), String>),
}

/// [`ReactTarget`] as character sequences.
pub struct ReactTargetView {
    pub channel_id: Seq<char>,
    pub message_id: Seq<char>,
}

/// [`WorkerState`] as character sequences.
pub enum WorkerStateView {
    ChatAwaitChannel { token: Seq<char>, channel_id: Seq<char>, task: Seq<char> },
    ChatAwaitMessages { token: Seq<char>, channel_name: Seq<char>, task: Seq<char> },
    ChatAwaitSummary { token: Seq<char>, channel_name: Seq<char> },
    MenuAwaitTarget {
        token: Seq<char>,
        channel_id: Seq<char>,
        target_id: Seq<char>,
        fallback_url: Option<Seq<char>>,
    },
    ArticleAwaitPage { token: Seq<char>, url: Seq<char>, react: Option<ReactTargetView> },
    ArticleAwaitSummary { token: Seq<char>, react: Option<ReactTargetView> },
    AwaitEdit { token: Seq<char>, react: Option<ReactTargetView> },
    AwaitReaction { token: Seq<char> },
    ReportingError,
    Finished,
}

/// [`WorkerAction`] as character sequences.
pub enum WorkerActionView {
    FetchChannel { channel_id: Seq<char> },
    FetchMessages { channel_id: Seq<char>, limit: u32 },
    FetchMessage { channel_id: Seq<char>, message_id: Seq<char> },
    FetchPage { url: Seq<char> },
    Converse { system_prompt: Seq<char>, user_content: Seq<char> },
    EditResponse { token: Seq<char>, content: Seq<char> },
    AddReaction { channel_id: Seq<char>, message_id: Seq<char>, emoji: Seq<char> },
    Finish,
}

/// [`WorkerEvent`] with its strings as character sequences.
pub enum WorkerEventView {
    Channel(Result<DiscordChannel, Seq<char>>),
    Messages { result: Result<Seq<DiscordMessage>, Seq<char>>, cutoff: i128 },
    TargetMessage(Result<DiscordMessage, Seq<char>>),
    Page(Result<Seq<char>, Seq<char>>),
    Reply(Result<ConverseReply, Seq<char>>),
    Completed(Result<(), Seq<char>>),
}

impl View for ReactTarget {
    type V = ReactTargetView;

    open spec fn view(&self) -> ReactTargetView {
        ReactTargetView { channel_id: self.channel_id@, message_id: self.message_id@ }
    }
}

/// The view of an optional react target.
pub open spec fn react_view(r: Option<ReactTarget>) -> Option<ReactTargetView> {
    match r {
        Some(t) => Some(t@),
        None => None,
    }
}

impl View for WorkerState {
    type V = WorkerStateView;

    open spec fn view(&self) -> WorkerStateView {
        match self {
            WorkerState::ChatAwaitChannel { token, channel_id, task } => {
                WorkerStateView::ChatAwaitChannel {
                    token: token@,
                    channel_id: channel_id@,
                    task: task@,
                }
            },
            WorkerState::ChatAwaitMessages { token, channel_name, task } => {
                WorkerStateView::ChatAwaitMessages {
                    token: token@,
                    channel_name: channel_name@,
                    task: task@,
                }
            },
            WorkerState::ChatAwaitSummary { token, channel_name } => {
                WorkerStateView::ChatAwaitSummary { token: token@, channel_name: channel_name@ }
            },
            WorkerState::MenuAwaitTarget { token, channel_id, target_id, fallback_url } => {
                WorkerStateView::MenuAwaitTarget {
                    token: token@,
                    channel_id: channel_id@,
                    target_id: target_id@,
                    fallback_url: opt_string_view(*fallback_url),
                }
            },
            WorkerState::ArticleAwaitPage { token, url, react } => {
                WorkerStateView::ArticleAwaitPage {
                    token: token@,
                    url: url@,
                    react: react_view(*react),
                }
            },
            WorkerState::ArticleAwaitSummary { token, react } => {
                WorkerStateView::ArticleAwaitSummary { token: token@, react: react_view(*react) }
            },
            WorkerState::AwaitEdit { token, react } => {
                WorkerStateView::AwaitEdit { token: token@, react: react_view(*react) }
            },
            WorkerState::AwaitReaction { token } => WorkerStateView::AwaitReaction {
                token: token@,
            },
            WorkerState::ReportingError => WorkerStateView::ReportingError,
            WorkerState::Finished => WorkerStateView::Finished,
        }
    }
}

impl View for WorkerAction {
    type V = WorkerActionView;

    open spec fn view(&self) -> WorkerActionView {
        match self {
            WorkerAction::FetchChannel { channel_id } => WorkerActionView::FetchChannel {
                channel_id: channel_id@,
            },
            WorkerAction::FetchMessages { channel_id, limit } => WorkerActionView::FetchMessages {
                channel_id: channel_id@,
                limit: *limit,
            },
            WorkerAction::FetchMessage { channel_id, message_id } => {
                WorkerActionView::FetchMessage {
                    channel_id: channel_id@,
                    message_id: message_id@,
                }
            },
            WorkerAction::FetchPage { url } => WorkerActionView::FetchPage { url: url@ },
            WorkerAction::Converse { system_prompt, user_content } => WorkerActionView::Converse {
                system_prompt: system_prompt@,
                user_content: user_content@,
            },
            WorkerAction::EditResponse { token, content } => WorkerActionView::EditResponse {
                token: token@,
                content: content@,
            },
            WorkerAction::AddReaction { channel_id, message_id, emoji } => {
                WorkerActionView::AddReaction {
                    channel_id: channel_id@,
                    message_id: message_id@,
                    emoji: emoji@,
                }
            },
            WorkerAction::Finish => WorkerActionView::Finish,
        }
    }
}

impl View for WorkerEvent {
    type V = WorkerEventView;

    open spec fn view(&self) -> WorkerEventView {
        match self {
            WorkerEvent::Channel(r) => WorkerEventView::Channel(
                match r {
                    Ok(c) => Ok(*c),
                    Err(e) => Err(e@),
                },
            ),
            WorkerEvent::Messages { result, cutoff } => WorkerEventView::Messages {
                result: match result {
                    Ok(ms) => Ok(ms@),
                    Err(e) => Err(e@),
                },
                cutoff: *cutoff,
            },
            WorkerEvent::TargetMessage(r) => WorkerEventView::TargetMessage(
                match r {
                    Ok(m) => Ok(*m),
                    Err(e) => Err(e@),
                },
            ),
            WorkerEvent::Page(r) => WorkerEventView::Page(
                match r {
                    Ok(h) => Ok(h@),
                    Err(e) => Err(e@),
                },
            ),
            WorkerEvent::Reply(r) => WorkerEventView::Reply(
                match r {
                    Ok(c) => Ok(*c),
                    Err(e) => Err(e@),
                },
            ),
            WorkerEvent::Completed(r) => WorkerEventView::Completed(
                match r {
                    Ok(_) => Ok(()),
                    Err(e) => Err(e@),
                },
            ),
        }
    }
}

/// What the user is shown when a command fails.
pub open spec fn error_reply(e: Seq<char>) -> Seq<char> {
    "Something went wrong: "@ + e
}

/// Show the error to the user, then stop.
pub open spec fn report(token: Seq<char>, e: Seq<char>) -> (WorkerStateView, WorkerActionView) {
    (
        WorkerStateView::ReportingError,
        WorkerActionView::EditResponse { token, content: error_reply(e) },
    )
}

/// Stop.
pub open spec fn finish() -> (WorkerStateView, WorkerActionView) {
    (WorkerStateView::Finished, WorkerActionView::Finish)
}

/// The reply sent for a message whose article was summarized before.
pub open spec fn already_summarized_reply() -> Seq<char> {
    "This article has already been summarized."@
}

/// The name of the invoked command; `unknown` when the interaction carries none.
pub open spec fn invoked_name(i: Interaction) -> Seq<char> {
    match i.data {
        Some(d) => match d.name {
            Some(n) => n@,
            None => "unknown"@,
        },
        None => "unknown"@,
    }
}

/// The link of the target message as Discord resolved it with the interaction.
pub open spec fn resolved_link(d: InteractionData, target_id: Seq<char>) -> Option<Seq<char>> {
    match d.resolved {
        Some(r) => match resolved_content(r.messages@, target_id) {
            Some(c) => first_link(c),
            None => None,
        },
        None => None,
    }
}

/// How a chat-summary command starts.
pub open spec fn begin_chat(i: Interaction, task: Seq<char>) -> (WorkerStateView, WorkerActionView) {
    match i.channel_id {
        None => report(i.token@, "No channel_id in interaction"@),
        Some(c) => (
            WorkerStateView::ChatAwaitChannel { token: i.token@, channel_id: c@, task },
            WorkerActionView::FetchChannel { channel_id: c@ },
        ),
    }
}

/// How `/summary-article` starts.
pub open spec fn begin_slash_article(i: Interaction) -> (WorkerStateView, WorkerActionView) {
    match i.data {
        None => report(i.token@, "No data in interaction"@),
        Some(d) => match option_text(d.options@, "url"@) {
            None => report(i.token@, "No URL provided in slash command"@),
            Some(u) => (
                WorkerStateView::ArticleAwaitPage { token: i.token@, url: u, react: None },
                WorkerActionView::FetchPage { url: u },
            ),
        },
    }
}

/// How the "Summarize Article" context-menu command starts.
pub open spec fn begin_menu_article(i: Interaction) -> (WorkerStateView, WorkerActionView) {
    match i.channel_id {
        None => report(i.token@, "No channel_id in interaction"@),
        Some(c) => match i.data {
            None => report(i.token@, "No data in interaction"@),
            Some(d) => match d.target_id {
                None => report(i.token@, "No target_id in context menu interaction"@),
                Some(t) => (
                    WorkerStateView::MenuAwaitTarget {
                        token: i.token@,
                        channel_id: c@,
                        target_id: t@,
                        fallback_url: resolved_link(d, t@),
                    },
                    WorkerActionView::FetchMessage { channel_id: c@, message_id: t@ },
                ),
            },
        },
    }
}

/// How the workflow starts for an interaction.
pub open spec fn worker_begin_spec(i: Interaction) -> (WorkerStateView, WorkerActionView) {
    let c = command_named(invoked_name(i));
    match c {
        Command::SummaryDay => begin_chat(i, chat_task(c)->0),
        Command::SummaryPerUser => begin_chat(i, chat_task(c)->0),
        Command::SummaryArticle => begin_slash_article(i),
        Command::SummarizeArticleMenu => begin_menu_article(i),
        Command::Unknown => finish(),
    }
}

/// The event is the outcome of the request the state waits for.
pub open spec fn accepts(s: WorkerStateView, e: WorkerEventView) -> bool {
    match s {
        WorkerStateView::ChatAwaitChannel { .. } => e is Channel,
        WorkerStateView::ChatAwaitMessages { .. } => e is Messages,
        WorkerStateView::ChatAwaitSummary { .. } => e is Reply,
        WorkerStateView::MenuAwaitTarget { .. } => e is TargetMessage,
        WorkerStateView::ArticleAwaitPage { .. } => e is Page,
        WorkerStateView::ArticleAwaitSummary { .. } => e is Reply,
        WorkerStateView::AwaitEdit { .. } => e is Completed,
        WorkerStateView::AwaitReaction { .. } => e is Completed,
        WorkerStateView::ReportingError => e is Completed,
        WorkerStateView::Finished => true,
    }
}

/// The next state and request, given the outcome of the last request.
pub open spec fn worker_next(s: WorkerStateView, e: WorkerEventView) -> (WorkerStateView, WorkerActionView) {
    match (s, e) {
        (
            WorkerStateView::ChatAwaitChannel { token, channel_id, task },
            WorkerEventView::Channel(r),
        ) => match r {
            Err(err) => report(token, err),
            Ok(channel) => match channel_name_result(channel) {
                Err(err) => report(token, err),
                Ok(name) => (
                    WorkerStateView::ChatAwaitMessages { token, channel_name: name, task },
                    WorkerActionView::FetchMessages { channel_id, limit: 100 },
                ),
            },
        },
        (
            WorkerStateView::ChatAwaitMessages { token, channel_name, task },
            WorkerEventView::Messages { result, cutoff },
        ) => match result {
            Err(err) => report(token, err),
            Ok(ms) => {
                let today = messages_since_spec(ms, cutoff);
                if today.len() > 1 {
                    match system_prompt_spec(task) {
                        Err(err) => report(token, err),
                        Ok(prompt) => (
                            WorkerStateView::ChatAwaitSummary { token, channel_name },
                            WorkerActionView::Converse {
                                system_prompt: prompt,
                                user_content: joined_lines(message_lines(today)),
                            },
                        ),
                    }
                } else {
                    (
                        WorkerStateView::AwaitEdit { token, react: None },
                        WorkerActionView::EditResponse {
                            token,
                            content: discord_truncated(nothing_to_summarize()),
                        },
                    )
                }
            },
        },
        (
            WorkerStateView::ChatAwaitSummary { token, channel_name },
            WorkerEventView::Reply(r),
        ) => match r {
            Err(err) => report(token, err),
            Ok(reply) => match reply_text_spec(reply) {
                Err(err) => report(token, err),
                Ok(summary) => (
                    WorkerStateView::AwaitEdit { token, react: None },
                    WorkerActionView::EditResponse {
                        token,
                        content: discord_truncated(chat_summary_reply(channel_name, summary)),
                    },
                ),
            },
        },
        (
            WorkerStateView::MenuAwaitTarget { token, channel_id, target_id, fallback_url },
            WorkerEventView::TargetMessage(r),
        ) => match r {
            Err(err) => report(token, err),
            Ok(msg) => if already_summarized(msg) {
                (
                    WorkerStateView::AwaitEdit { token, react: None },
                    WorkerActionView::EditResponse { token, content: already_summarized_reply() },
                )
            } else {
                let url = match first_link(msg.content@) {
                    Some(u) => Some(u),
                    None => fallback_url,
                };
                match url {
                    None => report(token, "No URL found in the target message"@),
                    Some(u) => (
                        WorkerStateView::ArticleAwaitPage {
                            token,
                            url: u,
                            react: Some(ReactTargetView { channel_id, message_id: target_id }),
                        },
                        WorkerActionView::FetchPage { url: u },
                    ),
                }
            },
        },
        (WorkerStateView::ArticleAwaitPage { token, url, react }, WorkerEventView::Page(r)) => match r {
            Err(err) => report(token, err),
            Ok(html) => match article_text_result(html, url) {
                Err(err) => report(token, err),
                Ok(text) => (
                    WorkerStateView::ArticleAwaitSummary { token, react },
                    WorkerActionView::Converse {
                        system_prompt: ARTICLE_SUMMARY_SYSTEM@,
                        user_content: text,
                    },
                ),
            },
        },
        (WorkerStateView::ArticleAwaitSummary { token, react }, WorkerEventView::Reply(r)) => match r {
            Err(err) => report(token, err),
            Ok(reply) => match reply_text_spec(reply) {
                Err(err) => report(token, err),
                Ok(summary) => (
                    WorkerStateView::AwaitEdit { token, react },
                    WorkerActionView::EditResponse { token, content: discord_truncated(summary) },
                ),
            },
        },
        (WorkerStateView::AwaitEdit { token, react }, WorkerEventView::Completed(r)) => match r {
            Err(err) => report(token, err),
            Ok(_) => match react {
                None => finish(),
                Some(t) => (
                    WorkerStateView::AwaitReaction { token },
                    WorkerActionView::AddReaction {
                        channel_id: t.channel_id,
                        message_id: t.message_id,
                        emoji: SUMMARY_MARKER@,
                    },
                ),
            },
        },
        (WorkerStateView::AwaitReaction { token }, WorkerEventView::Completed(r)) => match r {
            Err(err) => report(token, err),
            Ok(_) => finish(),
        },
        _ => finish(),
    }
}

fn report_exec(token: String, e: &str) -> (r: (WorkerState, WorkerAction))
    ensures
        (r.0@, r.1@) == report(token@, e@),
{
    let mut content = String::from_str("Something went wrong: ");
    content.append(e);
    (WorkerState::ReportingError, WorkerAction::EditResponse { token, content })
}

fn finish_exec() -> (r: (WorkerState, WorkerAction))
    ensures
        (r.0@, r.1@) == finish(),
{
    (WorkerState::Finished, WorkerAction::Finish)
}

/// The first state and request of the workflow for an interaction.
pub fn worker_begin(interaction: Interaction) -> (r: (WorkerState, WorkerAction))
    ensures
        (r.0@, r.1@) == worker_begin_spec(interaction),
{
    let ghost i = interaction;
    let name = match &interaction.data {
        Some(d) => match &d.name {
            Some(n) => n.clone(),
            None => String::from_str("unknown"),
        },
        None => String::from_str("unknown"),
    };
    assert(name@ == invoked_name(i));
    let c = command_of(name.as_str());
    let Interaction { token, channel_id, data } = interaction;
    match c {
        Command::SummaryDay | Command::SummaryPerUser => {
            let task = chat_task_of(c).unwrap();
            match channel_id {
                None => report_exec(token, "No channel_id in interaction"),
                Some(ch) => {
                    let ch2 = ch.clone();
                    (
                        WorkerState::ChatAwaitChannel {
                            token,
                            channel_id: ch,
                            task: String::from_str(task),
                        },
                        WorkerAction::FetchChannel { channel_id: ch2 },
                    )
                },
            }
        },
        Command::SummaryArticle => match data {
            None => report_exec(token, "No data in interaction"),
            Some(d) => match find_option_text(&d.options, "url") {
                None => report_exec(token, "No URL provided in slash command"),
                Some(u) => {
                    let u2 = u.clone();
                    (
                        WorkerState::ArticleAwaitPage { token, url: u, react: None },
                        WorkerAction::FetchPage { url: u2 },
                    )
                },
            },
        },
        Command::SummarizeArticleMenu => match channel_id {
            None => report_exec(token, "No channel_id in interaction"),
            Some(ch) => match data {
                None => report_exec(token, "No data in interaction"),
                Some(d) => match &d.target_id {
                    None => report_exec(token, "No target_id in context menu interaction"),
                    Some(t) => {
                        let fallback = match &d.resolved {
                            Some(r) => match find_resolved_content(r, t.as_str()) {
                                Some(content) => extract_url(content.as_str()),
                                None => None,
                            },
                            None => None,
                        };
                        assert(opt_string_view(fallback) == resolved_link(d, t@));
                        let ch2 = ch.clone();
                        let t2 = t.clone();
                        let t3 = t.clone();
                        (
                            WorkerState::MenuAwaitTarget {
                                token,
                                channel_id: ch,
                                target_id: t2,
                                fallback_url: fallback,
                            },
                            WorkerAction::FetchMessage { channel_id: ch2, message_id: t3 },
                        )
                    },
                },
            },
        },
        Command::Unknown => finish_exec(),
    }
}

/// Whether the event is the outcome of the request the state waits for.
pub fn worker_accepts(state: &WorkerState, event: &WorkerEvent) -> (b: bool)
    ensures
        b == accepts(state@, event@),
{
    match state {
        WorkerState::ChatAwaitChannel { .. } => matches!(event, WorkerEvent::Channel { .. }),
        WorkerState::ChatAwaitMessages { .. } => matches!(event, WorkerEvent::Messages { .. }),
        WorkerState::ChatAwaitSummary { .. } => matches!(event, WorkerEvent::Reply { .. }),
        WorkerState::MenuAwaitTarget { .. } => matches!(event, WorkerEvent::TargetMessage { .. }),
        WorkerState::ArticleAwaitPage { .. } => matches!(event, WorkerEvent::Page { .. }),
        WorkerState::ArticleAwaitSummary { .. } => matches!(event, WorkerEvent::Reply { .. }),
        WorkerState::AwaitEdit { .. } => matches!(event, WorkerEvent::Completed { .. }),
        WorkerState::AwaitReaction { .. } => matches!(event, WorkerEvent::Completed { .. }),
        WorkerState::ReportingError => matches!(event, WorkerEvent::Completed { .. }),
        WorkerState::Finished => true,
    }
}

/// One step of the workflow: the next state and the next request. An event that is
/// not the outcome the state waits for ends the workflow.
pub fn worker_step(state: WorkerState, event: WorkerEvent) -> (r: (WorkerState, WorkerAction))
    ensures
        (r.0@, r.1@) == worker_next(state@, event@),
{
    match state {
        WorkerState::ChatAwaitChannel { token, channel_id, task } => match event {
            WorkerEvent::Channel(Err(err)) => report_exec(token, err.as_str()),
            WorkerEvent::Channel(Ok(channel)) => match channel_name_of(channel) {
                Err(err) => report_exec(token, err.as_str()),
                Ok(name) => (
                    WorkerState::ChatAwaitMessages { token, channel_name: name, task },
                    WorkerAction::FetchMessages { channel_id, limit: HISTORY_LIMIT },
                ),
            },
            _ => finish_exec(),
        },
        WorkerState::ChatAwaitMessages { token, channel_name, task } => match event {
            WorkerEvent::Messages { result: Err(err), .. } => report_exec(token, err.as_str()),
            WorkerEvent::Messages { result: Ok(ms), cutoff } => {
                let today = messages_since(ms, cutoff);
                if today.len() > 1 {
                    match system_prompt_for(task.as_str()) {
                        Err(err) => report_exec(token, err.as_str()),
                        Ok(prompt) => {
                            let content = format_messages(today.as_slice());
                            (
                                WorkerState::ChatAwaitSummary { token, channel_name },
                                WorkerAction::Converse {
                                    system_prompt: String::from_str(prompt),
                                    user_content: content,
                                },
                            )
                        },
                    }
                } else {
                    let text = no_messages_text();
                    proof {
                        reveal_strlit("No messages found to summarize...");
                        crate::text::lemma_utf8_len_bound(text@);
                    }
                    let content = truncate_to_discord_limit(text.as_str());
                    let token2 = token.clone();
                    (
                        WorkerState::AwaitEdit { token, react: None },
                        WorkerAction::EditResponse { token: token2, content },
                    )
                }
            },
            _ => finish_exec(),
        },
        WorkerState::ChatAwaitSummary { token, channel_name } => match event {
            WorkerEvent::Reply(Err(err)) => report_exec(token, err.as_str()),
            WorkerEvent::Reply(Ok(reply)) => match reply_text(reply) {
                Err(err) => report_exec(token, err.as_str()),
                Ok(summary) => {
                    let text = chat_summary_text(channel_name.as_str(), summary.as_str());
                    let content = truncate_to_discord_limit(text.as_str());
                    let token2 = token.clone();
                    (
                        WorkerState::AwaitEdit { token, react: None },
                        WorkerAction::EditResponse { token: token2, content },
                    )
                },
            },
            _ => finish_exec(),
        },
        WorkerState::MenuAwaitTarget { token, channel_id, target_id, fallback_url } => match event {
            WorkerEvent::TargetMessage(Err(err)) => report_exec(token, err.as_str()),
            WorkerEvent::TargetMessage(Ok(msg)) => {
                if bot_already_replied(&msg) {
                    let token2 = token.clone();
                    (
                        WorkerState::AwaitEdit { token, react: None },
                        WorkerAction::EditResponse {
                            token: token2,
                            content: String::from_str("This article has already been summarized."),
                        },
                    )
                } else {
                    let url = match extract_url(msg.content.as_str()) {
                        Some(u) => Some(u),
                        None => fallback_url,
                    };
                    match url {
                        None => report_exec(token, "No URL found in the target message"),
                        Some(u) => {
                            let u2 = u.clone();
                            (
                                WorkerState::ArticleAwaitPage {
                                    token,
                                    url: u,
                                    react: Some(
                                        ReactTarget { channel_id, message_id: target_id },
                                    ),
                                },
                                WorkerAction::FetchPage { url: u2 },
                            )
                        },
                    }
                }
            },
            _ => finish_exec(),
        },
        WorkerState::ArticleAwaitPage { token, url, react } => match event {
            WorkerEvent::Page(Err(err)) => report_exec(token, err.as_str()),
            WorkerEvent::Page(Ok(html)) => match article_text_from_html(html.as_str(), url.as_str()) {
                Err(err) => report_exec(token, err.as_str()),
                Ok(text) => (
                    WorkerState::ArticleAwaitSummary { token, react },
                    WorkerAction::Converse {
                        system_prompt: String::from_str(ARTICLE_SUMMARY_SYSTEM),
                        user_content: text,
                    },
                ),
            },
            _ => finish_exec(),
        },
        WorkerState::ArticleAwaitSummary { token, react } => match event {
            WorkerEvent::Reply(Err(err)) => report_exec(token, err.as_str()),
            WorkerEvent::Reply(Ok(reply)) => match reply_text(reply) {
                Err(err) => report_exec(token, err.as_str()),
                Ok(summary) => {
                    let content = truncate_to_discord_limit(summary.as_str());
                    let token2 = token.clone();
                    (
                        WorkerState::AwaitEdit { token, react },
                        WorkerAction::EditResponse { token: token2, content },
                    )
                },
            },
            _ => finish_exec(),
        },
        WorkerState::AwaitEdit { token, react } => match event {
            WorkerEvent::Completed(Err(err)) => report_exec(token, err.as_str()),
            WorkerEvent::Completed(Ok(())) => match react {
                None => finish_exec(),
                Some(t) => (
                    WorkerState::AwaitReaction { token },
                    WorkerAction::AddReaction {
                        channel_id: t.channel_id,
                        message_id: t.message_id,
                        emoji: String::from_str(SUMMARY_MARKER),
                    },
                ),
            },
            _ => finish_exec(),
        },
        WorkerState::AwaitReaction { token } => match event {
            WorkerEvent::Completed(Err(err)) => report_exec(token, err.as_str()),
            WorkerEvent::Completed(Ok(())) => finish_exec(),
            _ => finish_exec(),
        },
        WorkerState::ReportingError => finish_exec(),
        WorkerState::Finished => finish_exec(),
    }
}


/// The response token of a state still serving a command.
pub open spec fn state_token(s: WorkerStateView) -> Option<Seq<char>> {
    match s {
        WorkerStateView::ChatAwaitChannel { token, .. } => Some(token),
        WorkerStateView::ChatAwaitMessages { token, .. } => Some(token),
        WorkerStateView::ChatAwaitSummary { token, .. } => Some(token),
        WorkerStateView::MenuAwaitTarget { token, .. } => Some(token),
        WorkerStateView::ArticleAwaitPage { token, .. } => Some(token),
        WorkerStateView::ArticleAwaitSummary { token, .. } => Some(token),
        WorkerStateView::AwaitEdit { token, .. } => Some(token),
        WorkerStateView::AwaitReaction { token } => Some(token),
        WorkerStateView::ReportingError => None,
        WorkerStateView::Finished => None,
    }
}

/// The error carried by a failed request's outcome.
pub open spec fn event_failure(e: WorkerEventView) -> Option<Seq<char>> {
    match e {
        WorkerEventView::Channel(Err(x)) => Some(x),
        WorkerEventView::Messages { result: Err(x), .. } => Some(x),
        WorkerEventView::TargetMessage(Err(x)) => Some(x),
        WorkerEventView::Page(Err(x)) => Some(x),
        WorkerEventView::Reply(Err(x)) => Some(x),
        WorkerEventView::Completed(Err(x)) => Some(x),
        _ => None,
    }
}

/// A failed request never leaves the user waiting: while a command is being served,
/// any failure replaces the deferred response with `Something went wrong: <error>`.
pub proof fn law_failures_reported(s: WorkerStateView, e: WorkerEventView)
    requires
        accepts(s, e),
        state_token(s) is Some,
        event_failure(e) is Some,
    ensures
        worker_next(s, e) == report(state_token(s)->0, event_failure(e)->0),
{
}

/// The workflow can still put the marker reaction on a message.
pub open spec fn may_react(s: WorkerStateView) -> bool {
    match s {
        WorkerStateView::MenuAwaitTarget { .. } => true,
        WorkerStateView::ArticleAwaitPage { react, .. } => react is Some,
        WorkerStateView::ArticleAwaitSummary { react, .. } => react is Some,
        WorkerStateView::AwaitEdit { react, .. } => react is Some,
        _ => false,
    }
}

/// The marker reaction is added only right after the article summary was posted, and
/// on the message the summary was made from.
pub proof fn law_marker_after_summary_posted(s: WorkerStateView, e: WorkerEventView)
    requires
        accepts(s, e),
        worker_next(s, e).1 is AddReaction,
    ensures
        e matches WorkerEventView::Completed(Ok(_)),
        s matches WorkerStateView::AwaitEdit { react: Some(t), .. } && worker_next(s, e).1
            == (WorkerActionView::AddReaction {
            channel_id: t.channel_id,
            message_id: t.message_id,
            emoji: SUMMARY_MARKER@,
        }),
{
}

/// Once the workflow can no longer react, it never does.
pub proof fn law_no_reaction_once_ruled_out(s: WorkerStateView, e: WorkerEventView)
    requires
        accepts(s, e),
        !may_react(s),
    ensures
        !(worker_next(s, e).1 is AddReaction),
        !may_react(worker_next(s, e).0),
{
}

/// A message the bot has already summarized is not summarized again: the user is told
/// so, no page is fetched, and no second marker is added.
pub proof fn law_no_second_summary(
    token: Seq<char>,
    channel_id: Seq<char>,
    target_id: Seq<char>,
    fallback_url: Option<Seq<char>>,
    msg: DiscordMessage,
)
    requires
        already_summarized(msg),
    ensures
        ({
            let (next, action) = worker_next(
                WorkerStateView::MenuAwaitTarget { token, channel_id, target_id, fallback_url },
                WorkerEventView::TargetMessage(Ok(msg)),
            );
            &&& next == WorkerStateView::AwaitEdit { token, react: None }
            &&& action == WorkerActionView::EditResponse {
                token,
                content: already_summarized_reply(),
            }
            &&& !may_react(next)
        }),
{
}

/// Chat summaries and `/summary-article` never add the marker reaction: only the
/// context-menu command can.
pub proof fn law_only_context_menu_reacts(i: Interaction)
    requires
        command_named(invoked_name(i)) != Command::SummarizeArticleMenu,
    ensures
        !may_react(worker_begin_spec(i).0),
        !(worker_begin_spec(i).1 is AddReaction),
{
}

/// Every summary or notice the bot posts fits in a Discord message; only error
/// reports are posted as they are.
pub proof fn law_replies_fit(s: WorkerStateView, e: WorkerEventView)
    requires
        accepts(s, e),
        worker_next(s, e).1 is EditResponse,
        !(worker_next(s, e).0 is ReportingError),
    ensures
        utf8_len(worker_next(s, e).1->EditResponse_content) <= discord_limit(),
{
    match (s, e) {
        (
            WorkerStateView::ChatAwaitMessages { .. },
            WorkerEventView::Messages { result: Ok(ms), cutoff },
        ) => {
            reveal_strlit("No messages found to summarize...");
            crate::text::lemma_utf8_len_bound(nothing_to_summarize());
            crate::text::law_truncation_fits(nothing_to_summarize());
        },
        (
            WorkerStateView::ChatAwaitSummary { channel_name, .. },
            WorkerEventView::Reply(Ok(reply)),
        ) => {
            crate::text::law_truncation_fits(chat_summary_reply(channel_name, reply_text_spec(reply)->Ok_0));
        },
        (WorkerStateView::MenuAwaitTarget { .. }, WorkerEventView::TargetMessage(Ok(msg))) => {
            reveal_strlit("This article has already been summarized.");
            crate::text::lemma_utf8_len_bound(already_summarized_reply());
        },
        (WorkerStateView::ArticleAwaitSummary { .. }, WorkerEventView::Reply(Ok(reply))) => {
            crate::text::law_truncation_fits(reply_text_spec(reply)->Ok_0);
        },
        _ => {},
    }
}

/// The command still owes the user an answer: its deferred response has not been
/// edited yet.
pub open spec fn owes_answer(s: WorkerStateView) -> bool {
    match s {
        WorkerStateView::ChatAwaitChannel { .. } => true,
        WorkerStateView::ChatAwaitMessages { .. } => true,
        WorkerStateView::ChatAwaitSummary { .. } => true,
        WorkerStateView::MenuAwaitTarget { .. } => true,
        WorkerStateView::ArticleAwaitPage { .. } => true,
        WorkerStateView::ArticleAwaitSummary { .. } => true,
        _ => false,
    }
}

/// A known command never leaves the deferred "thinking..." response in place: it
/// starts either by answering or in a state that owes an answer.
pub proof fn law_known_commands_start_answering(i: Interaction)
    requires
        command_named(invoked_name(i)) != Command::Unknown,
    ensures
        owes_answer(worker_begin_spec(i).0) || worker_begin_spec(i).1 is EditResponse,
{
}

/// While an answer is owed, each step either edits the deferred response or still owes
/// the answer; with [`law_commands_terminate`], every run edits the response before it
/// finishes.
pub proof fn law_owed_answer_given(s: WorkerStateView, e: WorkerEventView)
    requires
        accepts(s, e),
        owes_answer(s),
    ensures
        worker_next(s, e).1 is EditResponse || owes_answer(worker_next(s, e).0),
        !(worker_next(s, e).1 is Finish),
{
}

/// How many requests a state can still make, at most.
pub open spec fn remaining_steps(s: WorkerStateView) -> nat {
    match s {
        WorkerStateView::ChatAwaitChannel { .. } => 7,
        WorkerStateView::ChatAwaitMessages { .. } => 6,
        WorkerStateView::ChatAwaitSummary { .. } => 5,
        WorkerStateView::MenuAwaitTarget { .. } => 7,
        WorkerStateView::ArticleAwaitPage { .. } => 6,
        WorkerStateView::ArticleAwaitSummary { .. } => 5,
        WorkerStateView::AwaitEdit { .. } => 4,
        WorkerStateView::AwaitReaction { .. } => 3,
        WorkerStateView::ReportingError => 1,
        WorkerStateView::Finished => 0,
    }
}

/// Every command ends: each step that is not at the end makes progress, so a command
/// makes at most seven requests; and the workflow says `Finish` exactly when it ends.
pub proof fn law_commands_terminate(s: WorkerStateView, e: WorkerEventView)
    requires
        accepts(s, e),
    ensures
        !(s is Finished) ==> remaining_steps(worker_next(s, e).0) < remaining_steps(s),
        s is Finished ==> worker_next(s, e) == finish(),
        (worker_next(s, e).1 is Finish) == (worker_next(s, e).0 is Finished),
{
}

/// The model is asked for a chat summary exactly when more than one message was sent
/// in the last 24 hours; otherwise the user is told there is nothing to summarize.
pub proof fn law_summary_needs_conversation(
    token: Seq<char>,
    channel_name: Seq<char>,
    task: Seq<char>,
    messages: Seq<DiscordMessage>,
    cutoff: i128,
)
    requires
        system_prompt_spec(task) is Ok,
    ensures
        ({
            let (next, action) = worker_next(
                WorkerStateView::ChatAwaitMessages { token, channel_name, task },
                WorkerEventView::Messages { result: Ok(messages), cutoff },
            );
            &&& (action is Converse) == (messages_since_spec(messages, cutoff).len() > 1)
            &&& !(action is Converse) ==> action == WorkerActionView::EditResponse {
                token,
                content: discord_truncated(nothing_to_summarize()),
            }
        }),
{
}

/// `/summary-24hr` and `/summary-peruser` ask the model with their own prompt (the
/// per-user one attributes points to users) and hand over the transcript of every
/// message of the last 24 hours in the channel the command was used in.
pub proof fn law_chat_command_prompt_and_transcript(
    i: Interaction,
    channel: DiscordChannel,
    messages: Seq<DiscordMessage>,
    cutoff: i128,
)
    requires
        i.channel_id is Some,
        i.data is Some,
        i.data->0.name is Some,
        i.data->0.name->0@ == "summary-24hr"@ || i.data->0.name->0@ == "summary-peruser"@,
        channel.name is Some,
        messages.filter(sent_at_or_after(cutoff)).len() > 1,
    ensures
        ({
            let begun = worker_begin_spec(i);
            let named = worker_next(begun.0, WorkerEventView::Channel(Ok(channel)));
            &&& begun.1 == WorkerActionView::FetchChannel { channel_id: i.channel_id->0@ }
            &&& named.1 == WorkerActionView::FetchMessages {
                channel_id: i.channel_id->0@,
                limit: 100,
            }
            &&& worker_next(named.0, WorkerEventView::Messages { result: Ok(messages), cutoff })
                == (
                WorkerStateView::ChatAwaitSummary {
                    token: i.token@,
                    channel_name: channel.name->0@,
                },
                WorkerActionView::Converse {
                    system_prompt: if i.data->0.name->0@ == "summary-peruser"@ {
                        PER_USER_SUMMARY_SYSTEM@
                    } else {
                        STANDARD_SUMMARY_SYSTEM@
                    },
                    user_content: joined_lines(
                        message_lines(messages.filter(sent_at_or_after(cutoff))),
                    ),
                },
            )
        }),
{
    reveal_strlit("summary-24hr");
    reveal_strlit("summary-peruser");
    reveal_strlit("summary-article");
    reveal_strlit("Summarize Article");
    reveal_strlit("STANDARD_SUMMARY");
    reveal_strlit("PER_USER_SUMMARY");
    assert("summary-24hr"@ != "summary-peruser"@) by {
        assert("summary-24hr"@[8] != "summary-peruser"@[8]);
    }
    assert(STANDARD_SUMMARY@ != PER_USER_SUMMARY@) by {
        assert(STANDARD_SUMMARY@[0] != PER_USER_SUMMARY@[0]);
    }
    law_messages_since_is_filter(messages, cutoff);
}

/// Once the page is read, the model is handed the article's readable text whole,
/// under the article prompt; when no text can be read, the user is told why.
pub proof fn law_article_text_sent_whole(
    token: Seq<char>,
    url: Seq<char>,
    react: Option<ReactTargetView>,
    html: Seq<char>,
)
    ensures
        ({
            let next = worker_next(
                WorkerStateView::ArticleAwaitPage { token, url, react },
                WorkerEventView::Page(Ok(html)),
            );
            match article_text_result(html, url) {
                Ok(text) => next == (
                    WorkerStateView::ArticleAwaitSummary { token, react },
                    WorkerActionView::Converse {
                        system_prompt: ARTICLE_SUMMARY_SYSTEM@,
                        user_content: text,
                    },
                ),
                Err(err) => next == (
                    WorkerStateView::ReportingError,
                    WorkerActionView::EditResponse {
                        token,
                        content: "Something went wrong: "@ + err,
                    },
                ),
            }
        }),
{
}

} // verus!
