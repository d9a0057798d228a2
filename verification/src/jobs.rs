//! The gateway bot's summary jobs as a state machine: fetch what the job needs, ask
//! the model, deliver the summary to where the job came from, and show failures to
//! users of commands. The caller performs each request and feeds its outcome back in.

use vstd::prelude::*;

use crate::article::{article_text_from_html, article_text_result};
use crate::bedrock::{
    reply_text, reply_text_spec, system_prompt_for, system_prompt_spec, ConverseReply,
    ARTICLE_SUMMARY_SYSTEM, PER_USER_SUMMARY_SYSTEM, STANDARD_SUMMARY_SYSTEM,
};
use crate::commands::{PER_USER_SUMMARY, STANDARD_SUMMARY};
use crate::bot::{
    article_delivery, article_delivery_spec, chat_delivery, chat_delivery_spec, entry_of,
    error_notice, error_notice_spec, today_entries, ArticleStep, ChatDelivery, TargetKind,
};
use crate::chat::{
    law_messages_since_is_filter, sent_at_or_after, chat_summary_reply, chat_summary_text, entry_lines, joined_lines, message_lines,
    messages_since_spec, no_messages_text, nothing_to_summarize, string_format_today_messages,
};
use crate::discord::DiscordMessage;
use crate::text::{discord_truncated, truncate_to_discord_limit};

verus! {

/// Where a job stands.
#[derive(Debug, PartialEq, Eq)]
pub enum JobState {
    /// Chat summary: waiting for the channel.
    ChatAwaitChannel { target: TargetKind, has_user: bool, task: String },
    /// Chat summary: waiting for the channel's recent messages.
    ChatAwaitHistory { target: TargetKind, has_user: bool, task: String, channel_name: String },
    /// Chat summary: waiting for the model's summary.
    ChatAwaitSummary { target: TargetKind, has_user: bool, channel_name: String },
    /// Chat summary: waiting for the delivery.
    ChatDelivering { target: TargetKind },
    /// Article summary: waiting for the page.
    ArticleAwaitPage { target: TargetKind, has_source: bool, url: String },
    /// Article summary: waiting for the model's summary.
    ArticleAwaitSummary { target: TargetKind, has_source: bool },
    /// Article summary: waiting for a delivery step; `steps` are the ones still to do.
    ArticleDelivering { target: TargetKind, text: String, steps: Vec<ArticleStep> },
    /// A failure is being reported.
    Failing,
    /// Nothing left to do.
    Done,
}

/// A request the caller performs for a job.
#[derive(Debug, PartialEq, Eq)]
pub enum JobAction {
    /// Fetch the job's channel.
    FetchChannel,
    /// Fetch the channel's 100 most recent messages, newest first.
    FetchHistory,
    /// Fetch a web page's HTML.
    FetchPage { url: String },
    /// Ask the model: a system prompt and the user's content.
    Converse { system_prompt: String, user_content: String },
    /// Send a direct message to the user who reacted.
    SendDirectMessage { text: String },
    /// Replace the command's deferred response.
    EditResponse { text: String },
    /// Reply to the message the summary is about.
    ReplyToMessage { text: String },
    /// Add the marker reaction to the message the summary is about.
    AddMarker,
    /// The job failed: log the error, and send the notice to the command's user when
    /// there is one.
    Fail { error: String, notice: Option<String> },
    /// The job is done.
    Finish,
}

/// How the channel lookup went.
pub enum ChannelLookup {
    /// A guild channel with this name.
    Guild(String),
    /// A channel of another kind.
    NotGuild,
    /// The channel could not be fetched.
    Failed,
}

/// The outcome of the last request.
pub enum JobEvent {
    /// Outcome of [`JobAction::FetchChannel`].
    Channel(ChannelLookup),
    /// Outcome of [`JobAction::FetchHistory`]: the messages (none when fetching
    /// failed), with the instant 24 hours before they arrived.
    History { messages: Vec<DiscordMessage>, cutoff: i128 },
    /// Outcome of [`JobAction::FetchPage`].
    Page(Result<String, String>),
    /// Outcome of [`JobAction::Converse`].
    Reply(Result<ConverseReply, String>),
    /// Outcome of a delivery, or of sending a failure notice.
    Completed(Result<(), String>),
}

/// [`JobState`] as character sequences.
pub enum JobStateView {
    ChatAwaitChannel { target: TargetKind, has_user: bool, task: Seq<char> },
    ChatAwaitHistory { target: TargetKind, has_user: bool, task: Seq<char>, channel_name: Seq<char> },
    ChatAwaitSummary { target: TargetKind, has_user: bool, channel_name: Seq<char> },
    ChatDelivering { target: TargetKind },
    ArticleAwaitPage { target: TargetKind, has_source: bool, url: Seq<char> },
    ArticleAwaitSummary { target: TargetKind, has_source: bool },
    ArticleDelivering { target: TargetKind, text: Seq<char>, steps: Seq<ArticleStep> },
    Failing,
    Done,
}

/// [`JobAction`] as character sequences.
pub enum JobActionView {
    FetchChannel,
    FetchHistory,
    FetchPage { url: Seq<char> },
    Converse { system_prompt: Seq<char>, user_content: Seq<char> },
    SendDirectMessage { text: Seq<char> },
    EditResponse { text: Seq<char> },
    ReplyToMessage { text: Seq<char> },
    AddMarker,
    Fail { error: Seq<char>, notice: Option<Seq<char>> },
    Finish,
}

/// [`ChannelLookup`] as character sequences.
pub enum ChannelLookupView {
    Guild(Seq<char>),
    NotGuild,
    Failed,
}

/// [`JobEvent`] with its strings as character sequences.
pub enum JobEventView {
    Channel(ChannelLookupView),
    History { messages: Seq<DiscordMessage>, cutoff: i128 },
    Page(Result<Seq<char>, Seq<char>>),
    Reply(Result<ConverseReply, Seq<char>>),
    Completed(Result<(), Seq<char>>),
}

impl View for JobState {
    type V = JobStateView;

    open spec fn view(&self) -> JobStateView {
        match self {
            JobState::ChatAwaitChannel { target, has_user, task } => JobStateView::ChatAwaitChannel {
                target: *target,
                has_user: *has_user,
                task: task@,
            },
            JobState::ChatAwaitHistory { target, has_user, task, channel_name } => {
                JobStateView::ChatAwaitHistory {
                    target: *target,
                    has_user: *has_user,
                    task: task@,
                    channel_name: channel_name@,
                }
            },
            JobState::ChatAwaitSummary { target, has_user, channel_name } => {
                JobStateView::ChatAwaitSummary {
                    target: *target,
                    has_user: *has_user,
                    channel_name: channel_name@,
                }
            },
            JobState::ChatDelivering { target } => JobStateView::ChatDelivering { target: *target },
            JobState::ArticleAwaitPage { target, has_source, url } => JobStateView::ArticleAwaitPage {
                target: *target,
                has_source: *has_source,
                url: url@,
            },
            JobState::ArticleAwaitSummary { target, has_source } => {
                JobStateView::ArticleAwaitSummary { target: *target, has_source: *has_source }
            },
            JobState::ArticleDelivering { target, text, steps } => {
                JobStateView::ArticleDelivering { target: *target, text: text@, steps: steps@ }
            },
            JobState::Failing => JobStateView::Failing,
            JobState::Done => JobStateView::Done,
        }
    }
}

impl View for JobAction {
    type V = JobActionView;

    open spec fn view(&self) -> JobActionView {
        match self {
            JobAction::FetchChannel => JobActionView::FetchChannel,
            JobAction::FetchHistory => JobActionView::FetchHistory,
            JobAction::FetchPage { url } => JobActionView::FetchPage { url: url@ },
            JobAction::Converse { system_prompt, user_content } => JobActionView::Converse {
                system_prompt: system_prompt@,
                user_content: user_content@,
            },
            JobAction::SendDirectMessage { text } => JobActionView::SendDirectMessage { text: text@ },
            JobAction::EditResponse { text } => JobActionView::EditResponse { text: text@ },
            JobAction::ReplyToMessage { text } => JobActionView::ReplyToMessage { text: text@ },
            JobAction::AddMarker => JobActionView::AddMarker,
            JobAction::Fail { error, notice } => JobActionView::Fail {
                error: error@,
                notice: match notice {
                    Some(n) => Some(n@),
                    None => None,
                },
            },
            JobAction::Finish => JobActionView::Finish,
        }
    }
}

impl View for JobEvent {
    type V = JobEventView;

    open spec fn view(&self) -> JobEventView {
        match self {
            JobEvent::Channel(l) => JobEventView::Channel(
                match l {
                    ChannelLookup::Guild(n) => ChannelLookupView::Guild(n@),
                    ChannelLookup::NotGuild => ChannelLookupView::NotGuild,
                    ChannelLookup::Failed => ChannelLookupView::Failed,
                },
            ),
            JobEvent::History { messages, cutoff } => JobEventView::History {
                messages: messages@,
                cutoff: *cutoff,
            },
            JobEvent::Page(r) => JobEventView::Page(
                match r {
                    Ok(h) => Ok(h@),
                    Err(e) => Err(e@),
                },
            ),
            JobEvent::Reply(r) => JobEventView::Reply(
                match r {
                    Ok(c) => Ok(*c),
                    Err(e) => Err(e@),
                },
            ),
            JobEvent::Completed(r) => JobEventView::Completed(
                match r {
                    Ok(_) => Ok(()),
                    Err(e) => Err(e@),
                },
            ),
        }
    }
}

/// The job failed with `error`: it is logged, and commands show the notice.
pub open spec fn job_fail(target: TargetKind, error: Seq<char>) -> (JobStateView, JobActionView) {
    (
        JobStateView::Failing,
        JobActionView::Fail { error, notice: error_notice_spec(target, error) },
    )
}

/// The job is done.
pub open spec fn job_done() -> (JobStateView, JobActionView) {
    (JobStateView::Done, JobActionView::Finish)
}

/// How a chat summary (or the notice that there is none) is delivered.
pub open spec fn deliver_chat(target: TargetKind, has_user: bool, text: Seq<char>) -> (
    JobStateView,
    JobActionView,
) {
    match chat_delivery_spec(target, has_user) {
        Err(e) => job_fail(target, e),
        Ok(ChatDelivery::DirectMessage) => (
            JobStateView::ChatDelivering { target },
            JobActionView::SendDirectMessage { text },
        ),
        Ok(ChatDelivery::EditResponse) => (
            JobStateView::ChatDelivering { target },
            JobActionView::EditResponse { text },
        ),
    }
}

/// The request that carries out one delivery step of an article summary.
pub open spec fn step_action(step: ArticleStep, text: Seq<char>) -> JobActionView {
    match step {
        ArticleStep::ReplyToMessage => JobActionView::ReplyToMessage { text },
        ArticleStep::EditResponse => JobActionView::EditResponse { text },
        ArticleStep::AddMarker => JobActionView::AddMarker,
    }
}

/// Carry out the remaining delivery steps of an article summary, one at a time.
pub open spec fn continue_delivery(target: TargetKind, text: Seq<char>, steps: Seq<ArticleStep>) -> (
    JobStateView,
    JobActionView,
) {
    if steps.len() == 0 {
        job_done()
    } else {
        (
            JobStateView::ArticleDelivering { target, text, steps: steps.drop_first() },
            step_action(steps[0], text),
        )
    }
}

/// The delivery of an article summary.
pub open spec fn deliver_article(target: TargetKind, has_source: bool, text: Seq<char>) -> (
    JobStateView,
    JobActionView,
) {
    match article_delivery_spec(target, has_source) {
        Err(e) => job_fail(target, e),
        Ok(steps) => continue_delivery(target, text, steps),
    }
}

/// The day's transcript handed to the model.
pub open spec fn day_transcript(messages: Seq<DiscordMessage>, cutoff: i128) -> Seq<char> {
    joined_lines(message_lines(messages_since_spec(messages, cutoff)))
}

/// The next state and request of a job, given the outcome of the last request.
pub open spec fn job_next(s: JobStateView, e: JobEventView) -> (JobStateView, JobActionView) {
    match (s, e) {
        (JobStateView::ChatAwaitChannel { target, has_user, task }, JobEventView::Channel(l)) => match l {
            ChannelLookupView::Guild(name) => (
                JobStateView::ChatAwaitHistory { target, has_user, task, channel_name: name },
                JobActionView::FetchHistory,
            ),
            ChannelLookupView::NotGuild => job_fail(target, "Not a guild channel."@),
            ChannelLookupView::Failed => job_fail(target, "Failed to fetch channel."@),
        },
        (
            JobStateView::ChatAwaitHistory { target, has_user, task, channel_name },
            JobEventView::History { messages, cutoff },
        ) => if messages_since_spec(messages, cutoff).len() > 1 {
            match system_prompt_spec(task) {
                Err(err) => job_fail(target, err),
                Ok(prompt) => (
                    JobStateView::ChatAwaitSummary { target, has_user, channel_name },
                    JobActionView::Converse {
                        system_prompt: prompt,
                        user_content: day_transcript(messages, cutoff),
                    },
                ),
            }
        } else {
            deliver_chat(target, has_user, nothing_to_summarize())
        },
        (
            JobStateView::ChatAwaitSummary { target, has_user, channel_name },
            JobEventView::Reply(r),
        ) => match r {
            Err(err) => job_fail(target, err),
            Ok(reply) => match reply_text_spec(reply) {
                Err(err) => job_fail(target, err),
                Ok(summary) => deliver_chat(
                    target,
                    has_user,
                    chat_summary_reply(channel_name, summary),
                ),
            },
        },
        (JobStateView::ChatDelivering { target }, JobEventView::Completed(r)) => match r {
            Err(err) => job_fail(target, err),
            Ok(_) => job_done(),
        },
        (JobStateView::ArticleAwaitPage { target, has_source, url }, JobEventView::Page(r)) => match r {
            Err(err) => job_fail(target, err),
            Ok(html) => match article_text_result(html, url) {
                Err(err) => job_fail(target, err),
                Ok(text) => (
                    JobStateView::ArticleAwaitSummary { target, has_source },
                    JobActionView::Converse {
                        system_prompt: ARTICLE_SUMMARY_SYSTEM@,
                        user_content: text,
                    },
                ),
            },
        },
        (JobStateView::ArticleAwaitSummary { target, has_source }, JobEventView::Reply(r)) => match r {
            Err(err) => job_fail(target, err),
            Ok(reply) => match reply_text_spec(reply) {
                Err(err) => job_fail(target, err),
                Ok(summary) => deliver_article(target, has_source, discord_truncated(summary)),
            },
        },
        (JobStateView::ArticleDelivering { target, text, steps }, JobEventView::Completed(r)) => match r {
            Err(err) => job_fail(target, err),
            Ok(_) => continue_delivery(target, text, steps),
        },
        _ => job_done(),
    }
}

/// The first state and request of a chat-summary job.
pub fn chat_job(target: TargetKind, has_user: bool, task: &str) -> (r: (JobState, JobAction))
    ensures
        r.0@ == (JobStateView::ChatAwaitChannel { target, has_user, task: task@ }),
        r.1@ == JobActionView::FetchChannel,
{
    (
        JobState::ChatAwaitChannel { target, has_user, task: String::from_str(task) },
        JobAction::FetchChannel,
    )
}

/// The first state and request of an article-summary job.
pub fn article_job(target: TargetKind, has_source: bool, url: &str) -> (r: (JobState, JobAction))
    ensures
        r.0@ == (JobStateView::ArticleAwaitPage { target, has_source, url: url@ }),
        r.1@ == (JobActionView::FetchPage { url: url@ }),
{
    (
        JobState::ArticleAwaitPage { target, has_source, url: String::from_str(url) },
        JobAction::FetchPage { url: String::from_str(url) },
    )
}

fn fail_exec(target: TargetKind, error: &str) -> (r: (JobState, JobAction))
    ensures
        (r.0@, r.1@) == job_fail(target, error@),
{
    let notice = error_notice(target, error);
    (JobState::Failing, JobAction::Fail { error: String::from_str(error), notice })
}

fn done_exec() -> (r: (JobState, JobAction))
    ensures
        (r.0@, r.1@) == job_done(),
{
    (JobState::Done, JobAction::Finish)
}

fn deliver_chat_exec(target: TargetKind, has_user: bool, text: String) -> (r: (JobState, JobAction))
    ensures
        (r.0@, r.1@) == deliver_chat(target, has_user, text@),
{
    match chat_delivery(target, has_user) {
        Err(e) => fail_exec(target, e.as_str()),
        Ok(ChatDelivery::DirectMessage) => (
            JobState::ChatDelivering { target },
            JobAction::SendDirectMessage { text },
        ),
        Ok(ChatDelivery::EditResponse) => (
            JobState::ChatDelivering { target },
            JobAction::EditResponse { text },
        ),
    }
}

fn continue_delivery_exec(target: TargetKind, text: String, steps: Vec<ArticleStep>) -> (r: (
    JobState,
    JobAction,
))
    ensures
        (r.0@, r.1@) == continue_delivery(target, text@, steps@),
{
    let mut steps = steps;
    if steps.len() == 0 {
        done_exec()
    } else {
        let ghost before = steps@;
        let first = steps.remove(0);
        assert(steps@ =~= before.drop_first());
        let action = match first {
            ArticleStep::ReplyToMessage => JobAction::ReplyToMessage { text: text.clone() },
            ArticleStep::EditResponse => JobAction::EditResponse { text: text.clone() },
            ArticleStep::AddMarker => JobAction::AddMarker,
        };
        (JobState::ArticleDelivering { target, text, steps }, action)
    }
}

fn deliver_article_exec(target: TargetKind, has_source: bool, text: String) -> (r: (
    JobState,
    JobAction,
))
    ensures
        (r.0@, r.1@) == deliver_article(target, has_source, text@),
{
    match article_delivery(target, has_source) {
        Err(e) => fail_exec(target, e.as_str()),
        Ok(steps) => continue_delivery_exec(target, text, steps),
    }
}

/// The transcript built from a day's chat entries is the transcript of the messages
/// they were taken from: both list the same lines, oldest first.
pub proof fn law_transcripts_agree(entries: Seq<crate::chat::ChatEntry>, today: Seq<DiscordMessage>)
    requires
        entries.len() == today.len(),
        forall|k: int|
            0 <= k < entries.len() ==> (#[trigger] entries[k].author@, entries[k].content@)
                == entry_of(today[k]),
    ensures
        entry_lines(entries) == message_lines(today),
{
    assert forall|k: int| 0 <= k < entries.len() implies #[trigger] entry_lines(entries)[k]
        == message_lines(today)[k] by {
        let j = entries.len() - 1 - k;
        assert((entries[j].author@, entries[j].content@) == entry_of(today[j]));
    }
    assert(entry_lines(entries) =~= message_lines(today));
}

/// One step of a job: the next state and the next request. An event that is not the
/// outcome the state waits for ends the job.
pub fn job_step(state: JobState, event: JobEvent) -> (r: (JobState, JobAction))
    ensures
        (r.0@, r.1@) == job_next(state@, event@),
{
    match state {
        JobState::ChatAwaitChannel { target, has_user, task } => match event {
            JobEvent::Channel(ChannelLookup::Guild(name)) => (
                JobState::ChatAwaitHistory { target, has_user, task, channel_name: name },
                JobAction::FetchHistory,
            ),
            JobEvent::Channel(ChannelLookup::NotGuild) => fail_exec(target, "Not a guild channel."),
            JobEvent::Channel(ChannelLookup::Failed) => fail_exec(target, "Failed to fetch channel."),
            _ => done_exec(),
        },
        JobState::ChatAwaitHistory { target, has_user, task, channel_name } => match event {
            JobEvent::History { messages, cutoff } => {
                let ghost today = messages_since_spec(messages@, cutoff);
                let entries = today_entries(messages, cutoff);
                if entries.len() > 1 {
                    match system_prompt_for(task.as_str()) {
                        Err(err) => fail_exec(target, err.as_str()),
                        Ok(prompt) => {
                            let transcript = string_format_today_messages(&entries);
                            proof {
                                law_transcripts_agree(entries@, today);
                            }
                            (
                                JobState::ChatAwaitSummary { target, has_user, channel_name },
                                JobAction::Converse {
                                    system_prompt: String::from_str(prompt),
                                    user_content: transcript,
                                },
                            )
                        },
                    }
                } else {
                    deliver_chat_exec(target, has_user, no_messages_text())
                }
            },
            _ => done_exec(),
        },
        JobState::ChatAwaitSummary { target, has_user, channel_name } => match event {
            JobEvent::Reply(Err(err)) => fail_exec(target, err.as_str()),
            JobEvent::Reply(Ok(reply)) => match reply_text(reply) {
                Err(err) => fail_exec(target, err.as_str()),
                Ok(summary) => deliver_chat_exec(
                    target,
                    has_user,
                    chat_summary_text(channel_name.as_str(), summary.as_str()),
                ),
            },
            _ => done_exec(),
        },
        JobState::ChatDelivering { target } => match event {
            JobEvent::Completed(Err(err)) => fail_exec(target, err.as_str()),
            JobEvent::Completed(Ok(())) => done_exec(),
            _ => done_exec(),
        },
        JobState::ArticleAwaitPage { target, has_source, url } => match event {
            JobEvent::Page(Err(err)) => fail_exec(target, err.as_str()),
            JobEvent::Page(Ok(html)) => match article_text_from_html(html.as_str(), url.as_str()) {
                Err(err) => fail_exec(target, err.as_str()),
                Ok(text) => (
                    JobState::ArticleAwaitSummary { target, has_source },
                    JobAction::Converse {
                        system_prompt: String::from_str(ARTICLE_SUMMARY_SYSTEM),
                        user_content: text,
                    },
                ),
            },
            _ => done_exec(),
        },
        JobState::ArticleAwaitSummary { target, has_source } => match event {
            JobEvent::Reply(Err(err)) => fail_exec(target, err.as_str()),
            JobEvent::Reply(Ok(reply)) => match reply_text(reply) {
                Err(err) => fail_exec(target, err.as_str()),
                Ok(summary) => deliver_article_exec(
                    target,
                    has_source,
                    truncate_to_discord_limit(summary.as_str()),
                ),
            },
            _ => done_exec(),
        },
        JobState::ArticleDelivering { target, text, steps } => match event {
            JobEvent::Completed(Err(err)) => fail_exec(target, err.as_str()),
            JobEvent::Completed(Ok(())) => continue_delivery_exec(target, text, steps),
            _ => done_exec(),
        },
        JobState::Failing => done_exec(),
        JobState::Done => done_exec(),
    }
}

/// The event is the outcome of the request the state waits for.
pub open spec fn job_accepts(s: JobStateView, e: JobEventView) -> bool {
    match s {
        JobStateView::ChatAwaitChannel { .. } => e is Channel,
        JobStateView::ChatAwaitHistory { .. } => e is History,
        JobStateView::ChatAwaitSummary { .. } => e is Reply,
        JobStateView::ChatDelivering { .. } => e is Completed,
        JobStateView::ArticleAwaitPage { .. } => e is Page,
        JobStateView::ArticleAwaitSummary { .. } => e is Reply,
        JobStateView::ArticleDelivering { .. } => e is Completed,
        JobStateView::Failing => e is Completed,
        JobStateView::Done => true,
    }
}

/// Where the answer of a job that is still running goes.
pub open spec fn job_target(s: JobStateView) -> Option<TargetKind> {
    match s {
        JobStateView::ChatAwaitChannel { target, .. } => Some(target),
        JobStateView::ChatAwaitHistory { target, .. } => Some(target),
        JobStateView::ChatAwaitSummary { target, .. } => Some(target),
        JobStateView::ChatDelivering { target } => Some(target),
        JobStateView::ArticleAwaitPage { target, .. } => Some(target),
        JobStateView::ArticleAwaitSummary { target, .. } => Some(target),
        JobStateView::ArticleDelivering { target, .. } => Some(target),
        _ => None,
    }
}

/// The error carried by a failed request's outcome.
pub open spec fn job_event_failure(e: JobEventView) -> Option<Seq<char>> {
    match e {
        JobEventView::Channel(ChannelLookupView::NotGuild) => Some("Not a guild channel."@),
        JobEventView::Channel(ChannelLookupView::Failed) => Some("Failed to fetch channel."@),
        JobEventView::Page(Err(x)) => Some(x),
        JobEventView::Reply(Err(x)) => Some(x),
        JobEventView::Completed(Err(x)) => Some(x),
        _ => None,
    }
}

/// A failed request ends the job: the error is logged, and users of commands are shown
/// `Something went wrong: <error>`; reactions get no notice.
pub proof fn law_job_failures_reported(s: JobStateView, e: JobEventView)
    requires
        job_accepts(s, e),
        job_target(s) is Some,
        job_event_failure(e) is Some,
    ensures
        job_next(s, e) == job_fail(job_target(s)->0, job_event_failure(e)->0),
        (job_next(s, e).1->Fail_notice is Some) == (job_target(s)->0 is EphemeralInteraction
            || job_target(s)->0 is VisibleInteraction),
{
}

/// The marker reaction is added only after the summary itself was delivered.
pub proof fn law_job_marker_after_delivery(s: JobStateView, e: JobEventView)
    requires
        job_accepts(s, e),
        job_next(s, e).1 is AddMarker,
    ensures
        s is ArticleDelivering,
        e matches JobEventView::Completed(Ok(_)),
{
    match (s, e) {
        (JobStateView::ArticleAwaitSummary { target, has_source }, JobEventView::Reply(Ok(reply))) => {
            assert(!(article_delivery_spec(target, has_source) matches Ok(steps) && steps.len() > 0
                && steps[0] == ArticleStep::AddMarker));
        },
        _ => {},
    }
}

/// How many requests a job can still make, at most.
pub open spec fn job_remaining_steps(s: JobStateView) -> nat {
    match s {
        JobStateView::ChatAwaitChannel { .. } => 6,
        JobStateView::ChatAwaitHistory { .. } => 5,
        JobStateView::ChatAwaitSummary { .. } => 4,
        JobStateView::ChatDelivering { .. } => 2,
        JobStateView::ArticleAwaitPage { .. } => 7,
        JobStateView::ArticleAwaitSummary { .. } => 6,
        JobStateView::ArticleDelivering { steps, .. } => 2 + steps.len(),
        JobStateView::Failing => 1,
        JobStateView::Done => 0,
    }
}

/// Every job ends: each step that is not at the end makes progress, and the job says
/// `Finish` exactly when it is done.
pub proof fn law_jobs_terminate(s: JobStateView, e: JobEventView)
    requires
        job_accepts(s, e),
    ensures
        !(s is Done) ==> job_remaining_steps(job_next(s, e).0) < job_remaining_steps(s),
        (job_next(s, e).1 is Finish) == (job_next(s, e).0 is Done),
{
}

/// A chat job asks the model only when more than one message was sent in the last 24
/// hours; otherwise it delivers the notice that there is nothing to summarize.
pub proof fn law_job_summary_needs_conversation(
    target: TargetKind,
    has_user: bool,
    task: Seq<char>,
    channel_name: Seq<char>,
    messages: Seq<DiscordMessage>,
    cutoff: i128,
)
    requires
        system_prompt_spec(task) is Ok,
    ensures
        ({
            let next = job_next(
                JobStateView::ChatAwaitHistory { target, has_user, task, channel_name },
                JobEventView::History { messages, cutoff },
            );
            &&& (next.1 is Converse) == (messages_since_spec(messages, cutoff).len() > 1)
            &&& !(next.1 is Converse) ==> next == deliver_chat(
                target,
                has_user,
                nothing_to_summarize(),
            )
        }),
{
}

/// A chat job asks the model with the prompt of its own task: the per-user prompt for
/// the per-user summary, the plain prompt for the plain one. It hands over the
/// transcript of every message of the last 24 hours, whatever channel it reads.
pub proof fn law_job_chat_prompt_follows_task(
    target: TargetKind,
    has_user: bool,
    task: Seq<char>,
    channel_name: Seq<char>,
    messages: Seq<DiscordMessage>,
    cutoff: i128,
)
    requires
        task == STANDARD_SUMMARY@ || task == PER_USER_SUMMARY@,
        messages.filter(sent_at_or_after(cutoff)).len() > 1,
    ensures
        ({
            let found = job_next(
                JobStateView::ChatAwaitChannel { target, has_user, task },
                JobEventView::Channel(ChannelLookupView::Guild(channel_name)),
            );
            job_next(found.0, JobEventView::History { messages, cutoff }) == (
                JobStateView::ChatAwaitSummary { target, has_user, channel_name },
                JobActionView::Converse {
                    system_prompt: if task == PER_USER_SUMMARY@ {
                        PER_USER_SUMMARY_SYSTEM@
                    } else {
                        STANDARD_SUMMARY_SYSTEM@
                    },
                    user_content: joined_lines(
                        message_lines(messages.filter(sent_at_or_after(cutoff))),
                    ),
                },
            )
        }),
{
    reveal_strlit("STANDARD_SUMMARY");
    reveal_strlit("PER_USER_SUMMARY");
    assert(STANDARD_SUMMARY@ != PER_USER_SUMMARY@) by {
        assert(STANDARD_SUMMARY@[0] != PER_USER_SUMMARY@[0]);
    }
    law_messages_since_is_filter(messages, cutoff);
    assert(messages_since_spec(messages, cutoff).len() > 1);
    assert(day_transcript(messages, cutoff) == joined_lines(
        message_lines(messages.filter(sent_at_or_after(cutoff))),
    ));
}

/// An article job hands the model the page's readable text whole, under the article
/// prompt; when no text can be read, the job fails with the reason.
pub proof fn law_job_article_text_sent_whole(
    target: TargetKind,
    has_source: bool,
    url: Seq<char>,
    html: Seq<char>,
)
    ensures
        ({
            let next = job_next(
                JobStateView::ArticleAwaitPage { target, has_source, url },
                JobEventView::Page(Ok(html)),
            );
            match article_text_result(html, url) {
                Ok(text) => next == (
                    JobStateView::ArticleAwaitSummary { target, has_source },
                    JobActionView::Converse {
                        system_prompt: ARTICLE_SUMMARY_SYSTEM@,
                        user_content: text,
                    },
                ),
                Err(err) => next == (
                    JobStateView::Failing,
                    JobActionView::Fail { error: err, notice: error_notice_spec(target, err) },
                ),
            }
        }),
{
}

} // verus!
