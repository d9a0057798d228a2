use albert::bedrock::{ConverseReply, ReplyBlock, ReplyOutput, ARTICLE_SUMMARY_SYSTEM, STANDARD_SUMMARY_SYSTEM};
use albert::bot::TargetKind;
use albert::discord::{DiscordAuthor, DiscordMessage};
use albert::jobs::{article_job, chat_job, job_step, ChannelLookup, JobAction, JobEvent, JobState};

const JAN1: i128 = 1_704_067_200_000_000_000;

fn msg(author: &str, content: &str, ts: &str) -> DiscordMessage {
    DiscordMessage {
        id: "m".to_string(),
        author: DiscordAuthor { username: author.to_string(), bot: false },
        content: content.to_string(),
        timestamp: ts.to_string(),
        reactions: vec![],
    }
}

fn reply(text: &str) -> ConverseReply {
    ConverseReply { output: Some(ReplyOutput::Message(vec![ReplyBlock::Text(text.to_string())])) }
}

fn step(s: JobState, e: JobEvent) -> (JobState, JobAction) {
    job_step(s, e)
}

const HTML: &str = "<html><body><article><p>The council approved the new park budget on Tuesday, after a long debate about maintenance costs and the future of the old library building downtown.</p></article></body></html>";

#[test]
fn reaction_chat_job_sends_direct_message() {
    let (s, a) = chat_job(TargetKind::ReactionDm, true, "STANDARD_SUMMARY");
    assert_eq!(a, JobAction::FetchChannel);
    let (s, a) = step(s, JobEvent::Channel(ChannelLookup::Guild("general".to_string())));
    assert_eq!(a, JobAction::FetchHistory);
    let ms = vec![msg("b", "2", "2024-01-01T10:00:00Z"), msg("a", "1", "2024-01-01T09:00:00Z")];
    let (s, a) = step(s, JobEvent::History { messages: ms, cutoff: JAN1 });
    assert_eq!(
        a,
        JobAction::Converse {
            system_prompt: STANDARD_SUMMARY_SYSTEM.to_string(),
            user_content: "Author: **a**; Content: 1\nAuthor: **b**; Content: 2".to_string()
        }
    );
    let (s, a) = step(s, JobEvent::Reply(Ok(reply("Sum"))));
    assert_eq!(a, JobAction::SendDirectMessage { text: "**Channel: **general\nSum".to_string() });
    let (s, a) = step(s, JobEvent::Completed(Ok(())));
    assert_eq!((s, a), (JobState::Done, JobAction::Finish));
}

#[test]
fn quiet_channel_gets_notice() {
    let (s, _) = chat_job(TargetKind::EphemeralInteraction, false, "PER_USER_SUMMARY");
    let (s, _) = step(s, JobEvent::Channel(ChannelLookup::Guild("g".to_string())));
    let (_, a) = step(s, JobEvent::History { messages: vec![msg("a", "1", "2024-01-01T09:00:00Z")], cutoff: JAN1 });
    assert_eq!(a, JobAction::EditResponse { text: "No messages found to summarize...".to_string() });
}

#[test]
fn job_failures_notify_only_commands() {
    let (s, _) = chat_job(TargetKind::EphemeralInteraction, false, "STANDARD_SUMMARY");
    let (s, a) = step(s, JobEvent::Channel(ChannelLookup::NotGuild));
    assert_eq!(
        a,
        JobAction::Fail {
            error: "Not a guild channel.".to_string(),
            notice: Some("Something went wrong: Not a guild channel.".to_string())
        }
    );
    let (s, a) = step(s, JobEvent::Completed(Err("x".to_string())));
    assert_eq!((s, a), (JobState::Done, JobAction::Finish));
    let (s, _) = chat_job(TargetKind::ReactionDm, false, "STANDARD_SUMMARY");
    let (_, a) = step(s, JobEvent::Channel(ChannelLookup::Failed));
    assert_eq!(a, JobAction::Fail { error: "Failed to fetch channel.".to_string(), notice: None });
}

#[test]
fn direct_message_needs_user() {
    let (s, _) = chat_job(TargetKind::ReactionDm, false, "STANDARD_SUMMARY");
    let (s, _) = step(s, JobEvent::Channel(ChannelLookup::Guild("g".to_string())));
    let (_, a) = step(s, JobEvent::History { messages: vec![], cutoff: JAN1 });
    assert_eq!(a, JobAction::Fail { error: "No user_id on reaction".to_string(), notice: None });
}

#[test]
fn reaction_article_job_replies_then_marks() {
    let (s, a) = article_job(TargetKind::ReactionReply, true, "https://news.example.com/x");
    assert_eq!(a, JobAction::FetchPage { url: "https://news.example.com/x".to_string() });
    let (s, a) = step(s, JobEvent::Page(Ok(HTML.to_string())));
    match &a {
        JobAction::Converse { system_prompt, user_content } => {
            assert_eq!(system_prompt, ARTICLE_SUMMARY_SYSTEM);
            assert!(user_content.contains("park budget"));
        }
        other => panic!("unexpected {:?}", other),
    }
    let (s, a) = step(s, JobEvent::Reply(Ok(reply("- point"))));
    assert_eq!(a, JobAction::ReplyToMessage { text: "- point".to_string() });
    let (s, a) = step(s, JobEvent::Completed(Ok(())));
    assert_eq!(a, JobAction::AddMarker);
    let (s, a) = step(s, JobEvent::Completed(Ok(())));
    assert_eq!((s, a), (JobState::Done, JobAction::Finish));
}

#[test]
fn slash_article_job_never_marks() {
    let (s, _) = article_job(TargetKind::EphemeralInteraction, false, "https://news.example.com/x");
    let (s, _) = step(s, JobEvent::Page(Ok(HTML.to_string())));
    let long = "w".repeat(2500);
    let (s, a) = step(s, JobEvent::Reply(Ok(reply(&long))));
    assert_eq!(a, JobAction::EditResponse { text: format!("{}...", "w".repeat(1997)) });
    let (_, a) = step(s, JobEvent::Completed(Ok(())));
    assert_eq!(a, JobAction::Finish);
}

#[test]
fn article_job_errors() {
    let (s, _) = article_job(TargetKind::VisibleInteraction, true, "https://a.example/");
    let (_, a) = step(s, JobEvent::Page(Ok("<html><body> </body></html>".to_string())));
    assert_eq!(
        a,
        JobAction::Fail {
            error: "Article content is empty (possibly paywalled or JS-only)".to_string(),
            notice: Some("Something went wrong: Article content is empty (possibly paywalled or JS-only)".to_string())
        }
    );
    let (s, _) = article_job(TargetKind::ReactionDm, true, "https://a.example/");
    let (s, _) = step(s, JobEvent::Page(Ok(HTML.to_string())));
    let (_, a) = step(s, JobEvent::Reply(Ok(reply("s"))));
    assert_eq!(a, JobAction::Fail { error: "Invalid response target for article summary".to_string(), notice: None });
}
