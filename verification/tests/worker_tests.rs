use albert::bedrock::{ConverseReply, ReplyBlock, ReplyOutput, ARTICLE_SUMMARY_SYSTEM, STANDARD_SUMMARY_SYSTEM, PER_USER_SUMMARY_SYSTEM};
use albert::discord::{DiscordAuthor, DiscordChannel, DiscordEmoji, DiscordMessage, DiscordReaction};
use albert::interaction::{CommandOption, Interaction, InteractionData, OptionValue, ResolvedData, ResolvedMessage};
use albert::worker::{worker_accepts, worker_begin, worker_step, ReactTarget, WorkerAction, WorkerEvent, WorkerState};

const JAN1: i128 = 1_704_067_200_000_000_000;

fn data(name: &str) -> InteractionData {
    InteractionData { name: Some(name.to_string()), options: vec![], target_id: None, resolved: None }
}

fn interaction(channel: Option<&str>, data: Option<InteractionData>) -> Interaction {
    Interaction { token: "tok".to_string(), channel_id: channel.map(|s| s.to_string()), data }
}

fn msg(author: &str, content: &str, ts: &str, reactions: Vec<DiscordReaction>) -> DiscordMessage {
    DiscordMessage {
        id: "m".to_string(),
        author: DiscordAuthor { username: author.to_string(), bot: false },
        content: content.to_string(),
        timestamp: ts.to_string(),
        reactions,
    }
}

fn reply(text: &str) -> ConverseReply {
    ConverseReply { output: Some(ReplyOutput::Message(vec![ReplyBlock::Text(text.to_string())])) }
}

fn step(state: WorkerState, event: WorkerEvent) -> (WorkerState, WorkerAction) {
    assert!(worker_accepts(&state, &event));
    worker_step(state, event)
}

fn edit(content: &str) -> WorkerAction {
    WorkerAction::EditResponse { token: "tok".to_string(), content: content.to_string() }
}

const ARTICLE_HTML: &str = "<html><body><article><p>The council approved the new park budget on Tuesday, after a long debate about maintenance costs and the future of the old library building downtown.</p></article></body></html>";

#[test]
fn chat_summary_full_run() {
    let (s, a) = worker_begin(interaction(Some("c1"), Some(data("summary-24hr"))));
    assert_eq!(a, WorkerAction::FetchChannel { channel_id: "c1".to_string() });
    let (s, a) = step(s, WorkerEvent::Channel(Ok(DiscordChannel { name: Some("general".to_string()) })));
    assert_eq!(a, WorkerAction::FetchMessages { channel_id: "c1".to_string(), limit: 100 });
    let ms = vec![
        msg("bob", "later", "2024-01-01T10:00:00Z", vec![]),
        msg("ann", "earlier", "2024-01-01T09:00:00Z", vec![]),
        msg("old", "stale", "2023-12-01T09:00:00Z", vec![]),
    ];
    let (s, a) = step(s, WorkerEvent::Messages { result: Ok(ms), cutoff: JAN1 });
    assert_eq!(
        a,
        WorkerAction::Converse {
            system_prompt: STANDARD_SUMMARY_SYSTEM.to_string(),
            user_content: "Author: **ann**; Content: earlier\nAuthor: **bob**; Content: later".to_string(),
        }
    );
    let (s, a) = step(s, WorkerEvent::Reply(Ok(reply("They talked."))));
    assert_eq!(a, edit("**Channel: **general\nThey talked."));
    let (s, a) = step(s, WorkerEvent::Completed(Ok(())));
    assert_eq!(a, WorkerAction::Finish);
    assert_eq!(s, WorkerState::Finished);
}

#[test]
fn per_user_summary_uses_its_prompt() {
    let (s, _) = worker_begin(interaction(Some("c1"), Some(data("summary-peruser"))));
    let (s, _) = step(s, WorkerEvent::Channel(Ok(DiscordChannel { name: Some("g".to_string()) })));
    let ms = vec![
        msg("a", "1", "2024-01-01T10:00:00Z", vec![]),
        msg("b", "2", "2024-01-01T09:00:00Z", vec![]),
    ];
    let (_, a) = step(s, WorkerEvent::Messages { result: Ok(ms), cutoff: JAN1 });
    match a {
        WorkerAction::Converse { system_prompt, .. } => assert_eq!(system_prompt, PER_USER_SUMMARY_SYSTEM),
        other => panic!("unexpected {:?}", other),
    }
}

#[test]
fn chat_with_single_message_not_summarized() {
    let (s, _) = worker_begin(interaction(Some("c1"), Some(data("summary-24hr"))));
    let (s, _) = step(s, WorkerEvent::Channel(Ok(DiscordChannel { name: Some("g".to_string()) })));
    let ms = vec![msg("a", "only", "2024-01-01T10:00:00Z", vec![]), msg("b", "old", "2023-01-01T10:00:00Z", vec![])];
    let (s, a) = step(s, WorkerEvent::Messages { result: Ok(ms), cutoff: JAN1 });
    assert_eq!(a, edit("No messages found to summarize..."));
    let (_, a) = step(s, WorkerEvent::Completed(Ok(())));
    assert_eq!(a, WorkerAction::Finish);
}

#[test]
fn long_chat_summary_truncated() {
    let (s, _) = worker_begin(interaction(Some("c1"), Some(data("summary-24hr"))));
    let (s, _) = step(s, WorkerEvent::Channel(Ok(DiscordChannel { name: Some("g".to_string()) })));
    let ms = vec![msg("a", "1", "2024-01-01T10:00:00Z", vec![]), msg("b", "2", "2024-01-01T09:00:00Z", vec![])];
    let (s, _) = step(s, WorkerEvent::Messages { result: Ok(ms), cutoff: JAN1 });
    let long = "z".repeat(3000);
    let (_, a) = step(s, WorkerEvent::Reply(Ok(reply(&long))));
    let full = format!("**Channel: **g\n{}", long);
    assert_eq!(a, edit(&format!("{}...", &full[..1997])));
}

#[test]
fn missing_channel_reported() {
    let (s, a) = worker_begin(interaction(None, Some(data("summary-24hr"))));
    assert_eq!(a, edit("Something went wrong: No channel_id in interaction"));
    assert_eq!(s, WorkerState::ReportingError);
    let (s, a) = step(s, WorkerEvent::Completed(Err("edit failed".to_string())));
    assert_eq!((s, a), (WorkerState::Finished, WorkerAction::Finish));
}

#[test]
fn failures_reported_to_user() {
    let (s, _) = worker_begin(interaction(Some("c1"), Some(data("summary-24hr"))));
    let (_, a) = step(s, WorkerEvent::Channel(Err("Failed to fetch channel: timeout".to_string())));
    assert_eq!(a, edit("Something went wrong: Failed to fetch channel: timeout"));
    let (s, _) = worker_begin(interaction(Some("c1"), Some(data("summary-24hr"))));
    let (_, a) = step(s, WorkerEvent::Channel(Ok(DiscordChannel { name: None })));
    assert_eq!(a, edit("Something went wrong: Channel has no name (possibly a DM channel)"));
    let (s, _) = worker_begin(interaction(Some("c1"), Some(data("summary-24hr"))));
    let (s, _) = step(s, WorkerEvent::Channel(Ok(DiscordChannel { name: Some("g".to_string()) })));
    let ms = vec![msg("a", "1", "2024-01-01T10:00:00Z", vec![]), msg("b", "2", "2024-01-01T09:00:00Z", vec![])];
    let (s, _) = step(s, WorkerEvent::Messages { result: Ok(ms), cutoff: JAN1 });
    let (_, a) = step(s, WorkerEvent::Reply(Ok(ConverseReply { output: None })));
    assert_eq!(a, edit("Something went wrong: No output in Bedrock response"));
}

#[test]
fn unknown_command_finishes_quietly() {
    let (s, a) = worker_begin(interaction(Some("c"), Some(data("other"))));
    assert_eq!((s, a), (WorkerState::Finished, WorkerAction::Finish));
    let (s, a) = worker_begin(interaction(Some("c"), None));
    assert_eq!((s, a), (WorkerState::Finished, WorkerAction::Finish));
}

#[test]
fn slash_article_run() {
    let mut d = data("summary-article");
    d.options = vec![CommandOption { name: "url".to_string(), value: Some(OptionValue::Text("https://news.example.com/x".to_string())) }];
    let (s, a) = worker_begin(interaction(Some("c"), Some(d)));
    assert_eq!(a, WorkerAction::FetchPage { url: "https://news.example.com/x".to_string() });
    let (s, a) = step(s, WorkerEvent::Page(Ok(ARTICLE_HTML.to_string())));
    match &a {
        WorkerAction::Converse { system_prompt, user_content } => {
            assert_eq!(system_prompt, ARTICLE_SUMMARY_SYSTEM);
            assert!(user_content.contains("The council approved the new park budget"));
        }
        other => panic!("unexpected {:?}", other),
    }
    let (s, a) = step(s, WorkerEvent::Reply(Ok(reply("- Budget approved"))));
    assert_eq!(a, edit("- Budget approved"));
    let (_, a) = step(s, WorkerEvent::Completed(Ok(())));
    assert_eq!(a, WorkerAction::Finish);
}

#[test]
fn slash_article_needs_url() {
    let (_, a) = worker_begin(interaction(Some("c"), Some(data("summary-article"))));
    assert_eq!(a, edit("Something went wrong: No URL provided in slash command"));
    let mut d = data("summary-article");
    d.options = vec![CommandOption { name: "url".to_string(), value: Some(OptionValue::Other) }];
    let (_, a) = worker_begin(interaction(Some("c"), Some(d)));
    assert_eq!(a, edit("Something went wrong: No URL provided in slash command"));
}

fn menu_data(resolved: Option<ResolvedData>) -> InteractionData {
    InteractionData {
        name: Some("Summarize Article".to_string()),
        options: vec![],
        target_id: Some("m1".to_string()),
        resolved,
    }
}

#[test]
fn context_menu_run_adds_marker() {
    let (s, a) = worker_begin(interaction(Some("c9"), Some(menu_data(None))));
    assert_eq!(a, WorkerAction::FetchMessage { channel_id: "c9".to_string(), message_id: "m1".to_string() });
    let target = msg("ann", "read this https://news.example.com/x please", "2024-01-01T10:00:00Z", vec![]);
    let (s, a) = step(s, WorkerEvent::TargetMessage(Ok(target)));
    assert_eq!(a, WorkerAction::FetchPage { url: "https://news.example.com/x".to_string() });
    let (s, _) = step(s, WorkerEvent::Page(Ok(ARTICLE_HTML.to_string())));
    let (s, a) = step(s, WorkerEvent::Reply(Ok(reply("- Budget approved"))));
    assert_eq!(a, edit("- Budget approved"));
    assert_eq!(
        s,
        WorkerState::AwaitEdit {
            token: "tok".to_string(),
            react: Some(ReactTarget { channel_id: "c9".to_string(), message_id: "m1".to_string() })
        }
    );
    let (s, a) = step(s, WorkerEvent::Completed(Ok(())));
    assert_eq!(
        a,
        WorkerAction::AddReaction { channel_id: "c9".to_string(), message_id: "m1".to_string(), emoji: "\u{2705}".to_string() }
    );
    let (s, a) = step(s, WorkerEvent::Completed(Ok(())));
    assert_eq!((s, a), (WorkerState::Finished, WorkerAction::Finish));
}

#[test]
fn context_menu_skips_summarized_message() {
    let (s, _) = worker_begin(interaction(Some("c9"), Some(menu_data(None))));
    let marked = msg(
        "ann",
        "https://news.example.com/x",
        "2024-01-01T10:00:00Z",
        vec![DiscordReaction { emoji: DiscordEmoji { name: Some("\u{2705}".to_string()) }, me: true }],
    );
    let (s, a) = step(s, WorkerEvent::TargetMessage(Ok(marked)));
    assert_eq!(a, edit("This article has already been summarized."));
    let (_, a) = step(s, WorkerEvent::Completed(Ok(())));
    assert_eq!(a, WorkerAction::Finish);
}

#[test]
fn context_menu_falls_back_to_resolved_message() {
    let resolved = ResolvedData {
        messages: vec![(
            "m1".to_string(),
            ResolvedMessage { id: "m1".to_string(), content: "see http://fallback.example/a".to_string() },
        )],
    };
    let (s, _) = worker_begin(interaction(Some("c9"), Some(menu_data(Some(resolved)))));
    let (_, a) = step(s, WorkerEvent::TargetMessage(Ok(msg("a", "no link", "x", vec![]))));
    assert_eq!(a, WorkerAction::FetchPage { url: "http://fallback.example/a".to_string() });
    let (s, _) = worker_begin(interaction(Some("c9"), Some(menu_data(None))));
    let (_, a) = step(s, WorkerEvent::TargetMessage(Ok(msg("a", "no link", "x", vec![]))));
    assert_eq!(a, edit("Something went wrong: No URL found in the target message"));
}

#[test]
fn context_menu_missing_fields_reported() {
    let (_, a) = worker_begin(interaction(None, Some(menu_data(None))));
    assert_eq!(a, edit("Something went wrong: No channel_id in interaction"));
    let mut d = menu_data(None);
    d.target_id = None;
    let (_, a) = worker_begin(interaction(Some("c"), Some(d)));
    assert_eq!(a, edit("Something went wrong: No target_id in context menu interaction"));
}

#[test]
fn marker_failure_reported() {
    let (s, _) = worker_begin(interaction(Some("c9"), Some(menu_data(None))));
    let (s, _) = step(s, WorkerEvent::TargetMessage(Ok(msg("a", "https://news.example.com/x", "x", vec![]))));
    let (s, _) = step(s, WorkerEvent::Page(Ok(ARTICLE_HTML.to_string())));
    let (s, _) = step(s, WorkerEvent::Reply(Ok(reply("sum"))));
    let (s, _) = step(s, WorkerEvent::Completed(Ok(())));
    let (s, a) = step(s, WorkerEvent::Completed(Err("Discord PUT reaction failed (403 Forbidden): no".to_string())));
    assert_eq!(a, edit("Something went wrong: Discord PUT reaction failed (403 Forbidden): no"));
    assert_eq!(s, WorkerState::ReportingError);
}

#[test]
fn long_reply_cut_on_character_boundary() {
    let (s, _) = worker_begin(interaction(Some("c9"), Some(menu_data(None))));
    let (s, _) = step(s, WorkerEvent::TargetMessage(Ok(msg("a", "https://news.example.com/x", "x", vec![]))));
    let (s, _) = step(s, WorkerEvent::Page(Ok(ARTICLE_HTML.to_string())));
    let long = "é".repeat(1100);
    let (_, a) = step(s, WorkerEvent::Reply(Ok(reply(&long))));
    assert_eq!(a, edit(&format!("{}...", "é".repeat(998))));
}
