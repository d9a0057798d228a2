use albert::bot::{
    article_delivery, article_request, chat_delivery, command_target, deferral_is_private,
    error_notice, global_commands, menu_target_url, ping_reply, reaction_request, reaction_target,
    reaction_task, slash_article_url, today_entries, ArticleRequest, ArticleStep, ChatDelivery,
    CommandKind, MenuTarget, ReactionRequest, TargetKind,
};
use albert::commands::Command;
use albert::discord::{DiscordAuthor, DiscordEmoji, DiscordMessage, DiscordReaction};
use albert::interaction::{CommandOption, OptionValue};

fn msg(author: &str, content: &str, ts: &str, marked: bool) -> DiscordMessage {
    DiscordMessage {
        id: "m".to_string(),
        author: DiscordAuthor { username: author.to_string(), bot: false },
        content: content.to_string(),
        timestamp: ts.to_string(),
        reactions: if marked {
            vec![DiscordReaction { emoji: DiscordEmoji { name: Some("\u{2705}".to_string()) }, me: true }]
        } else {
            vec![]
        },
    }
}

#[test]
fn ping_pong() {
    assert_eq!(ping_reply("!ping"), Some("Pong!"));
    assert_eq!(ping_reply("!ping "), None);
}

#[test]
fn reactions_routed() {
    assert_eq!(reaction_request("\u{1F4C4}"), ReactionRequest::ChatSummary);
    assert_eq!(reaction_request("\u{1F4D1}"), ReactionRequest::PerUserChatSummary);
    assert_eq!(reaction_request("\u{1F4D6}"), ReactionRequest::ArticleSummary);
    assert_eq!(reaction_request("\u{1F916}"), ReactionRequest::Ignore);
    assert_eq!(reaction_task(ReactionRequest::ChatSummary), Some("STANDARD_SUMMARY"));
    assert_eq!(reaction_task(ReactionRequest::PerUserChatSummary), Some("PER_USER_SUMMARY"));
    assert_eq!(reaction_task(ReactionRequest::ArticleSummary), None);
}

#[test]
fn article_requests() {
    assert!(matches!(article_request(&msg("a", "https://x.y", "t", true)), ArticleRequest::AlreadySummarized));
    assert!(matches!(article_request(&msg("a", "no link", "t", false)), ArticleRequest::NoUrl));
    match article_request(&msg("a", "go https://x.y now", "t", false)) {
        ArticleRequest::Summarize(u) => assert_eq!(u, "https://x.y"),
        _ => panic!("expected a link"),
    }
}

#[test]
fn context_menu_notices() {
    assert_eq!(menu_target_url(MenuTarget::Missing), Err("Could not find the target message.".to_string()));
    assert_eq!(menu_target_url(MenuTarget::FetchFailed), Err("Failed to fetch the target message.".to_string()));
    assert_eq!(
        menu_target_url(MenuTarget::Fetched(msg("a", "https://x.y", "t", true))),
        Err("This article has already been summarized.".to_string())
    );
    assert_eq!(
        menu_target_url(MenuTarget::Fetched(msg("a", "plain", "t", false))),
        Err("No URL found in the target message.".to_string())
    );
    assert_eq!(menu_target_url(MenuTarget::Fetched(msg("a", "https://x.y", "t", false))), Ok("https://x.y".to_string()));
}

#[test]
fn slash_article_option() {
    let opts = vec![CommandOption { name: "url".to_string(), value: Some(OptionValue::Text("https://x.y".to_string())) }];
    assert_eq!(slash_article_url(&opts), Ok("https://x.y".to_string()));
    assert_eq!(slash_article_url(&vec![]), Err("Please provide a URL to summarize.".to_string()));
}

#[test]
fn registered_commands() {
    let cs = global_commands();
    assert_eq!(cs.len(), 4);
    assert_eq!(cs[0].name, "summary-24hr");
    assert_eq!(cs[0].description.as_deref(), Some("Summarize the last 24 hours of this channel"));
    assert_eq!(cs[1].name, "summary-peruser");
    assert_eq!(cs[2].name, "summary-article");
    assert_eq!(cs[2].options.len(), 1);
    assert_eq!(cs[2].options[0].name, "url");
    assert!(cs[2].options[0].required);
    assert_eq!(cs[3].name, "Summarize Article");
    assert_eq!(cs[3].kind, CommandKind::Message);
    assert_eq!(cs[3].description, None);
}

#[test]
fn chat_deliveries() {
    assert_eq!(chat_delivery(TargetKind::ReactionDm, true), Ok(ChatDelivery::DirectMessage));
    assert_eq!(chat_delivery(TargetKind::ReactionDm, false), Err("No user_id on reaction".to_string()));
    assert_eq!(chat_delivery(TargetKind::EphemeralInteraction, false), Ok(ChatDelivery::EditResponse));
    assert_eq!(
        chat_delivery(TargetKind::VisibleInteraction, true),
        Err("Invalid response target for chat summary".to_string())
    );
}

#[test]
fn article_deliveries() {
    assert_eq!(article_delivery(TargetKind::ReactionReply, true), Ok(vec![ArticleStep::ReplyToMessage, ArticleStep::AddMarker]));
    assert_eq!(article_delivery(TargetKind::ReactionReply, false), Ok(vec![]));
    assert_eq!(article_delivery(TargetKind::EphemeralInteraction, true), Ok(vec![ArticleStep::EditResponse]));
    assert_eq!(article_delivery(TargetKind::VisibleInteraction, true), Ok(vec![ArticleStep::EditResponse, ArticleStep::AddMarker]));
    assert_eq!(article_delivery(TargetKind::VisibleInteraction, false), Ok(vec![ArticleStep::EditResponse]));
    assert_eq!(
        article_delivery(TargetKind::ReactionDm, true),
        Err("Invalid response target for article summary".to_string())
    );
}

#[test]
fn error_notices() {
    assert_eq!(error_notice(TargetKind::EphemeralInteraction, "boom"), Some("Something went wrong: boom".to_string()));
    assert_eq!(error_notice(TargetKind::VisibleInteraction, "x"), Some("Something went wrong: x".to_string()));
    assert_eq!(error_notice(TargetKind::ReactionDm, "x"), None);
    assert_eq!(error_notice(TargetKind::ReactionReply, "x"), None);
}

#[test]
fn day_entries_and_threshold() {
    let ms = vec![
        msg("new", "n", "2024-01-01T10:00:00Z", false),
        msg("old", "o", "2023-01-01T10:00:00Z", false),
        msg("mid", "m", "2024-01-01T05:00:00Z", false),
    ];
    let es = today_entries(ms, 1_704_067_200_000_000_000);
    let pairs: Vec<(String, String)> = es.into_iter().map(|e| (e.author, e.content)).collect();
    assert_eq!(pairs, vec![("new".to_string(), "n".to_string()), ("mid".to_string(), "m".to_string())]);
}


#[test]
fn transcripts_agree() {
    let make = || {
        vec![
            msg("new", "n", "2024-01-01T10:00:00Z", false),
            msg("old", "o", "2023-01-01T10:00:00Z", false),
            msg("mid", "m", "2024-01-01T05:00:00Z", false),
        ]
    };
    let cutoff = 1_704_067_200_000_000_000;
    let from_entries = albert::chat::string_format_today_messages(&today_entries(make(), cutoff));
    let from_messages = albert::chat::format_messages(&albert::chat::messages_since(make(), cutoff));
    assert_eq!(from_entries, from_messages);
    assert_eq!(from_entries, "Author: **mid**; Content: m\nAuthor: **new**; Content: n");
}

#[test]
fn reaction_targets() {
    assert_eq!(reaction_target(ReactionRequest::ChatSummary), Some(TargetKind::ReactionDm));
    assert_eq!(reaction_target(ReactionRequest::PerUserChatSummary), Some(TargetKind::ReactionDm));
    assert_eq!(reaction_target(ReactionRequest::ArticleSummary), Some(TargetKind::ReactionReply));
    assert_eq!(reaction_target(ReactionRequest::Ignore), None);
}

#[test]
fn command_targets_and_deferral() {
    assert_eq!(command_target(Command::SummaryDay), Some(TargetKind::EphemeralInteraction));
    assert_eq!(command_target(Command::SummaryPerUser), Some(TargetKind::EphemeralInteraction));
    assert_eq!(command_target(Command::SummaryArticle), Some(TargetKind::EphemeralInteraction));
    assert_eq!(command_target(Command::SummarizeArticleMenu), Some(TargetKind::VisibleInteraction));
    assert_eq!(command_target(Command::Unknown), None);
    assert!(deferral_is_private(TargetKind::EphemeralInteraction));
    assert!(!deferral_is_private(TargetKind::VisibleInteraction));
    assert!(!deferral_is_private(TargetKind::ReactionDm));
    assert!(!deferral_is_private(TargetKind::ReactionReply));
}
