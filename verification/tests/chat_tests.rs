use albert::chat::{
    chat_summary_text, day_before, format_messages, get_24h_ago, is_sent_since, messages_since,
    no_messages_text, string_format_today_messages, ChatEntry, DAY_NANOS,
};
use albert::discord::{DiscordAuthor, DiscordMessage};

fn msg(author: &str, content: &str, ts: &str) -> DiscordMessage {
    DiscordMessage {
        id: content.to_string(),
        author: DiscordAuthor { username: author.to_string(), bot: false },
        content: content.to_string(),
        timestamp: ts.to_string(),
        reactions: vec![],
    }
}

const JAN1: i128 = 1_704_067_200_000_000_000;

#[test]
fn format_messages_oldest_first() {
    let ms = vec![msg("bob", "second", "x"), msg("ann", "first", "x")];
    assert_eq!(
        format_messages(&ms),
        "Author: **ann**; Content: first\nAuthor: **bob**; Content: second"
    );
    assert_eq!(format_messages(&[]), "");
    assert_eq!(format_messages(&ms[..1]), "Author: **bob**; Content: second");
}

#[test]
fn today_messages_formatted_oldest_first() {
    let es = vec![
        ChatEntry { author: "c".to_string(), content: "3".to_string() },
        ChatEntry { author: "b".to_string(), content: "2".to_string() },
        ChatEntry { author: "a".to_string(), content: "1".to_string() },
    ];
    assert_eq!(
        string_format_today_messages(&es),
        "Author: **a**; Content: 1\nAuthor: **b**; Content: 2\nAuthor: **c**; Content: 3"
    );
}

#[test]
fn timestamps_compared_with_cutoff() {
    let m = msg("a", "x", "2024-01-01T00:00:00+00:00");
    assert!(is_sent_since(&m, JAN1));
    assert!(!is_sent_since(&m, JAN1 + 1));
    let offset = msg("a", "x", "2024-01-01T01:00:00+01:00");
    assert!(is_sent_since(&offset, JAN1));
    let bad = msg("a", "x", "yesterday");
    assert!(!is_sent_since(&bad, i128::MIN));
    let frac = msg("a", "x", "2024-01-01T00:00:00.5+00:00");
    assert!(is_sent_since(&frac, JAN1 + 500_000_000));
    assert!(!is_sent_since(&frac, JAN1 + 500_000_001));
}

#[test]
fn messages_since_keeps_order() {
    let ms = vec![
        msg("a", "new", "2024-01-02T00:00:00Z"),
        msg("b", "old", "2023-12-30T00:00:00Z"),
        msg("c", "mid", "2024-01-01T12:00:00Z"),
        msg("d", "bad", "garbage"),
    ];
    let kept = messages_since(ms, JAN1);
    let contents: Vec<&str> = kept.iter().map(|m| m.content.as_str()).collect();
    assert_eq!(contents, vec!["new", "mid"]);
}

#[test]
fn cutoff_is_a_day_earlier() {
    assert_eq!(DAY_NANOS, 86_400_000_000_000);
    assert_eq!(day_before(JAN1), 1_703_980_800_000_000_000);
    let now = std::time::SystemTime::now()
        .duration_since(std::time::UNIX_EPOCH)
        .unwrap()
        .as_nanos() as i128;
    let c = get_24h_ago();
    assert!((now - DAY_NANOS - c).abs() < 60_000_000_000);
}

#[test]
fn summary_texts() {
    assert_eq!(chat_summary_text("general", "All good."), "**Channel: **general\nAll good.");
    assert_eq!(no_messages_text(), "No messages found to summarize...");
}

#[test]
fn transcript_of_batches() {
    let newer = vec![msg("d", "4", "x"), msg("c", "3", "x")];
    let older = vec![msg("b", "2", "x"), msg("a", "1", "x")];
    let mut all = vec![msg("d", "4", "x"), msg("c", "3", "x")];
    all.extend(vec![msg("b", "2", "x"), msg("a", "1", "x")]);
    assert_eq!(
        format_messages(&all),
        format!("{}\n{}", format_messages(&older), format_messages(&newer))
    );
}
