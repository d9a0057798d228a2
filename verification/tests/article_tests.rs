use albert::article::{article_text_from_html, bot_already_replied, extract_url, text_is_blank, SUMMARY_MARKER};
use albert::discord::{DiscordAuthor, DiscordEmoji, DiscordMessage, DiscordReaction};

fn message(content: &str, reactions: Vec<DiscordReaction>) -> DiscordMessage {
    DiscordMessage {
        id: "1".to_string(),
        author: DiscordAuthor { username: "ann".to_string(), bot: false },
        content: content.to_string(),
        timestamp: "2024-01-01T00:00:00+00:00".to_string(),
        reactions,
    }
}

fn reaction(name: Option<&str>, me: bool) -> DiscordReaction {
    DiscordReaction { emoji: DiscordEmoji { name: name.map(|s| s.to_string()) }, me }
}

#[test]
fn extract_url_finds_first_link() {
    assert_eq!(
        extract_url("look at https://example.com/a and http://b.org"),
        Some("https://example.com/a".to_string())
    );
    assert_eq!(extract_url("http://x.io"), Some("http://x.io".to_string()));
    assert_eq!(extract_url("see\thttp://tab.io\nnext"), Some("http://tab.io".to_string()));
}

#[test]
fn extract_url_needs_scheme_at_token_start() {
    assert_eq!(extract_url("nothing here"), None);
    assert_eq!(extract_url(""), None);
    assert_eq!(extract_url("xhttps://a.b ftp://c.d"), None);
    assert_eq!(extract_url("http:/ broken https:// ok"), Some("https://".to_string()));
    assert_eq!(extract_url("(https://a.b)"), None);
}

#[test]
fn extract_url_splits_on_unicode_space() {
    assert_eq!(
        extract_url("link\u{3000}https://jp.example\u{A0}tail"),
        Some("https://jp.example".to_string())
    );
}

#[test]
fn marker_reaction_detected_only_when_bots_own() {
    assert!(bot_already_replied(&message("x", vec![reaction(Some(SUMMARY_MARKER), true)])));
    assert!(!bot_already_replied(&message("x", vec![reaction(Some(SUMMARY_MARKER), false)])));
    assert!(!bot_already_replied(&message("x", vec![reaction(Some("\u{1F4D6}"), true)])));
    assert!(!bot_already_replied(&message("x", vec![reaction(None, true)])));
    assert!(!bot_already_replied(&message("x", vec![])));
    assert!(bot_already_replied(&message(
        "x",
        vec![reaction(None, true), reaction(Some(SUMMARY_MARKER), true)]
    )));
    assert_eq!(SUMMARY_MARKER, "\u{2705}");
}

#[test]
fn blank_text_detection() {
    assert!(text_is_blank(""));
    assert!(text_is_blank(" \n\t\u{3000}"));
    assert!(!text_is_blank("  a "));
}

#[test]
fn article_text_extracted_from_page() {
    let html = "<html><head><title>News</title></head><body><article><p>The council approved the new park budget on Tuesday, after a long debate about maintenance costs and the future of the old library building downtown, which many residents want preserved.</p></article></body></html>";
    let text = article_text_from_html(html, "https://news.example.com/park").unwrap();
    assert!(text.contains("The council approved the new park budget"));
}

#[test]
fn article_errors_reported() {
    let r = article_text_from_html("<html></html>", "not a url");
    assert!(r.unwrap_err().starts_with("Invalid URL: "));
    let r = article_text_from_html("<html><body>   </body></html>", "https://a.example/");
    assert_eq!(r, Err("Article content is empty (possibly paywalled or JS-only)".to_string()));
}
