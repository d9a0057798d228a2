use albert::discord::{
    append_decimal, bot_authorization, channel_name_of, channel_url, message_url, messages_url,
    original_response_url, reaction_url, request_failure, DiscordChannel, DISCORD_API,
    HISTORY_LIMIT,
};

#[test]
fn endpoint_addresses() {
    assert_eq!(DISCORD_API, "https://discord.com/api/v10");
    assert_eq!(
        messages_url("123", HISTORY_LIMIT),
        "https://discord.com/api/v10/channels/123/messages?limit=100"
    );
    assert_eq!(channel_url("9"), "https://discord.com/api/v10/channels/9");
    assert_eq!(message_url("9", "8"), "https://discord.com/api/v10/channels/9/messages/8");
    assert_eq!(
        original_response_url("app", "tok"),
        "https://discord.com/api/v10/webhooks/app/tok/messages/@original"
    );
}

#[test]
fn reaction_address_percent_encodes_emoji() {
    assert_eq!(
        reaction_url("1", "2", "\u{2705}"),
        "https://discord.com/api/v10/channels/1/messages/2/reactions/%E2%9C%85/@me"
    );
    assert_eq!(
        reaction_url("1", "2", "a-b_c.d~e f"),
        "https://discord.com/api/v10/channels/1/messages/2/reactions/a-b_c.d~e%20f/@me"
    );
}

#[test]
fn decimal_notation() {
    for n in [0u32, 7, 10, 100, 4_294_967_295] {
        let mut s = String::from("n=");
        append_decimal(&mut s, n);
        assert_eq!(s, format!("n={}", n));
    }
}

#[test]
fn headers_and_failures() {
    assert_eq!(bot_authorization("abc"), "Bot abc");
    assert_eq!(
        request_failure("GET messages", "404 Not Found", "{}"),
        "Discord GET messages failed (404 Not Found): {}"
    );
}

#[test]
fn channel_name_required() {
    assert_eq!(channel_name_of(DiscordChannel { name: Some("general".to_string()) }), Ok("general".to_string()));
    assert_eq!(
        channel_name_of(DiscordChannel { name: None }),
        Err("Channel has no name (possibly a DM channel)".to_string())
    );
}
