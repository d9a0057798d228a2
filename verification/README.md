# albert

A Discord bot that summarizes a channel's last 24 hours of chat and articles
linked in messages, with a language model on AWS Bedrock. This crate is its
verified core; the runtime around it lives in `app/`.

## Layout

- `src/` — the library, verified with Verus:
  - `text.rs` — Unicode white space, UTF-8 byte lengths, truncation to
    Discord's 2000-byte limit on a character boundary.
  - `article.rs` — the first link of a message, readable text of a fetched
    page, the bot's "already summarized" marker.
  - `chat.rs` — which messages belong to the last 24 hours, the transcript
    given to the model, the summary reply.
  - `discord.rs` — Discord objects and REST addresses.
  - `signature.rs` — Ed25519 verification of interaction requests.
  - `gateway.rs` — the interactions endpoint's answer to each request.
  - `interaction.rs`, `commands.rs` — command payloads and names.
  - `bedrock.rs` — system prompts and reading the model's reply.
  - `worker.rs` — each command's workflow as a state machine, with its laws
    (every failure is shown to the user, the marker is added only after a
    summary was posted, every run ends).
  - `bot.rs` — decisions of the long-running gateway bot, among them where
    each answer goes and whether a command is deferred privately.
- `app/` — the two Lambda functions and the gateway bot: HTTP, Serenity,
  AWS SDK calls and JSON (de)serialization. Run it with `gateway`, `worker`
  or `bot` as first argument. The Bedrock model is named by
  `BEDROCK_MODEL_ID`.
- `tests/` — tests of the library on concrete values.
