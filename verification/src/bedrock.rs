//! The language-model side: which system prompt each summary uses, and how the text
//! of the model's answer is taken out of a Converse reply.

use vstd::prelude::*;

use crate::commands::{PER_USER_SUMMARY, STANDARD_SUMMARY};
use crate::text::str_eq;

verus! {

/// Largest number of tokens the model may answer with.
pub const MAX_TOKENS: i32 = 2048;

/// System prompt of the plain chat summary.
pub const STANDARD_SUMMARY_SYSTEM: &'static str = "You are a summarization assistant for Discord chat messages. Summarize the main points discussed in a detailed and descriptive manner. If a particularly good point is made by a user, include what that user said. Include relevant user concerns, specific examples mentioned, and highlight overall sentiment or themes. Aim for a comprehensive and thoughtful summary with depth.\n\nIf a message only contains a link, image, or GIF, summarize it as \"[User shared a link]\" or skip it if irrelevant. Do NOT try to describe or interpret links.\n\nProvide ONLY the summary text. No JSON wrapping, no markdown fences.";

/// System prompt of the per-user chat summary.
pub const PER_USER_SUMMARY_SYSTEM: &'static str = "You are a summarization assistant for Discord chat messages. Summarize the main points discussed and always specify who said what or who you are summarizing. Summaries should be detailed and descriptive and highlight overall sentiment or themes.\n\nIf a message only contains a link, image, or GIF, summarize it as \"[User shared a link]\" or skip it if irrelevant. Do NOT try to describe or interpret links.\n\nProvide ONLY the summary text. No JSON wrapping, no markdown fences.";

/// System prompt of the article summary.
pub const ARTICLE_SUMMARY_SYSTEM: &'static str = "You are an article summarization assistant. Summarize the following article as bullet points.\n\nFormat:\nStart with a main takeaway line prefixed with a pin emoji.\nThen list key points as bullet items (- prefix), each one to two sentences.\nBe concise but informative.\n\nProvide ONLY the summary text. No JSON wrapping, no markdown fences.";

/// The system prompt for a chat-summary task, or the error for an unknown task.
pub open spec fn system_prompt_spec(task: Seq<char>) -> Result<Seq<char>, Seq<char>> {
    if task == STANDARD_SUMMARY@ {
        Ok(STANDARD_SUMMARY_SYSTEM@)
    } else if task == PER_USER_SUMMARY@ {
        Ok(PER_USER_SUMMARY_SYSTEM@)
    } else {
        Err("Unknown task prompt: "@ + task)
    }
}

/// The system prompt for a chat-summary task.
pub fn system_prompt_for(task: &str) -> (r: Result<&'static str, String>)
    ensures
        match (r, system_prompt_spec(task@)) {
            (Ok(a), Ok(b)) => a@ == b,
            (Err(a), Err(b)) => a@ == b,
            _ => false,
        },
{
    if str_eq(task, STANDARD_SUMMARY) {
        Ok(STANDARD_SUMMARY_SYSTEM)
    } else if str_eq(task, PER_USER_SUMMARY) {
        Ok(PER_USER_SUMMARY_SYSTEM)
    } else {
        let mut e = String::from_str("Unknown task prompt: ");
        e.append(task);
        Err(e)
    }
}

/// One content block of the model's message.
pub enum ReplyBlock {
    Text(String),
    /// A block of another kind (image, tool use, ...).
    Other,
}

/// The output of a Converse call.
pub enum ReplyOutput {
    /// The model's message, as its content blocks.
    Message(Vec<ReplyBlock>),
    /// An output of another kind.
    Other,
}

/// A Converse reply, as far as the bot reads it.
pub struct ConverseReply {
    pub output: Option<ReplyOutput>,
}

/// The text of the model's answer: its first content block, which must be text.
pub open spec fn reply_text_spec(reply: ConverseReply) -> Result<Seq<char>, Seq<char>> {
    match reply.output {
        None => Err("No output in Bedrock response"@),
        Some(ReplyOutput::Other) => Err("Output is not a message"@),
        Some(ReplyOutput::Message(blocks)) => if blocks.len() == 0 {
            Err("No content blocks in response"@)
        } else {
            match blocks@[0] {
                ReplyBlock::Text(t) => Ok(t@),
                ReplyBlock::Other => Err("Content block is not text"@),
            }
        },
    }
}

/// The text of the model's answer.
pub fn reply_text(reply: ConverseReply) -> (r: Result<String, String>)
    ensures
        match (r, reply_text_spec(reply)) {
            (Ok(a), Ok(b)) => a@ == b,
            (Err(a), Err(b)) => a@ == b,
            _ => false,
        },
{
    match reply.output {
        None => Err(String::from_str("No output in Bedrock response")),
        Some(ReplyOutput::Other) => Err(String::from_str("Output is not a message")),
        Some(ReplyOutput::Message(mut blocks)) => {
            if blocks.len() == 0 {
                Err(String::from_str("No content blocks in response"))
            } else {
                let first = blocks.remove(0);
                match first {
                    ReplyBlock::Text(t) => Ok(t),
                    ReplyBlock::Other => Err(String::from_str("Content block is not text")),
                }
            }
        },
    }
}


/// A Converse request as the bot sends it: one system prompt, one user message holding
/// a single text block, and the token limit.
pub struct ConverseRequest {
    pub model_id: String,
    pub system_prompt: String,
    pub user_content: String,
    pub max_tokens: i32,
}

/// The request that asks `model_id` for an answer to `user_content` under
/// `system_prompt`, limited to [`MAX_TOKENS`] tokens.
pub fn converse_request(model_id: &str, system_prompt: &str, user_content: &str) -> (r:
    ConverseRequest)
    ensures
        r.model_id@ == model_id@,
        r.system_prompt@ == system_prompt@,
        r.user_content@ == user_content@,
        r.max_tokens == 2048,
{
    ConverseRequest {
        model_id: String::from_str(model_id),
        system_prompt: String::from_str(system_prompt),
        user_content: String::from_str(user_content),
        max_tokens: MAX_TOKENS,
    }
}

} // verus!
