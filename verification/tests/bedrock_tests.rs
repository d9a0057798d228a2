use albert::bedrock::{
    reply_text, system_prompt_for, ConverseReply, ReplyBlock, ReplyOutput,
    ARTICLE_SUMMARY_SYSTEM, MAX_TOKENS, PER_USER_SUMMARY_SYSTEM, STANDARD_SUMMARY_SYSTEM,
};
use albert::commands::{PER_USER_SUMMARY, STANDARD_SUMMARY};

#[test]
fn prompts_by_task() {
    assert_eq!(system_prompt_for(STANDARD_SUMMARY), Ok(STANDARD_SUMMARY_SYSTEM));
    assert_eq!(system_prompt_for(PER_USER_SUMMARY), Ok(PER_USER_SUMMARY_SYSTEM));
    assert_eq!(system_prompt_for("SHORT"), Err("Unknown task prompt: SHORT".to_string()));
    assert!(STANDARD_SUMMARY_SYSTEM.starts_with("You are a summarization assistant for Discord chat messages. Summarize the main points discussed in a detailed"));
    assert!(PER_USER_SUMMARY_SYSTEM.contains("always specify who said what"));
    assert!(ARTICLE_SUMMARY_SYSTEM.contains("bullet items (- prefix)"));
    assert_eq!(MAX_TOKENS, 2048);
}

#[test]
fn reply_text_taken_from_first_block() {
    let r = ConverseReply {
        output: Some(ReplyOutput::Message(vec![
            ReplyBlock::Text("summary".to_string()),
            ReplyBlock::Text("more".to_string()),
        ])),
    };
    assert_eq!(reply_text(r), Ok("summary".to_string()));
}

#[test]
fn reply_errors() {
    assert_eq!(reply_text(ConverseReply { output: None }), Err("No output in Bedrock response".to_string()));
    assert_eq!(
        reply_text(ConverseReply { output: Some(ReplyOutput::Other) }),
        Err("Output is not a message".to_string())
    );
    assert_eq!(
        reply_text(ConverseReply { output: Some(ReplyOutput::Message(vec![])) }),
        Err("No content blocks in response".to_string())
    );
    assert_eq!(
        reply_text(ConverseReply {
            output: Some(ReplyOutput::Message(vec![ReplyBlock::Other, ReplyBlock::Text("t".to_string())]))
        }),
        Err("Content block is not text".to_string())
    );
}

#[test]
fn converse_request_values() {
    let r = albert::bedrock::converse_request("model-x", STANDARD_SUMMARY_SYSTEM, "Author: **a**; Content: hi");
    assert_eq!(r.model_id, "model-x");
    assert_eq!(r.system_prompt, STANDARD_SUMMARY_SYSTEM);
    assert_eq!(r.user_content, "Author: **a**; Content: hi");
    assert_eq!(r.max_tokens, 2048);
}
