//! Verified core of a Discord summarization bot: text handling, request
//! routing, signature checks and the step-by-step command workflow.

pub mod article;
pub mod bedrock;
pub mod bot;
pub mod chat;
pub mod commands;
pub mod discord;
pub mod gateway;
pub mod interaction;
pub mod jobs;
pub mod signature;
pub mod text;
pub mod worker;
