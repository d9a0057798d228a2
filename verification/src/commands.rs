//! The bot's commands, as Discord names them, and the chat-summary styles.

use vstd::prelude::*;

use crate::text::str_eq;

verus! {

/// A command a user can invoke.
#[derive(Debug, Clone, Copy, PartialEq, Eq, Structural)]
pub enum Command {
    /// `/summary-24hr`: summary of the last day of a channel.
    SummaryDay,
    /// `/summary-peruser`: the same, attributed per user.
    SummaryPerUser,
    /// `/summary-article url:<link>`: summary of a linked article.
    SummaryArticle,
    /// "Summarize Article" on a message's context menu.
    SummarizeArticleMenu,
    /// Anything else.
    Unknown,
}

/// The command a registered command name denotes.
pub open spec fn command_named(name: Seq<char>) -> Command {
    if name == "summary-24hr"@ {
        Command::SummaryDay
    } else if name == "summary-peruser"@ {
        Command::SummaryPerUser
    } else if name == "summary-article"@ {
        Command::SummaryArticle
    } else if name == "Summarize Article"@ {
        Command::SummarizeArticleMenu
    } else {
        Command::Unknown
    }
}

/// The command a registered command name denotes.
pub fn command_of(name: &str) -> (c: Command)
    ensures
        c == command_named(name@),
{
    if str_eq(name, "summary-24hr") {
        Command::SummaryDay
    } else if str_eq(name, "summary-peruser") {
        Command::SummaryPerUser
    } else if str_eq(name, "summary-article") {
        Command::SummaryArticle
    } else if str_eq(name, "Summarize Article") {
        Command::SummarizeArticleMenu
    } else {
        Command::Unknown
    }
}

/// Slash commands answer only the user who invoked them; the context-menu command
/// answers the whole channel.
pub open spec fn is_slash_command(c: Command) -> bool {
    c == Command::SummaryDay || c == Command::SummaryPerUser || c == Command::SummaryArticle
}

/// Task name of the plain chat summary.
pub const STANDARD_SUMMARY: &'static str = "STANDARD_SUMMARY";

/// Task name of the per-user chat summary.
pub const PER_USER_SUMMARY: &'static str = "PER_USER_SUMMARY";

/// The summary style a chat command asks for.
pub open spec fn chat_task(c: Command) -> Option<Seq<char>> {
    match c {
        Command::SummaryDay => Some(STANDARD_SUMMARY@),
        Command::SummaryPerUser => Some(PER_USER_SUMMARY@),
        _ => None,
    }
}

/// The summary style a chat command asks for.
pub fn chat_task_of(c: Command) -> (r: Option<&'static str>)
    ensures
        match (r, chat_task(c)) {
            (Some(a), Some(b)) => a@ == b,
            (None, None) => true,
            _ => false,
        },
{
    match c {
        Command::SummaryDay => Some(STANDARD_SUMMARY),
        Command::SummaryPerUser => Some(PER_USER_SUMMARY),
        _ => None,
    }
}

} // verus!
