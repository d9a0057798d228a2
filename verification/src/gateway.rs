//! The interactions endpoint: authenticate the request, answer Discord's ping, and
//! defer every command to the worker with the right visibility.

use vstd::prelude::*;

use crate::commands::{command_named, command_of, is_slash_command};
use crate::signature::{signature_valid, verify_signature};

verus! {

/// The number member `key` of the JSON object in `text`, when `text` parses as JSON and
/// that member is a non-negative integer that fits 64 bits.
pub uninterp spec fn json_u64_member(text: Seq<char>, key: Seq<char>) -> Option<u64>;

/// `serde_json::from_str::<Value>(text)`, then `value[key].as_u64()`; `None` when the
/// text does not parse. The result is named, not stated: it depends on the texts alone.
#[verifier::external_body]
fn json_u64_field(text: &str, key: &str) -> (r: Option<u64>)
    ensures
        r == json_u64_member(text@, key@),
{
    match serde_json::from_str::<serde_json::Value>(text) {
        Ok(v) => v[key].as_u64(),
        Err(_) => None,
    }
}

/// The string member `inner` of the object member `outer` of the JSON object in `text`,
/// when `text` parses as JSON and that member is a string.
pub uninterp spec fn json_nested_str_member(text: Seq<char>, outer: Seq<char>, inner: Seq<char>) -> Option<Seq<char>>;

/// `serde_json::from_str::<Value>(text)`, then `value[outer][inner].as_str()`; `None`
/// when the text does not parse. The result is named, not stated: it depends on the
/// texts alone.
#[verifier::external_body]
fn json_nested_str_field(text: &str, outer: &str, inner: &str) -> (r: Option<String>)
    ensures
        match (r, json_nested_str_member(text@, outer@, inner@)) {
            (Some(a), Some(b)) => a@ == b,
            (None, None) => true,
            _ => false,
        },
{
    match serde_json::from_str::<serde_json::Value>(text) {
        Ok(v) => match v[outer][inner].as_str() {
            Some(s) => Some(s.to_string()),
            None => None,
        },
        Err(_) => None,
    }
}

/// The interaction type of a request body; 0 when it has none.
pub open spec fn interaction_type_of(body: Seq<char>) -> u64 {
    match json_u64_member(body, "type"@) {
        Some(t) => t,
        None => 0,
    }
}

/// The command name of a request body; empty when it has none.
pub open spec fn command_name_of(body: Seq<char>) -> Seq<char> {
    match json_nested_str_member(body, "data"@, "name"@) {
        Some(n) => n,
        None => seq![],
    }
}

/// The interaction type of a request body (`type`), 0 when missing.
pub fn interaction_type(body: &str) -> (t: u64)
    ensures
        t == interaction_type_of(body@),
{
    match json_u64_field(body, "type") {
        Some(t) => t,
        None => 0,
    }
}

/// The invoked command's name (`data.name`), empty when missing.
pub fn command_name(body: &str) -> (n: String)
    ensures
        n@ == command_name_of(body@),
{
    match json_nested_str_field(body, "data", "name") {
        Some(n) => n,
        None => String::new(),
    }
}

/// The endpoint's answer to an interaction request.
#[derive(Debug, Clone, Copy, PartialEq, Eq, Structural)]
pub enum GatewayReply {
    /// 401: the signature does not check out.
    InvalidSignature,
    /// 200 `{"type": 1}`: the answer to Discord's ping.
    Pong,
    /// 200 `{"type": 5}`: "thinking...", while the worker is handed the request;
    /// with `{"flags": 64}` when only the invoking user sees the answer.
    Deferred { ephemeral: bool },
    /// 400: an interaction type the bot does not handle.
    Unhandled,
}

/// The answer to a request, given whether it is authentic and its body.
pub open spec fn gateway_reply_spec(authentic: bool, body: Seq<char>) -> GatewayReply {
    if !authentic {
        GatewayReply::InvalidSignature
    } else if interaction_type_of(body) == 1 {
        GatewayReply::Pong
    } else if interaction_type_of(body) == 2 {
        GatewayReply::Deferred { ephemeral: is_slash_command(command_named(command_name_of(body))) }
    } else {
        GatewayReply::Unhandled
    }
}

/// A request is authentic when signature checking is switched off or its signature
/// is valid.
pub fn request_authentic(
    skip_verify: bool,
    public_key_hex: &str,
    signature_hex: &str,
    timestamp: &str,
    body: &str,
) -> (r: bool)
    ensures
        r == (skip_verify || signature_valid(public_key_hex@, signature_hex@, timestamp@, body@)),
{
    skip_verify || verify_signature(public_key_hex, signature_hex, timestamp, body)
}

/// How the endpoint answers a request.
pub fn gateway_reply(authentic: bool, body: &str) -> (r: GatewayReply)
    ensures
        r == gateway_reply_spec(authentic, body@),
{
    if !authentic {
        return GatewayReply::InvalidSignature;
    }
    let t = interaction_type(body);
    if t == 1 {
        GatewayReply::Pong
    } else if t == 2 {
        let name = command_name(body);
        let c = command_of(name.as_str());
        let ephemeral = match c {
            crate::commands::Command::SummaryDay => true,
            crate::commands::Command::SummaryPerUser => true,
            crate::commands::Command::SummaryArticle => true,
            _ => false,
        };
        GatewayReply::Deferred { ephemeral }
    } else {
        GatewayReply::Unhandled
    }
}

/// The HTTP status of an answer.
pub open spec fn reply_status_spec(r: GatewayReply) -> u16 {
    match r {
        GatewayReply::InvalidSignature => 401,
        GatewayReply::Pong => 200,
        GatewayReply::Deferred { .. } => 200,
        GatewayReply::Unhandled => 400,
    }
}

/// The HTTP status of an answer.
pub fn reply_status(r: GatewayReply) -> (s: u16)
    ensures
        s == reply_status_spec(r),
{
    match r {
        GatewayReply::InvalidSignature => 401,
        GatewayReply::Pong => 200,
        GatewayReply::Deferred { .. } => 200,
        GatewayReply::Unhandled => 400,
    }
}

/// The worker is handed the request exactly when the answer defers it.
pub open spec fn invokes_worker_spec(r: GatewayReply) -> bool {
    r is Deferred
}

/// Whether the worker is handed the request.
pub fn invokes_worker(r: GatewayReply) -> (b: bool)
    ensures
        b == invokes_worker_spec(r),
{
    match r {
        GatewayReply::Deferred { .. } => true,
        _ => false,
    }
}

/// A request whose signature does not check out is refused with 401 and never reaches
/// the worker.
pub proof fn law_unsigned_requests_refused(body: Seq<char>)
    ensures
        gateway_reply_spec(false, body) == GatewayReply::InvalidSignature,
        reply_status_spec(gateway_reply_spec(false, body)) == 401,
        !invokes_worker_spec(gateway_reply_spec(false, body)),
{
}

/// An authentic command is always deferred to the worker, and the deferred answer is
/// private to the invoking user exactly when the command is a slash command.
pub proof fn law_commands_deferred(body: Seq<char>)
    requires
        interaction_type_of(body) == 2,
    ensures
        invokes_worker_spec(gateway_reply_spec(true, body)),
        reply_status_spec(gateway_reply_spec(true, body)) == 200,
        gateway_reply_spec(true, body) == (GatewayReply::Deferred {
            ephemeral: is_slash_command(command_named(command_name_of(body))),
        }),
{
}

/// The worker is handed a request only when it is authentic and a command.
pub proof fn law_worker_only_for_commands(authentic: bool, body: Seq<char>)
    requires
        invokes_worker_spec(gateway_reply_spec(authentic, body)),
    ensures
        authentic,
        interaction_type_of(body) == 2,
{
}

} // verus!
