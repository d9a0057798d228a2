use albert::gateway::{
    command_name, gateway_reply, interaction_type, invokes_worker, reply_status,
    request_authentic, GatewayReply,
};

#[test]
fn payload_fields() {
    assert_eq!(interaction_type("{\"type\":2,\"data\":{\"name\":\"summary-24hr\"}}"), 2);
    assert_eq!(interaction_type("{\"type\":\"2\"}"), 0);
    assert_eq!(interaction_type("not json"), 0);
    assert_eq!(command_name("{\"type\":2,\"data\":{\"name\":\"summary-24hr\"}}"), "summary-24hr");
    assert_eq!(command_name("{\"type\":2,\"data\":{\"name\":5}}"), "");
    assert_eq!(command_name("{\"type\":2}"), "");
}

#[test]
fn ping_answered() {
    let r = gateway_reply(true, "{\"type\":1}");
    assert_eq!(r, GatewayReply::Pong);
    assert_eq!(reply_status(r), 200);
    assert!(!invokes_worker(r));
}

#[test]
fn unsigned_request_refused() {
    let r = gateway_reply(false, "{\"type\":1}");
    assert_eq!(r, GatewayReply::InvalidSignature);
    assert_eq!(reply_status(r), 401);
    assert!(!invokes_worker(r));
    assert!(request_authentic(true, "", "", "", ""));
    assert!(!request_authentic(false, "00", "00", "", ""));
}

#[test]
fn commands_deferred_with_visibility() {
    for (name, ephemeral) in [
        ("summary-24hr", true),
        ("summary-peruser", true),
        ("summary-article", true),
        ("Summarize Article", false),
        ("other", false),
    ] {
        let body = format!("{{\"type\":2,\"data\":{{\"name\":\"{}\"}}}}", name);
        let r = gateway_reply(true, &body);
        assert_eq!(r, GatewayReply::Deferred { ephemeral });
        assert_eq!(reply_status(r), 200);
        assert!(invokes_worker(r));
    }
}

#[test]
fn other_types_unhandled() {
    let r = gateway_reply(true, "{\"type\":3}");
    assert_eq!(r, GatewayReply::Unhandled);
    assert_eq!(reply_status(r), 400);
    assert_eq!(gateway_reply(true, "garbage"), GatewayReply::Unhandled);
}
