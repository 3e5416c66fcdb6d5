use codex_pager::json::{Json, JsonObject};
use codex_pager::rpc::{
    encode_line, notify, respond, respond_error, CodexRpc, Inbound, RpcCall, RpcError, Side,
};

fn json(text: &str) -> Json {
    Json::parse(text).expect("JSON text")
}

fn value(text: &str) -> serde_json::Value {
    serde_json::from_str(text).expect("JSON text")
}

fn call(method: &str) -> RpcCall {
    RpcCall::new(method, json("{\"limit\": 100}"))
}

#[test]
fn requests_are_numbered_from_one() {
    let mut rpc: CodexRpc<&str> = CodexRpc::new();
    assert_eq!(rpc.next_id(), 1);
    let first = rpc.request(call("model/list"), "first").unwrap();
    let second = rpc.request(call("account/read"), "second").unwrap();
    assert_eq!((first.id, second.id), (1, 2));
    assert_eq!(
        first.message.into_value(),
        value("{\"id\": 1, \"method\": \"model/list\", \"params\": {\"limit\": 100}}")
    );
}

#[test]
fn replies_settle_their_own_request() {
    let mut rpc: CodexRpc<&str> = CodexRpc::new();
    rpc.request(call("a"), "first").unwrap();
    rpc.request(call("b"), "second").unwrap();
    match rpc.receive_line("{\"id\": 2, \"result\": {\"ok\": true}}") {
        Inbound::Reply { waiter, result } => {
            assert_eq!(waiter, "second");
            assert_eq!(result.unwrap().get_bool("ok"), Some(true));
        }
        _ => panic!("the second request was answered"),
    }
    assert!(matches!(rpc.receive_line("{\"id\": 2, \"result\": 1}"), Inbound::Unmatched));
    match rpc.receive_line("{\"id\": 1}") {
        Inbound::Reply { waiter, result } => {
            assert_eq!(waiter, "first");
            assert_eq!(result, Ok(Json::Null));
        }
        _ => panic!("the first request was answered"),
    }
}

#[test]
fn error_replies_carry_the_error() {
    let mut rpc: CodexRpc<u8> = CodexRpc::new();
    rpc.request(call("a"), 9).unwrap();
    match rpc.receive_line("{\"id\": 1, \"error\": {\"code\": -1, \"message\": \"no\"}, \"result\": 3}") {
        Inbound::Reply { waiter, result } => {
            assert_eq!(waiter, 9);
            assert_eq!(
                result.unwrap_err().message(),
                "Codex app-server error: {\"code\":-1,\"message\":\"no\"}"
            );
        }
        _ => panic!("the request was answered"),
    }
}

#[test]
fn messages_with_a_method_are_events() {
    let mut rpc: CodexRpc<u8> = CodexRpc::new();
    rpc.request(call("a"), 9).unwrap();
    match rpc.receive_line("{\"id\": 1, \"method\": \"turn/completed\"}") {
        Inbound::Event(message) => assert_eq!(message.get_str("method"), Some("turn/completed")),
        _ => panic!("a message with a method is an event"),
    }
    assert!(matches!(rpc.receive_line("{\"id\": 1}"), Inbound::Reply { waiter: 9, .. }));
}

#[test]
fn lines_that_say_nothing_change_nothing() {
    let mut rpc: CodexRpc<u8> = CodexRpc::new();
    rpc.request(call("a"), 9).unwrap();
    assert!(matches!(rpc.receive_line("not json"), Inbound::Invalid));
    assert!(matches!(rpc.receive_line("{\"id\": 77, \"result\": 1}"), Inbound::Unmatched));
    assert!(matches!(rpc.receive_line("{\"id\": \"1\"}"), Inbound::Unmatched));
    assert!(matches!(rpc.receive_line("[1]"), Inbound::Unmatched));
    assert!(matches!(rpc.receive_line("{\"id\": 1}"), Inbound::Reply { .. }));
}

#[test]
fn abandoned_requests_are_not_answered() {
    let mut rpc: CodexRpc<u8> = CodexRpc::new();
    let request = rpc.request(call("a"), 9).unwrap();
    assert_eq!(rpc.abandon(request.id).message(), "Codex app-server stopped");
    assert!(matches!(rpc.receive_line("{\"id\": 1}"), Inbound::Unmatched));
    assert_eq!(rpc.request(call("b"), 8).unwrap().id, 2);
}

#[test]
fn a_closed_connection_lets_everyone_go_and_refuses() {
    let mut rpc: CodexRpc<u8> = CodexRpc::new();
    rpc.request(call("a"), 1).unwrap();
    rpc.request(call("b"), 2).unwrap();
    assert!(!rpc.is_closed());
    let dropped = rpc.close(Side::Output);
    assert_eq!(dropped.waiters.len(), 2);
    assert_eq!(dropped.waiters.get(&2), Some(&2));
    assert_eq!(dropped.error.message(), "Codex app-server closed its output");
    assert!(rpc.is_closed());
    assert_eq!(rpc.request(call("c"), 3), Err(RpcError::Stopped));
    let again = rpc.close(Side::Input);
    assert!(again.waiters.is_empty());
    assert_eq!(again.error.message(), "Codex app-server input closed");
    assert_eq!(rpc.next_id(), 3);
}

#[test]
fn requests_are_numbered_in_the_order_they_are_made() {
    let mut rpc: CodexRpc<u64> = CodexRpc::new();
    for k in 1..=5u64 {
        let request = rpc.request(call("m"), k).unwrap();
        assert_eq!(request.id, k);
        assert_eq!(request.message.get_u64("id"), Some(k));
        match k {
            2 => assert_eq!(rpc.abandon(k), RpcError::Stopped),
            3 => assert!(matches!(rpc.receive_line("{\"id\": 3}"), Inbound::Reply { .. })),
            4 => assert!(matches!(rpc.receive_line("noise"), Inbound::Invalid)),
            _ => {}
        }
    }
    let dropped = rpc.close(Side::Output);
    let mut waiting: Vec<u64> = dropped.waiters.into_values().collect();
    waiting.sort_unstable();
    assert_eq!(waiting, vec![1, 4, 5]);
    assert_eq!(rpc.request(call("m"), 6), Err(RpcError::Stopped));
    assert_eq!(rpc.next_id(), 6);
}

#[test]
fn notifications_and_answers_have_their_form() {
    assert_eq!(
        notify(RpcCall::new("initialized", Json::Object(JsonObject::new()))).into_value(),
        value("{\"method\": \"initialized\", \"params\": {}}")
    );
    assert_eq!(
        respond(Json::text("seven"), json("[1]")).into_value(),
        value("{\"id\": \"seven\", \"result\": [1]}")
    );
    assert_eq!(
        respond_error(Json::Unsigned(7), -32602, "wrong").into_value(),
        value("{\"id\": 7, \"error\": {\"code\": -32602, \"message\": \"wrong\"}}")
    );
}

#[test]
fn a_message_takes_one_line() {
    let message = json("{\"text\": \"two\\nlines\", \"n\": [1, 2]}");
    let line = encode_line(&message);
    assert_eq!(line, "{\"n\":[1,2],\"text\":\"two\\nlines\"}\n");
    assert_eq!(line.matches('\n').count(), 1);
    assert_eq!(json(line.trim_end()).into_value(), message.into_value());
}
