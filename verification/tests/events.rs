use codex_pager::agent::CodexAgent;
use codex_pager::events::{
    answer_permission, EventAction, PermissionOptionKind, PermissionOutcome,
};
use codex_pager::json::Json;
use codex_pager::sessions::StopReason;
use codex_pager::updates::{
    item_as_tool, SessionUpdate, ToolCallStatus, ToolCallUpdate, ToolKind,
};

type Agent = CodexAgent<u32, u32>;

fn json(text: &str) -> Json {
    Json::parse(text).expect("JSON text")
}

fn value(text: &str) -> serde_json::Value {
    serde_json::from_str(text).expect("JSON text")
}

fn event(method: &str, params: &str) -> Json {
    json(&format!("{{\"method\": \"{method}\", \"params\": {params}}}"))
}

fn shown(method: &str, params: &str) -> Option<SessionUpdate> {
    match Agent::new(false).handle_event(&event(method, params)) {
        EventAction::Show(notification) => {
            assert_eq!(notification.session_id, "t");
            Some(notification.update)
        }
        EventAction::Ignore => None,
        _ => panic!("the event only shows something"),
    }
}

fn changed(id: &str) -> ToolCallUpdate {
    ToolCallUpdate {
        id: id.to_owned(),
        title: None,
        status: None,
        content: None,
        raw_output: None,
    }
}

#[test]
fn deltas_are_shown_as_they_come() {
    assert_eq!(
        shown("item/agentMessage/delta", "{\"threadId\": \"t\", \"delta\": \"hi\"}"),
        Some(SessionUpdate::AgentMessageChunk("hi".to_owned()))
    );
    for method in ["item/reasoning/summaryTextDelta", "item/reasoning/textDelta"] {
        assert_eq!(
            shown(method, "{\"threadId\": \"t\", \"delta\": \"hm\"}"),
            Some(SessionUpdate::AgentThoughtChunk("hm".to_owned()))
        );
        assert_eq!(shown(method, "{\"threadId\": \"t\"}"), None);
    }
    assert_eq!(shown("item/agentMessage/delta", "{\"delta\": 3}"), None);
}

#[test]
fn events_without_a_session_go_to_the_empty_id() {
    match Agent::new(false).handle_event(&event("item/agentMessage/delta", "{\"delta\": \"x\"}")) {
        EventAction::Show(notification) => assert_eq!(notification.session_id, ""),
        _ => panic!("the delta is shown"),
    }
}

#[test]
fn tool_calls_begin_and_complete() {
    let item = "{\"type\": \"commandExecution\", \"id\": \"i\", \"command\": \"ls\"}";
    let params = format!("{{\"threadId\": \"t\", \"item\": {item}}}");
    match shown("item/started", &params) {
        Some(SessionUpdate::ToolCall(tool)) => {
            assert_eq!(tool.id, "i");
            assert_eq!(tool.title, "ls");
            assert_eq!(tool.kind, ToolKind::Execute);
            assert_eq!(tool.status, ToolCallStatus::InProgress);
            assert_eq!(tool.raw_input.into_value(), value(item));
        }
        _ => panic!("the tool call is shown"),
    }
    match shown("item/completed", &params) {
        Some(SessionUpdate::ToolCallUpdate(update)) => {
            assert_eq!(update.id, "i");
            assert_eq!(update.status, Some(ToolCallStatus::Completed));
            assert_eq!(update.title, None);
            assert_eq!(update.content, None);
            assert_eq!(update.raw_output.unwrap().into_value(), value(item));
        }
        _ => panic!("the completion is shown"),
    }
    let message = "{\"threadId\": \"t\", \"item\": {\"type\": \"agentMessage\", \"id\": \"i\"}}";
    assert_eq!(shown("item/started", message), None);
    assert_eq!(shown("item/completed", message), None);
    assert_eq!(shown("item/completed", "{}"), None);
}

#[test]
fn items_become_tool_calls_by_their_type() {
    let tool = |text: &str| item_as_tool(Some(&json(text)), true);
    let of = |text: &str| {
        let tool = tool(text).unwrap();
        assert_eq!(tool.status, ToolCallStatus::Completed);
        (tool.kind, tool.title)
    };
    assert_eq!(
        of("{\"type\": \"commandExecution\", \"id\": \"i\"}"),
        (ToolKind::Execute, "Run command".to_owned())
    );
    assert_eq!(
        of("{\"type\": \"fileChange\", \"id\": \"i\"}"),
        (ToolKind::Edit, "Edit files".to_owned())
    );
    assert_eq!(
        of("{\"type\": \"mcpToolCall\", \"id\": \"i\", \"tool\": \"grep\"}"),
        (ToolKind::Other, "grep".to_owned())
    );
    assert_eq!(
        of("{\"type\": \"mcpToolCall\", \"id\": \"i\"}"),
        (ToolKind::Other, "MCP tool".to_owned())
    );
    assert_eq!(
        of("{\"type\": \"webSearch\", \"id\": \"i\"}"),
        (ToolKind::Search, "Search the web".to_owned())
    );
    assert!(tool("{\"type\": \"webSearch\"}").is_none());
    assert!(tool("{\"id\": \"i\"}").is_none());
    assert!(tool("{\"type\": \"other\", \"id\": \"i\"}").is_none());
    assert!(item_as_tool(None, false).is_none());
}

#[test]
fn output_replaces_the_content_of_its_call() {
    for method in ["item/commandExecution/outputDelta", "item/fileChange/outputDelta"] {
        let mut update = changed("i");
        update.content = Some("out".to_owned());
        assert_eq!(
            shown(method, "{\"threadId\": \"t\", \"itemId\": \"i\", \"delta\": \"out\"}"),
            Some(SessionUpdate::ToolCallUpdate(update))
        );
        let mut update = changed("i");
        update.content = Some(String::new());
        assert_eq!(
            shown(method, "{\"threadId\": \"t\", \"itemId\": \"i\"}"),
            Some(SessionUpdate::ToolCallUpdate(update))
        );
        assert_eq!(shown(method, "{\"delta\": \"out\"}"), None);
    }
}

#[test]
fn errors_are_shown_as_messages() {
    assert_eq!(
        shown("error", "{\"threadId\": \"t\", \"message\": \"boom\"}"),
        Some(SessionUpdate::AgentMessageChunk("Codex error: boom".to_owned()))
    );
    assert_eq!(
        shown("error", "{\"threadId\": \"t\"}"),
        Some(SessionUpdate::AgentMessageChunk(
            "Codex error: Codex app-server reported an error".to_owned()
        ))
    );
}

#[test]
fn unmapped_events_are_ignored() {
    assert_eq!(shown("mcpServer/startupStatus/updated", "{}"), None);
    let mut agent = Agent::new(false);
    assert!(matches!(agent.handle_event(&json("{\"method\": 3}")), EventAction::Ignore));
    assert!(matches!(agent.handle_event(&json("{\"method\": \"error\"}")), EventAction::Show(_)));
}

#[test]
fn approvals_are_put_to_the_user() {
    for method in [
        "item/commandExecution/requestApproval",
        "item/fileChange/requestApproval",
    ] {
        let message = json(&format!(
            "{{\"id\": 8, \"method\": \"{method}\", \"params\": {{\"threadId\": \"t\", \"itemId\": \"i\", \"command\": \"rm\", \"reason\": \"why\"}}}}"
        ));
        let (id, request) = match Agent::new(false).handle_event(&message) {
            EventAction::AskPermission { id, request } => (id, request),
            _ => panic!("the user is asked"),
        };
        assert_eq!(id, Json::Unsigned(8));
        assert_eq!(request.session_id, "t");
        let mut tool = changed("i");
        tool.title = Some("rm".to_owned());
        assert_eq!(request.tool_call, tool);
        let options: Vec<(&str, &str, PermissionOptionKind)> = request
            .options
            .iter()
            .map(|option| (option.id.as_str(), option.name.as_str(), option.kind))
            .collect();
        assert_eq!(
            options,
            vec![
                ("accept", "Allow once", PermissionOptionKind::AllowOnce),
                ("acceptForSession", "Allow for session", PermissionOptionKind::AllowAlways),
                ("decline", "Deny", PermissionOptionKind::RejectOnce),
            ]
        );
        assert!(matches!(
            Agent::new(false).handle_event(&event(method, "{}")),
            EventAction::Ignore
        ));
    }
}

#[test]
fn approvals_have_a_title_in_any_case() {
    let title = |params: &str| {
        let message = json(&format!(
            "{{\"id\": \"r\", \"method\": \"item/fileChange/requestApproval\", \"params\": {params}}}"
        ));
        match Agent::new(false).handle_event(&message) {
            EventAction::AskPermission { request, .. } => {
                (request.tool_call.id, request.tool_call.title.unwrap())
            }
            _ => panic!("the user is asked"),
        }
    };
    assert_eq!(title("{\"reason\": \"why\"}"), ("approval".to_owned(), "why".to_owned()));
    assert_eq!(
        title("null"),
        ("approval".to_owned(), "Codex requests permission".to_owned())
    );
}

#[test]
fn decisions_are_passed_on() {
    let decided = |outcome: PermissionOutcome| answer_permission(Json::Unsigned(8), outcome).into_value();
    assert_eq!(
        decided(PermissionOutcome::Selected("acceptForSession".to_owned())),
        value("{\"id\": 8, \"result\": {\"decision\": \"acceptForSession\"}}")
    );
    assert_eq!(
        decided(PermissionOutcome::Cancelled),
        value("{\"id\": 8, \"result\": {\"decision\": \"cancel\"}}")
    );
    assert_eq!(
        decided(PermissionOutcome::Unavailable),
        value("{\"id\": 8, \"result\": {\"decision\": \"decline\"}}")
    );
}

#[test]
fn requests_to_ask_need_an_id() {
    assert!(matches!(
        Agent::new(false).handle_event(&event("item/tool/requestUserInput", "{}")),
        EventAction::Ignore
    ));
}

#[test]
fn completed_turns_are_told_to_their_waiter_once() {
    let mut agent = Agent::new(false);
    agent.prompt("t", Ok(json("{\"turn\": {\"id\": \"one\"}}")), 1).unwrap();
    agent.prompt("u", Ok(json("{\"turn\": {\"id\": \"two\"}}")), 2).unwrap();
    let done = |id: &str, status: &str| {
        event("turn/completed", &format!("{{\"turn\": {{\"id\": \"{id}\", \"status\": \"{status}\"}}}}"))
    };
    assert!(matches!(
        agent.handle_event(&done("one", "interrupted")),
        EventAction::EndTurn { waiter: 1, reason: StopReason::Cancelled }
    ));
    assert!(agent.cancel("t").is_none());
    assert!(agent.cancel("u").is_some());
    assert!(matches!(agent.handle_event(&done("one", "interrupted")), EventAction::Ignore));
    assert!(matches!(
        agent.handle_event(&done("two", "completed")),
        EventAction::EndTurn { waiter: 2, reason: StopReason::EndTurn }
    ));
    assert!(agent.cancel("u").is_none());
    assert!(matches!(
        agent.handle_event(&event("turn/completed", "{}")),
        EventAction::Ignore
    ));
}

#[test]
fn completed_logins_are_told_to_their_waiter_once() {
    let reply = |id: &str| Ok(json(&format!("{{\"loginId\": \"{id}\", \"authUrl\": \"u\"}}")));
    let mut agent = Agent::new(false);
    agent.authenticate(reply("a"), 1).unwrap();
    agent.authenticate(reply("b"), 2).unwrap();
    agent.authenticate(reply("c"), 3).unwrap();
    let mut ended = |params: &str| match agent.handle_event(&event("account/login/completed", params)) {
        EventAction::EndLogin { login_waiter, failure } => Some((login_waiter, failure)),
        EventAction::Ignore => None,
        _ => panic!("a login ended"),
    };
    assert_eq!(ended("{\"loginId\": \"a\", \"success\": true}"), Some((1, None)));
    assert_eq!(ended("{\"loginId\": \"a\", \"success\": true}"), None);
    assert_eq!(
        ended("{\"loginId\": \"b\", \"success\": false, \"error\": \"denied\"}"),
        Some((2, Some("Codex login failed: denied".to_owned())))
    );
    assert_eq!(
        ended("{\"loginId\": \"c\"}"),
        Some((3, Some("Codex login failed: unknown error".to_owned())))
    );
    assert_eq!(ended("{\"success\": true}"), None);
}
