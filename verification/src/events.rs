//! The events and requests of the app-server: what each does to the agent, and what it asks for.

use vstd::prelude::*;

use crate::agent::{AgentState, CodexAgent};
use crate::json::{Json, JsonObject, JsonView};
use crate::rpc::{respond, result_message};
use crate::sessions::StopReason;
use crate::string_map::without_value;
use crate::text::{concat, optional, views};
use crate::updates::{
    item_as_tool, text_or, tool_of, SessionNotification, SessionNotificationView, SessionUpdate,
    SessionUpdateView, ToolCallStatus, ToolCallUpdate, ToolCallUpdateView,
};

verus! {

/// What choosing an option means.
#[derive(Clone, Copy, Debug, PartialEq, Eq, Structural)]
pub enum PermissionOptionKind {
    AllowOnce,
    AllowAlways,
    RejectOnce,
}

/// An option that the user has when asked for permission.
#[derive(Debug, PartialEq)]
pub struct PermissionOption {
    pub id: String,
    pub name: String,
    pub kind: PermissionOptionKind,
}

#[verifier::ext_equal]
pub struct PermissionOptionView {
    pub id: Seq<char>,
    pub name: Seq<char>,
    pub kind: PermissionOptionKind,
}

impl View for PermissionOption {
    type V = PermissionOptionView;

    open spec fn view(&self) -> PermissionOptionView {
        PermissionOptionView { id: self.id@, name: self.name@, kind: self.kind }
    }
}

/// A request for permission, as it is put to the user.
#[derive(Debug, PartialEq)]
pub struct PermissionRequest {
    pub session_id: String,
    pub tool_call: ToolCallUpdate,
    pub options: Vec<PermissionOption>,
}

#[verifier::ext_equal]
pub struct PermissionRequestView {
    pub session_id: Seq<char>,
    pub tool_call: ToolCallUpdateView,
    pub options: Seq<PermissionOptionView>,
}

impl View for PermissionRequest {
    type V = PermissionRequestView;

    open spec fn view(&self) -> PermissionRequestView {
        PermissionRequestView {
            session_id: self.session_id@,
            tool_call: self.tool_call@,
            options: views(self.options@),
        }
    }
}

/// What an event asks for.
pub enum EventAction<C, L> {
    /// Nothing.
    Ignore,
    /// Show the update.
    Show(SessionNotification),
    /// Ask the user for permission, and answer the request `id` with what was decided.
    AskPermission { id: Json, request: PermissionRequest },
    /// Ask the user the questions that `params` describe, and answer the request `id`.
    AskUser { id: Json, params: Json },
    /// Tell the waiter why its turn ended.
    EndTurn { waiter: C, reason: StopReason },
    /// Tell the waiter how its login ended: with the failure, if it failed.
    EndLogin { login_waiter: L, failure: Option<String> },
}

#[verifier::ext_equal]
pub ghost enum EventActionView<C, L> {
    Ignore,
    Show(SessionNotificationView),
    AskPermission { id: JsonView, request: PermissionRequestView },
    AskUser { id: JsonView, params: JsonView },
    EndTurn { waiter: C, reason: StopReason },
    EndLogin { login_waiter: L, failure: Option<Seq<char>> },
}

impl<C, L> View for EventAction<C, L> {
    type V = EventActionView<C, L>;

    open spec fn view(&self) -> EventActionView<C, L> {
        match self {
            EventAction::Ignore => EventActionView::Ignore,
            EventAction::Show(notification) => EventActionView::Show(notification@),
            EventAction::AskPermission { id, request } => EventActionView::AskPermission {
                id: id@,
                request: request@,
            },
            EventAction::AskUser { id, params } => EventActionView::AskUser {
                id: id@,
                params: params@,
            },
            EventAction::EndTurn { waiter, reason } => EventActionView::EndTurn {
                waiter: *waiter,
                reason: *reason,
            },
            EventAction::EndLogin { login_waiter, failure } => EventActionView::EndLogin {
                login_waiter: *login_waiter,
                failure: optional(*failure),
            },
        }
    }
}

/// The kinds of event that the agent acts on.
pub ghost enum Topic {
    Message,
    Thought,
    ItemStarted,
    ItemCompleted,
    Output,
    Approval,
    UserInput,
    TurnCompleted,
    LoginCompleted,
    Error,
    Unmapped,
}

/// The kind of an event, by its method.
pub open spec fn topic(method: Seq<char>) -> Topic {
    if method == "item/agentMessage/delta"@ {
        Topic::Message
    } else if method == "item/reasoning/summaryTextDelta"@ || method
        == "item/reasoning/textDelta"@ {
        Topic::Thought
    } else if method == "item/started"@ {
        Topic::ItemStarted
    } else if method == "item/completed"@ {
        Topic::ItemCompleted
    } else if method == "item/commandExecution/outputDelta"@ || method
        == "item/fileChange/outputDelta"@ {
        Topic::Output
    } else if method == "item/commandExecution/requestApproval"@ || method
        == "item/fileChange/requestApproval"@ {
        Topic::Approval
    } else if method == "item/tool/requestUserInput"@ {
        Topic::UserInput
    } else if method == "turn/completed"@ {
        Topic::TurnCompleted
    } else if method == "account/login/completed"@ {
        Topic::LoginCompleted
    } else if method == "error"@ {
        Topic::Error
    } else {
        Topic::Unmapped
    }
}

/// The kind of a message.
pub open spec fn message_topic(message: JsonView) -> Topic {
    topic(text_or(message.text_at("method"@), ""@))
}

/// The session that the parameters of an event name: the empty id where they name none.
pub open spec fn event_session(params: JsonView) -> Seq<char> {
    text_or(params.text_at("threadId"@), ""@)
}

/// The tool call that is changed by a completed item: none where the item is no tool call.
pub open spec fn completed_call(params: JsonView) -> Option<ToolCallUpdateView> {
    match params.get("item"@) {
        Some(item) => match tool_of(item, true) {
            Some(tool) => Some(
                ToolCallUpdateView {
                    id: tool.id,
                    title: None,
                    status: Some(ToolCallStatus::Completed),
                    content: None,
                    raw_output: Some(item),
                },
            ),
            None => None,
        },
        None => None,
    }
}

/// The tool call that is changed by output: none where the output names no item.
pub open spec fn output_call(params: JsonView) -> Option<ToolCallUpdateView> {
    match params.text_at("itemId"@) {
        Some(id) => Some(
            ToolCallUpdateView {
                id,
                title: None,
                status: None,
                content: Some(text_or(params.text_at("delta"@), ""@)),
                raw_output: None,
            },
        ),
        None => None,
    }
}

/// What is shown for an event: nothing for one that shows nothing.
pub open spec fn shown_update(message: JsonView, params: JsonView) -> Option<SessionUpdateView> {
    match message_topic(message) {
        Topic::Message => match params.text_at("delta"@) {
            Some(delta) => Some(SessionUpdateView::AgentMessageChunk(delta)),
            None => None,
        },
        Topic::Thought => match params.text_at("delta"@) {
            Some(delta) => Some(SessionUpdateView::AgentThoughtChunk(delta)),
            None => None,
        },
        Topic::ItemStarted => match params.get("item"@) {
            Some(item) => match tool_of(item, false) {
                Some(tool) => Some(SessionUpdateView::ToolCall(tool)),
                None => None,
            },
            None => None,
        },
        Topic::ItemCompleted => match completed_call(params) {
            Some(update) => Some(SessionUpdateView::ToolCallUpdate(update)),
            None => None,
        },
        Topic::Output => match output_call(params) {
            Some(update) => Some(SessionUpdateView::ToolCallUpdate(update)),
            None => None,
        },
        Topic::Error => Some(
            SessionUpdateView::AgentMessageChunk(
                "Codex error: "@ + text_or(
                    params.text_at("message"@),
                    "Codex app-server reported an error"@,
                ),
            ),
        ),
        _ => None,
    }
}

/// The options that the user has when asked for permission.
pub open spec fn permission_options() -> Seq<PermissionOptionView> {
    seq![
        PermissionOptionView {
            id: "accept"@,
            name: "Allow once"@,
            kind: PermissionOptionKind::AllowOnce,
        },
        PermissionOptionView {
            id: "acceptForSession"@,
            name: "Allow for session"@,
            kind: PermissionOptionKind::AllowAlways,
        },
        PermissionOptionView {
            id: "decline"@,
            name: "Deny"@,
            kind: PermissionOptionKind::RejectOnce,
        },
    ]
}

/// What the user is asked for permission to do: the command, or else the reason given.
pub open spec fn permission_request(params: JsonView) -> PermissionRequestView {
    PermissionRequestView {
        session_id: event_session(params),
        tool_call: ToolCallUpdateView {
            id: text_or(params.text_at("itemId"@), "approval"@),
            title: Some(
                match params.text_at("command"@) {
                    Some(command) => command,
                    None => text_or(params.text_at("reason"@), "Codex requests permission"@),
                },
            ),
            status: None,
            content: None,
            raw_output: None,
        },
        options: permission_options(),
    }
}

/// The turn that an event names: the empty id where it names none.
pub open spec fn ended_turn(params: JsonView) -> Seq<char> {
    text_or(params.text_within("turn"@, "id"@), ""@)
}

/// Why a turn ended, by the status it ended with.
pub open spec fn stop_reason(params: JsonView) -> StopReason {
    if params.text_within("turn"@, "status"@) == Some("interrupted"@) {
        StopReason::Cancelled
    } else {
        StopReason::EndTurn
    }
}

/// How a login failed: not at all where its success is reported.
pub open spec fn login_failure(params: JsonView) -> Option<Seq<char>> {
    if params.flag_at("success"@) == Some(true) {
        None
    } else {
        Some("Codex login failed: "@ + text_or(params.text_at("error"@), "unknown error"@))
    }
}

/// The turns that sessions are in, without a turn that ended.
pub open spec fn other_turns(turns: Map<Seq<char>, Seq<char>>, ended: Seq<char>) -> Map<
    Seq<char>,
    Seq<char>,
> {
    turns.restrict(
        Set::new(|session: Seq<char>| turns.contains_key(session) && turns[session] != ended),
    )
}

impl<C, L> AgentState<C, L> {
    /// What an event asks for.
    pub open spec fn event_action(self, message: JsonView) -> EventActionView<C, L> {
        let params = message.get_or_null("params"@);
        match message_topic(message) {
            Topic::Approval => match message.get("id"@) {
                Some(id) => EventActionView::AskPermission {
                    id,
                    request: permission_request(params),
                },
                None => EventActionView::Ignore,
            },
            Topic::UserInput => match message.get("id"@) {
                Some(id) => EventActionView::AskUser { id, params },
                None => EventActionView::Ignore,
            },
            Topic::TurnCompleted => if self.completions.contains_key(ended_turn(params)) {
                EventActionView::EndTurn {
                    waiter: self.completions[ended_turn(params)],
                    reason: stop_reason(params),
                }
            } else {
                EventActionView::Ignore
            },
            Topic::LoginCompleted => match params.text_at("loginId"@) {
                Some(login) => if self.logins.contains_key(login) {
                    EventActionView::EndLogin {
                        login_waiter: self.logins[login],
                        failure: login_failure(params),
                    }
                } else {
                    EventActionView::Ignore
                },
                None => EventActionView::Ignore,
            },
            _ => match shown_update(message, params) {
                Some(update) => EventActionView::Show(
                    SessionNotificationView { session_id: event_session(params), update },
                ),
                None => EventActionView::Ignore,
            },
        }
    }

    /// The state after an event: one that ended a turn or a login leaves nobody waiting for it,
    /// and no session in that turn.
    pub open spec fn after_event(self, message: JsonView) -> Self {
        let params = message.get_or_null("params"@);
        match message_topic(message) {
            Topic::TurnCompleted => AgentState {
                completions: self.completions.remove(ended_turn(params)),
                active_turns: other_turns(self.active_turns, ended_turn(params)),
                ..self
            },
            Topic::LoginCompleted => match params.text_at("loginId"@) {
                Some(login) => AgentState { logins: self.logins.remove(login), ..self },
                None => self,
            },
            _ => self,
        }
    }
}

fn show<C, L>(params: &Json, update: SessionUpdate) -> (action: EventAction<C, L>)
    ensures
        action@ == EventActionView::<C, L>::Show(
            SessionNotificationView { session_id: event_session(params@), update: update@ },
        ),
{
    EventAction::Show(
        SessionNotification {
            session_id: params.get_str("threadId").unwrap_or("").to_owned(),
            update,
        },
    )
}

fn ask_permission<C, L>(id: &Json, params: &Json) -> (action: EventAction<C, L>)
    ensures
        action@ == (EventActionView::<C, L>::AskPermission {
            id: id@,
            request: permission_request(params@),
        }),
{
    let title = match params.get_str("command") {
        Some(command) => command,
        None => params.get_str("reason").unwrap_or("Codex requests permission"),
    };
    let mut options: Vec<PermissionOption> = Vec::new();
    options.push(
        PermissionOption {
            id: "accept".to_owned(),
            name: "Allow once".to_owned(),
            kind: PermissionOptionKind::AllowOnce,
        },
    );
    options.push(
        PermissionOption {
            id: "acceptForSession".to_owned(),
            name: "Allow for session".to_owned(),
            kind: PermissionOptionKind::AllowAlways,
        },
    );
    options.push(
        PermissionOption {
            id: "decline".to_owned(),
            name: "Deny".to_owned(),
            kind: PermissionOptionKind::RejectOnce,
        },
    );
    assert(views(options@) =~= permission_options());
    EventAction::AskPermission {
        id: id.clone(),
        request: PermissionRequest {
            session_id: params.get_str("threadId").unwrap_or("").to_owned(),
            tool_call: ToolCallUpdate {
                id: params.get_str("itemId").unwrap_or("approval").to_owned(),
                title: Some(title.to_owned()),
                status: None,
                content: None,
                raw_output: None,
            },
            options,
        },
    }
}

/// What is shown for an item that was completed.
fn complete_item<C, L>(params: &Json) -> (action: EventAction<C, L>)
    ensures
        action@ == match completed_call(params@) {
            Some(update) => EventActionView::<C, L>::Show(
                SessionNotificationView {
                    session_id: event_session(params@),
                    update: SessionUpdateView::ToolCallUpdate(update),
                },
            ),
            None => EventActionView::<C, L>::Ignore,
        },
{
    let item = match params.get("item") {
        Some(item) => item,
        None => {
            return EventAction::Ignore;
        },
    };
    match item_as_tool(Some(item), true) {
        Some(tool) => show(
            params,
            SessionUpdate::ToolCallUpdate(
                ToolCallUpdate {
                    id: tool.id,
                    title: None,
                    status: Some(ToolCallStatus::Completed),
                    content: None,
                    raw_output: Some(item.clone()),
                },
            ),
        ),
        None => EventAction::Ignore,
    }
}

impl<C, L> CodexAgent<C, L> {
    /// Takes in an event or a request of the app-server, and says what it asks for.
    pub fn handle_event(&mut self, message: &Json) -> (action: EventAction<C, L>)
        ensures
            action@ == old(self)@.event_action(message@),
            final(self)@ == old(self)@.after_event(message@),
    {
        let method = message.get_str("method").unwrap_or("");
        let params = Json::copy_or_null(message.get("params"));
        if method.eq("item/agentMessage/delta") {
            match params.get_str("delta") {
                Some(delta) => show(&params, SessionUpdate::AgentMessageChunk(delta.to_owned())),
                None => EventAction::Ignore,
            }
        } else if method.eq("item/reasoning/summaryTextDelta") || method.eq(
            "item/reasoning/textDelta",
        ) {
            match params.get_str("delta") {
                Some(delta) => show(&params, SessionUpdate::AgentThoughtChunk(delta.to_owned())),
                None => EventAction::Ignore,
            }
        } else if method.eq("item/started") {
            match item_as_tool(params.get("item"), false) {
                Some(tool) => show(&params, SessionUpdate::ToolCall(tool)),
                None => EventAction::Ignore,
            }
        } else if method.eq("item/completed") {
            complete_item(&params)
        } else if method.eq("item/commandExecution/outputDelta") || method.eq(
            "item/fileChange/outputDelta",
        ) {
            match params.get_str("itemId") {
                Some(item_id) => show(
                    &params,
                    SessionUpdate::ToolCallUpdate(
                        ToolCallUpdate {
                            id: item_id.to_owned(),
                            title: None,
                            status: None,
                            content: Some(params.get_str("delta").unwrap_or("").to_owned()),
                            raw_output: None,
                        },
                    ),
                ),
                None => EventAction::Ignore,
            }
        } else if method.eq("item/commandExecution/requestApproval") || method.eq(
            "item/fileChange/requestApproval",
        ) {
            match message.get("id") {
                Some(id) => ask_permission(id, &params),
                None => EventAction::Ignore,
            }
        } else if method.eq("item/tool/requestUserInput") {
            match message.get("id") {
                Some(id) => EventAction::AskUser { id: id.clone(), params },
                None => EventAction::Ignore,
            }
        } else if method.eq("turn/completed") {
            self.complete_turn(&params)
        } else if method.eq("account/login/completed") {
            self.complete_login(&params)
        } else if method.eq("error") {
            let text = concat(
                "Codex error: ",
                params.get_str("message").unwrap_or("Codex app-server reported an error"),
            );
            show(&params, SessionUpdate::AgentMessageChunk(text))
        } else {
            EventAction::Ignore
        }
    }

    fn complete_turn(&mut self, params: &Json) -> (action: EventAction<C, L>)
        ensures
            action@ == if old(self)@.completions.contains_key(ended_turn(params@)) {
                EventActionView::<C, L>::EndTurn {
                    waiter: old(self)@.completions[ended_turn(params@)],
                    reason: stop_reason(params@),
                }
            } else {
                EventActionView::<C, L>::Ignore
            },
            final(self)@ == (AgentState {
                completions: old(self)@.completions.remove(ended_turn(params@)),
                active_turns: other_turns(old(self)@.active_turns, ended_turn(params@)),
                ..old(self)@
            }),
    {
        let turn_id = params.get_str_within("turn", "id").unwrap_or("");
        let interrupted = match params.get_str_within("turn", "status") {
            Some(status) => status.eq("interrupted"),
            None => false,
        };
        let reason = if interrupted {
            StopReason::Cancelled
        } else {
            StopReason::EndTurn
        };
        let waiter = self.completions.remove(turn_id);
        let ghost before = self.active_turns@;
        self.active_turns.remove_value(turn_id);
        proof {
            let shown = |turn: String| turn@;
            assert(without_value(before, turn_id@).map_values(shown) =~= other_turns(
                before.map_values(shown),
                turn_id@,
            ));
        }
        match waiter {
            Some(waiter) => EventAction::EndTurn { waiter, reason },
            None => EventAction::Ignore,
        }
    }

    fn complete_login(&mut self, params: &Json) -> (action: EventAction<C, L>)
        ensures
            action@ == match params@.text_at("loginId"@) {
                Some(login) => if old(self)@.logins.contains_key(login) {
                    EventActionView::<C, L>::EndLogin {
                        login_waiter: old(self)@.logins[login],
                        failure: login_failure(params@),
                    }
                } else {
                    EventActionView::<C, L>::Ignore
                },
                None => EventActionView::<C, L>::Ignore,
            },
            final(self)@ == match params@.text_at("loginId"@) {
                Some(login) => AgentState {
                    logins: old(self)@.logins.remove(login),
                    ..old(self)@
                },
                None => old(self)@,
            },
    {
        let login_id = match params.get_str("loginId") {
            Some(login_id) => login_id,
            None => {
                return EventAction::Ignore;
            },
        };
        let login_waiter = match self.login_completions.remove(login_id) {
            Some(login_waiter) => login_waiter,
            None => {
                return EventAction::Ignore;
            },
        };
        let succeeded = match params.get_bool("success") {
            Some(success) => success,
            None => false,
        };
        let failure = if succeeded {
            None
        } else {
            Some(
                concat(
                    "Codex login failed: ",
                    params.get_str("error").unwrap_or("unknown error"),
                ),
            )
        };
        EventAction::EndLogin { login_waiter, failure }
    }
}

/// How a request for permission ended.
#[derive(Debug, PartialEq)]
pub enum PermissionOutcome {
    /// The user chose the option with this id.
    Selected(String),
    /// The user broke off.
    Cancelled,
    /// The pager reported something else, or failed.
    Unavailable,
}

impl PermissionOutcome {
    /// The decision that the app-server is told: without one of the user's, no permission.
    pub open spec fn decision(self) -> Seq<char> {
        match self {
            PermissionOutcome::Selected(option) => option@,
            PermissionOutcome::Cancelled => "cancel"@,
            PermissionOutcome::Unavailable => "decline"@,
        }
    }
}

/// The message that tells the app-server what was decided on its request `id`.
pub open spec fn decision_message(id: JsonView, decision: Seq<char>) -> JsonView {
    result_message(
        id,
        JsonView::Object(
            Map::<Seq<char>, JsonView>::empty().insert("decision"@, JsonView::Text(decision)),
        ),
    )
}

/// Answers the request `id` for permission.
pub fn answer_permission(id: Json, outcome: PermissionOutcome) -> (message: Json)
    ensures
        message@ == decision_message(id@, outcome.decision()),
{
    let decision = match outcome {
        PermissionOutcome::Selected(option) => option,
        PermissionOutcome::Cancelled => "cancel".to_owned(),
        PermissionOutcome::Unavailable => "decline".to_owned(),
    };
    respond(id, Json::Object(JsonObject::new().with("decision", Json::Text(decision))))
}

} // verus!
