//! What the pager shows: of the app-server's events as they come, and of stored threads.

use vstd::prelude::*;

use crate::agent::{AgentState, CodexAgent};
use crate::events::{
    answer_permission, EventAction, EventActionView, PermissionOptionKind, PermissionOutcome,
};
use crate::json::{Json, JsonView};
use crate::sessions::StopReason;
use crate::text::{joined, optional, views};
use crate::updates::{
    item_as_tool, replay_item, replay_thread, replayed, replayed_thread, replayed_turn, text_or,
    SessionNotification, SessionNotificationView, SessionUpdate, SessionUpdateView, ToolCallStatus,
    ToolKind,
};

use super::lemma_picked_in_order;
use super::values::holds_only;

verus! {

/// The parameters of a message name this session; the empty id where they name none.
pub open spec fn names_session(message: JsonView, session: Seq<char>) -> bool {
    match message.get("params"@) {
        Some(params) => match params.text_at("threadId"@) {
            Some(named) => session == named,
            None => session.len() == 0,
        },
        None => session.len() == 0,
    }
}

/// The text that a message holds under `key` among its parameters.
pub open spec fn param(message: JsonView, key: Seq<char>) -> Option<Seq<char>> {
    match message.get("params"@) {
        Some(params) => params.text_at(key),
        None => None,
    }
}

/// The message reports this event.
pub open spec fn reports(message: JsonView, method: Seq<char>) -> bool {
    message.get("method"@) == Some(JsonView::Text(method))
}

/// The item is a tool call of this kind, with this title and id.
pub open spec fn is_call(item: JsonView, kind: ToolKind, title: Seq<char>, id: Seq<char>) -> bool {
    let is = |name: Seq<char>| item.get("type"@) == Some(JsonView::Text(name));
    &&& item.get("id"@) == Some(JsonView::Text(id))
    &&& {
        ||| is("commandExecution"@) && kind == ToolKind::Execute && item.text_at("command"@)
            == Some(title)
        ||| is("commandExecution"@) && kind == ToolKind::Execute && item.text_at("command"@) is None
            && title == "Run command"@
        ||| is("fileChange"@) && kind == ToolKind::Edit && title == "Edit files"@
        ||| is("mcpToolCall"@) && kind == ToolKind::Other && item.text_at("tool"@) == Some(title)
        ||| is("mcpToolCall"@) && kind == ToolKind::Other && item.text_at("tool"@) is None && title
            == "MCP tool"@
        ||| is("webSearch"@) && kind == ToolKind::Search && title == "Search the web"@
    }
}

/// The item is a tool call of some kind.
pub open spec fn is_some_call(item: JsonView) -> bool {
    &&& item.text_at("id"@) is Some
    &&& item.text_at("type"@) matches Some(name) && (name == "commandExecution"@ || name
        == "fileChange"@ || name == "mcpToolCall"@ || name == "webSearch"@)
}

proof fn lemma_types_differ()
    ensures
        "commandExecution"@ != "fileChange"@,
        "commandExecution"@ != "mcpToolCall"@,
        "commandExecution"@ != "webSearch"@,
        "fileChange"@ != "mcpToolCall"@,
        "fileChange"@ != "webSearch"@,
        "mcpToolCall"@ != "webSearch"@,
        forall|name: Seq<char>|
            #![trigger name.len()]
            name == "commandExecution"@ || name == "fileChange"@ || name == "mcpToolCall"@ || name
                == "webSearch"@ ==> name != "userMessage"@ && name != "agentMessage"@ && name
                != "reasoning"@,
        "userMessage"@ != "agentMessage"@,
        "userMessage"@ != "reasoning"@,
        "agentMessage"@ != "reasoning"@,
        ""@.len() == 0,
        "userMessage"@.len() > 0,
        "agentMessage"@.len() > 0,
        "reasoning"@.len() > 0,
        "commandExecution"@.len() > 0,
        "fileChange"@.len() > 0,
        "mcpToolCall"@.len() > 0,
        "webSearch"@.len() > 0,
{
    reveal_strlit("commandExecution");
    reveal_strlit("fileChange");
    reveal_strlit("mcpToolCall");
    reveal_strlit("webSearch");
    reveal_strlit("userMessage");
    reveal_strlit("agentMessage");
    reveal_strlit("reasoning");
    reveal_strlit("");
    assert("commandExecution"@.len() == 16 && "fileChange"@.len() == 10);
    assert("mcpToolCall"@.len() == 11 && "webSearch"@.len() == 9 && "userMessage"@.len() == 11);
    assert("agentMessage"@.len() == 12 && "reasoning"@.len() == 9 && ""@.len() == 0);
    assert("mcpToolCall"@[0] != "userMessage"@[0]);
    assert("webSearch"@[0] != "reasoning"@[0]);
}

/// An item becomes a tool call exactly where it is one: with its own id, the kind and the title of
/// its type, and the item itself as what was put in. It is completed exactly where it is said to
/// be.
pub proof fn tool_calls_tell_their_item(
    item: &Json,
    completed: bool,
    tool: Option<crate::updates::ToolCall>,
    kind: ToolKind,
    title: Seq<char>,
    id: Seq<char>,
)
    requires
        call_ensures(item_as_tool, (Some(item), completed), tool),
    ensures
        tool is Some <==> is_some_call(item@),
        is_call(item@, kind, title, id) ==> (tool matches Some(tool) && tool.kind == kind
            && tool.title@ == title && tool.id@ == id && tool.raw_input@ == item@ && (tool.status
            == ToolCallStatus::Completed <==> completed)),
{
    lemma_types_differ();
}

/// Where there is no item, there is no tool call.
pub proof fn no_item_is_no_tool_call(completed: bool, tool: Option<crate::updates::ToolCall>)
    requires
        call_ensures(item_as_tool, (None::<&Json>, completed), tool),
    ensures
        tool is None,
{
}

proof fn lemma_methods_differ()
    ensures
        "item/agentMessage/delta"@ != "item/reasoning/summaryTextDelta"@,
        "item/agentMessage/delta"@ != "item/reasoning/textDelta"@,
        crate::events::topic("item/agentMessage/delta"@) is Message,
        crate::events::topic("item/reasoning/summaryTextDelta"@) is Thought,
        crate::events::topic("item/reasoning/textDelta"@) is Thought,
        crate::events::topic("item/started"@) is ItemStarted,
        crate::events::topic("item/completed"@) is ItemCompleted,
        crate::events::topic("item/commandExecution/outputDelta"@) is Output,
        crate::events::topic("item/fileChange/outputDelta"@) is Output,
        crate::events::topic("item/commandExecution/requestApproval"@) is Approval,
        crate::events::topic("item/fileChange/requestApproval"@) is Approval,
        crate::events::topic("item/tool/requestUserInput"@) is UserInput,
        crate::events::topic("turn/completed"@) is TurnCompleted,
        crate::events::topic("account/login/completed"@) is LoginCompleted,
        crate::events::topic("error"@) is Error,
        crate::events::topic(""@) is Unmapped,
        ""@.len() == 0,
{
    reveal_strlit("item/agentMessage/delta");
    reveal_strlit("item/reasoning/summaryTextDelta");
    reveal_strlit("item/reasoning/textDelta");
    reveal_strlit("item/started");
    reveal_strlit("item/completed");
    reveal_strlit("item/commandExecution/outputDelta");
    reveal_strlit("item/fileChange/outputDelta");
    reveal_strlit("item/commandExecution/requestApproval");
    reveal_strlit("item/fileChange/requestApproval");
    reveal_strlit("item/tool/requestUserInput");
    reveal_strlit("turn/completed");
    reveal_strlit("account/login/completed");
    reveal_strlit("error");
    reveal_strlit("");
    assert("item/agentMessage/delta"@.len() == 23);
    assert("item/reasoning/summaryTextDelta"@.len() == 31);
    assert("item/reasoning/textDelta"@.len() == 24 && "item/started"@.len() == 12);
    assert("item/completed"@.len() == 14 && "item/commandExecution/outputDelta"@.len() == 33);
    assert("item/fileChange/outputDelta"@.len() == 27);
    assert("item/commandExecution/requestApproval"@.len() == 37);
    assert("item/fileChange/requestApproval"@.len() == 31);
    assert("item/tool/requestUserInput"@.len() == 26 && "turn/completed"@.len() == 14);
    assert("account/login/completed"@.len() == 23 && "error"@.len() == 5 && ""@.len() == 0);
    assert("item/agentMessage/delta"@[0] != "account/login/completed"@[0]);
    assert("item/reasoning/summaryTextDelta"@[5] != "item/fileChange/requestApproval"@[5]);
    assert("item/completed"@[0] != "turn/completed"@[0]);
}

/// A piece of the agent's message is shown as it came, character for character, in the session it
/// belongs to; an event without one shows nothing.
pub proof fn messages_are_shown_as_they_come<C, L>(
    agent: &mut CodexAgent<C, L>,
    message: &Json,
    action: EventAction<C, L>,
    session: Seq<char>,
)
    requires
        call_ensures(CodexAgent::<C, L>::handle_event, (agent, message), action),
        reports(message@, "item/agentMessage/delta"@),
        names_session(message@, session),
    ensures
        match param(message@, "delta"@) {
            Some(delta) => action matches EventAction::Show(shown) && shown.session_id@ == session
                && (shown.update matches SessionUpdate::AgentMessageChunk(text) && text@ == delta),
            None => action is Ignore,
        },
        final(agent)@ == old(agent)@,
{
    lemma_methods_differ();
}

/// A piece of the agent's reasoning is shown as it came, whether of the summary or of the full
/// text.
pub proof fn thoughts_are_shown_as_they_come<C, L>(
    agent: &mut CodexAgent<C, L>,
    message: &Json,
    action: EventAction<C, L>,
    session: Seq<char>,
)
    requires
        call_ensures(CodexAgent::<C, L>::handle_event, (agent, message), action),
        reports(message@, "item/reasoning/summaryTextDelta"@) || reports(
            message@,
            "item/reasoning/textDelta"@,
        ),
        names_session(message@, session),
    ensures
        match param(message@, "delta"@) {
            Some(delta) => action matches EventAction::Show(shown) && shown.session_id@ == session
                && (shown.update matches SessionUpdate::AgentThoughtChunk(text) && text@ == delta),
            None => action is Ignore,
        },
        final(agent)@ == old(agent)@,
{
    lemma_methods_differ();
}

/// The text that an action adds to the agent's message.
pub open spec fn spoken<C, L>(action: EventActionView<C, L>) -> Seq<char> {
    match action {
        EventActionView::Show(shown) => match shown.update {
            SessionUpdateView::AgentMessageChunk(text) => text,
            _ => Seq::empty(),
        },
        _ => Seq::empty(),
    }
}

/// What is shown of a message that came in pieces, put together, is the pieces put together.
pub proof fn streams_are_shown_whole<C, L>(
    state: AgentState<C, L>,
    messages: Seq<JsonView>,
    deltas: Seq<Seq<char>>,
)
    requires
        messages.len() == deltas.len(),
        forall|i: int|
            0 <= i < messages.len() ==> reports(
                #[trigger] messages[i],
                "item/agentMessage/delta"@,
            ) && param(messages[i], "delta"@) == Some(deltas[i]),
    ensures
        messages.map_values(
            |message: JsonView| spoken(state.event_action(message)),
        ).flatten() == deltas.flatten(),
{
    lemma_methods_differ();
    let shown = messages.map_values(|message: JsonView| spoken(state.event_action(message)));
    assert forall|i: int| 0 <= i < messages.len() implies shown[i] == deltas[i] by {
        assert(reports(messages[i], "item/agentMessage/delta"@));
    }
    assert(shown =~= deltas);
}

/// A tool call that begins is shown as one that is in progress, with what its item says; an item
/// that is no tool call is not shown.
pub proof fn begun_calls_are_shown<C, L>(
    agent: &mut CodexAgent<C, L>,
    message: &Json,
    action: EventAction<C, L>,
    session: Seq<char>,
    item: JsonView,
    kind: ToolKind,
    title: Seq<char>,
    id: Seq<char>,
)
    requires
        call_ensures(CodexAgent::<C, L>::handle_event, (agent, message), action),
        reports(message@, "item/started"@),
        names_session(message@, session),
    ensures
        param_value(message@, "item"@) == Some(item) && is_call(item, kind, title, id) ==> (
        action matches EventAction::Show(shown) && shown.session_id@ == session && (
        shown.update matches SessionUpdate::ToolCall(tool) && tool.kind == kind && tool.title@
            == title && tool.id@ == id && tool.raw_input@ == item && tool.status
            == ToolCallStatus::InProgress)),
        param_value(message@, "item"@) == Some(item) && !is_some_call(item) ==> action is Ignore,
        param_value(message@, "item"@) is None ==> action is Ignore,
        final(agent)@ == old(agent)@,
{
    lemma_methods_differ();
    lemma_types_differ();
}

/// What a message holds under `key` among its parameters.
pub open spec fn param_value(message: JsonView, key: Seq<char>) -> Option<JsonView> {
    match message.get("params"@) {
        Some(params) => params.get(key),
        None => None,
    }
}

/// A tool call that completes is shown to be complete, with the item as what came out, and with
/// nothing else changed of it; an item that is no tool call shows nothing.
pub proof fn completed_calls_are_shown<C, L>(
    agent: &mut CodexAgent<C, L>,
    message: &Json,
    action: EventAction<C, L>,
    session: Seq<char>,
    item: JsonView,
)
    requires
        call_ensures(CodexAgent::<C, L>::handle_event, (agent, message), action),
        reports(message@, "item/completed"@),
        names_session(message@, session),
    ensures
        param_value(message@, "item"@) == Some(item) && is_some_call(item) ==> (
        action matches EventAction::Show(shown) && shown.session_id@ == session && (
        shown.update matches SessionUpdate::ToolCallUpdate(update) && item.get("id"@) == Some(
            JsonView::Text(update.id@),
        ) && update.status == Some(ToolCallStatus::Completed) && (
        update.raw_output matches Some(output) && output@ == item) && update.title is None
            && update.content is None)),
        param_value(message@, "item"@) == Some(item) && !is_some_call(item) ==> action is Ignore,
        param_value(message@, "item"@) is None ==> action is Ignore,
        final(agent)@ == old(agent)@,
{
    lemma_methods_differ();
    lemma_types_differ();
}

/// Output of a tool call becomes the content of that call, as it came; without the call's id
/// nothing is shown.
pub proof fn output_is_shown_as_it_comes<C, L>(
    agent: &mut CodexAgent<C, L>,
    message: &Json,
    action: EventAction<C, L>,
    session: Seq<char>,
)
    requires
        call_ensures(CodexAgent::<C, L>::handle_event, (agent, message), action),
        reports(message@, "item/commandExecution/outputDelta"@) || reports(
            message@,
            "item/fileChange/outputDelta"@,
        ),
        names_session(message@, session),
    ensures
        match param(message@, "itemId"@) {
            Some(id) => action matches EventAction::Show(shown) && shown.session_id@ == session && (
            shown.update matches SessionUpdate::ToolCallUpdate(update) && update.id@ == id && (
            update.content matches Some(content) && match param(message@, "delta"@) {
                Some(delta) => content@ == delta,
                None => content@.len() == 0,
            }) && update.title is None && update.status is None && update.raw_output is None),
            None => action is Ignore,
        },
        final(agent)@ == old(agent)@,
{
    lemma_methods_differ();
}

/// An error of the app-server is shown as a message that quotes it.
pub proof fn errors_are_shown<C, L>(
    agent: &mut CodexAgent<C, L>,
    message: &Json,
    action: EventAction<C, L>,
    session: Seq<char>,
)
    requires
        call_ensures(CodexAgent::<C, L>::handle_event, (agent, message), action),
        reports(message@, "error"@),
        names_session(message@, session),
    ensures
        action matches EventAction::Show(shown) && shown.session_id@ == session && (
        shown.update matches SessionUpdate::AgentMessageChunk(text) && match param(
            message@,
            "message"@,
        ) {
            Some(quoted) => text@ == "Codex error: "@ + quoted,
            None => text@ == "Codex error: "@ + "Codex app-server reported an error"@,
        }),
        final(agent)@ == old(agent)@,
{
    lemma_methods_differ();
}

/// A request for permission is put to the user under the id it came with: for the item it names,
/// with the command as its title, or else the reason, and with the three options in their order. A
/// request without an id is not put.
pub proof fn permission_is_asked_for<C, L>(
    agent: &mut CodexAgent<C, L>,
    message: &Json,
    action: EventAction<C, L>,
    session: Seq<char>,
)
    requires
        call_ensures(CodexAgent::<C, L>::handle_event, (agent, message), action),
        reports(message@, "item/commandExecution/requestApproval"@) || reports(
            message@,
            "item/fileChange/requestApproval"@,
        ),
        names_session(message@, session),
    ensures
        match message@.get("id"@) {
            Some(asked) => action matches EventAction::AskPermission { id, request } && id@ == asked
                && request.session_id@ == session && match param(message@, "itemId"@) {
                Some(item) => request.tool_call.id@ == item,
                None => request.tool_call.id@ == "approval"@,
            } && (request.tool_call.title matches Some(title) && match (
                param(message@, "command"@),
                param(message@, "reason"@),
            ) {
                (Some(command), _) => title@ == command,
                (None, Some(reason)) => title@ == reason,
                (None, None) => title@ == "Codex requests permission"@,
            }) && request.tool_call.status is None && request.tool_call.content is None
                && request.tool_call.raw_output is None,
            None => action is Ignore,
        },
        action matches EventAction::AskPermission { id, request } ==> request.options@.len() == 3
            && request.options@[0].id@ == "accept"@ && request.options@[0].name@ == "Allow once"@
            && request.options@[0].kind == PermissionOptionKind::AllowOnce
            && request.options@[1].id@ == "acceptForSession"@ && request.options@[1].name@
            == "Allow for session"@
            && request.options@[1].kind == PermissionOptionKind::AllowAlways
            && request.options@[2].id@ == "decline"@ && request.options@[2].name@ == "Deny"@
            && request.options@[2].kind == PermissionOptionKind::RejectOnce,
        final(agent)@ == old(agent)@,
{
    lemma_methods_differ();
    if let EventAction::AskPermission { id, request } = action {
        assert(views(request.options@).len() == 3);
        assert(views(request.options@)[0] == request.options@[0]@);
        assert(views(request.options@)[1] == request.options@[1]@);
        assert(views(request.options@)[2] == request.options@[2]@);
    }
}

/// The app-server is told the very option that the user chose, under the id it asked with; that
/// the user broke off; or, where nothing was decided, no permission.
pub proof fn decisions_are_the_users(
    id: Json,
    option: String,
    chosen: Json,
    cancelled: Json,
    unavailable: Json,
)
    requires
        call_ensures(answer_permission, (id, PermissionOutcome::Selected(option)), chosen),
        call_ensures(answer_permission, (id, PermissionOutcome::Cancelled), cancelled),
        call_ensures(answer_permission, (id, PermissionOutcome::Unavailable), unavailable),
    ensures
        chosen@.text_within("result"@, "decision"@) == Some(option@),
        cancelled@.text_within("result"@, "decision"@) == Some("cancel"@),
        unavailable@.text_within("result"@, "decision"@) == Some("decline"@),
        chosen@.get("id"@) == Some(id@),
        cancelled@.get("id"@) == Some(id@),
        unavailable@.get("id"@) == Some(id@),
        holds_only(chosen@, set!["id"@, "result"@]),
        holds_only(cancelled@, set!["id"@, "result"@]),
        holds_only(unavailable@, set!["id"@, "result"@]),
        holds_only(chosen@.get_or_null("result"@), set!["decision"@]),
        holds_only(cancelled@.get_or_null("result"@), set!["decision"@]),
        holds_only(unavailable@.get_or_null("result"@), set!["decision"@]),
{
    reveal_strlit("id");
    reveal_strlit("result");
    reveal_strlit("decision");
    assert("id"@.len() == 2 && "result"@.len() == 6 && "decision"@.len() == 8);
}

/// Two different choices are told apart.
pub proof fn different_choices_give_different_answers(
    id: Json,
    one: String,
    other: String,
    first: Json,
    second: Json,
)
    requires
        call_ensures(answer_permission, (id, PermissionOutcome::Selected(one)), first),
        call_ensures(answer_permission, (id, PermissionOutcome::Selected(other)), second),
        one@ != other@,
    ensures
        first@ != second@,
{
    reveal_strlit("id");
    reveal_strlit("result");
    reveal_strlit("decision");
    assert("id"@.len() == 2 && "result"@.len() == 6 && "decision"@.len() == 8);
    assert(first@.text_within("result"@, "decision"@) == Some(one@));
    assert(second@.text_within("result"@, "decision"@) == Some(other@));
}

/// A request to ask the user is taken up with the id and the parameters it came with; one without
/// an id is not.
pub proof fn questions_are_taken_up<C, L>(
    agent: &mut CodexAgent<C, L>,
    message: &Json,
    action: EventAction<C, L>,
)
    requires
        call_ensures(CodexAgent::<C, L>::handle_event, (agent, message), action),
        reports(message@, "item/tool/requestUserInput"@),
    ensures
        match message@.get("id"@) {
            Some(asked) => action matches EventAction::AskUser { id, params } && id@ == asked
                && match message@.get("params"@) {
                Some(given) => params@ == given,
                None => params@ == JsonView::Null,
            },
            None => action is Ignore,
        },
        final(agent)@ == old(agent)@,
{
    lemma_methods_differ();
}

/// The end of a turn is told to the one who waits for that turn and to nobody else, as a
/// cancellation exactly where it was interrupted. Afterwards nobody waits for the turn and no
/// session is in it; every other turn, and everything else, is as it was.
pub proof fn ended_turns_are_told<C, L>(
    agent: &mut CodexAgent<C, L>,
    message: &Json,
    action: EventAction<C, L>,
    turn: Seq<char>,
    other: Seq<char>,
    session: Seq<char>,
)
    requires
        call_ensures(CodexAgent::<C, L>::handle_event, (agent, message), action),
        reports(message@, "turn/completed"@),
        message@.get("params"@) matches Some(params) && params.text_within("turn"@, "id"@) == Some(
            turn,
        ),
    ensures
        match action {
            EventAction::EndTurn { waiter, reason } => old(agent)@.completions.contains_key(turn)
                && waiter == old(agent)@.completions[turn] && (reason == StopReason::Cancelled <==>
            message@.get("params"@)->0.text_within("turn"@, "status"@) == Some("interrupted"@)),
            EventAction::Ignore => !old(agent)@.completions.contains_key(turn),
            _ => false,
        },
        !final(agent)@.completions.contains_key(turn),
        other != turn ==> (final(agent)@.completions.contains_key(other) <==> old(
            agent,
        )@.completions.contains_key(other)),
        other != turn && old(agent)@.completions.contains_key(other)
            ==> final(agent)@.completions[other] == old(agent)@.completions[other],
        final(agent)@.active_turns.contains_key(session) <==> old(
            agent,
        )@.active_turns.contains_key(session) && old(agent)@.active_turns[session] != turn,
        final(agent)@.active_turns.contains_key(session) ==> final(agent)@.active_turns[session]
            == old(agent)@.active_turns[session],
        final(agent)@.models == old(agent)@.models,
        final(agent)@.selected == old(agent)@.selected,
        final(agent)@.logins == old(agent)@.logins,
        final(agent)@.authenticated == old(agent)@.authenticated,
        final(agent)@.openai_docs_mcp == old(agent)@.openai_docs_mcp,
{
    lemma_methods_differ();
}

/// The end of a login is told to the one who waits for that login: without a failure exactly where
/// success is reported, else with the failure in the app-server's words. Nobody waits for it
/// afterwards; every other login, and everything else, is as it was.
pub proof fn ended_logins_are_told<C, L>(
    agent: &mut CodexAgent<C, L>,
    message: &Json,
    action: EventAction<C, L>,
    login: Seq<char>,
    other: Seq<char>,
)
    requires
        call_ensures(CodexAgent::<C, L>::handle_event, (agent, message), action),
        reports(message@, "account/login/completed"@),
        param(message@, "loginId"@) == Some(login),
    ensures
        match action {
            EventAction::EndLogin { login_waiter, failure } => old(agent)@.logins.contains_key(
                login,
            ) && login_waiter == old(agent)@.logins[login] && if param_value(
                message@,
                "success"@,
            ) == Some(JsonView::Bool(true)) {
                failure is None
            } else {
                failure matches Some(text) && match param(message@, "error"@) {
                    Some(error) => text@ == "Codex login failed: "@ + error,
                    None => text@ == "Codex login failed: "@ + "unknown error"@,
                }
            },
            EventAction::Ignore => !old(agent)@.logins.contains_key(login),
            _ => false,
        },
        !final(agent)@.logins.contains_key(login),
        other != login ==> (final(agent)@.logins.contains_key(other) <==> old(
            agent,
        )@.logins.contains_key(other)),
        other != login && old(agent)@.logins.contains_key(other) ==> final(agent)@.logins[other]
            == old(agent)@.logins[other],
        final(agent)@.models == old(agent)@.models,
        final(agent)@.selected == old(agent)@.selected,
        final(agent)@.completions == old(agent)@.completions,
        final(agent)@.active_turns == old(agent)@.active_turns,
        final(agent)@.authenticated == old(agent)@.authenticated,
        final(agent)@.openai_docs_mcp == old(agent)@.openai_docs_mcp,
{
    lemma_methods_differ();
}

/// An event of any other kind, or of none, asks for nothing and changes nothing; nor does the end
/// of a login that names none.
pub proof fn other_events_ask_for_nothing<C, L>(
    agent: &mut CodexAgent<C, L>,
    message: &Json,
    action: EventAction<C, L>,
)
    requires
        call_ensures(CodexAgent::<C, L>::handle_event, (agent, message), action),
        !reports(message@, "item/agentMessage/delta"@),
        !reports(message@, "item/reasoning/summaryTextDelta"@),
        !reports(message@, "item/reasoning/textDelta"@),
        !reports(message@, "item/started"@),
        !reports(message@, "item/completed"@),
        !reports(message@, "item/commandExecution/outputDelta"@),
        !reports(message@, "item/fileChange/outputDelta"@),
        !reports(message@, "item/commandExecution/requestApproval"@),
        !reports(message@, "item/fileChange/requestApproval"@),
        !reports(message@, "item/tool/requestUserInput"@),
        !reports(message@, "turn/completed"@),
        !reports(message@, "account/login/completed"@) || param(message@, "loginId"@) is None,
        !reports(message@, "error"@),
    ensures
        action is Ignore,
        final(agent)@ == old(agent)@,
{
    lemma_methods_differ();
}

/// A stored item is shown again as what it was: a user's message by its texts, one per line; an
/// agent's message by its text; reasoning by its summary, or else its content, where that says
/// anything; a tool call as the same call that its start showed, but completed. Nothing else is
/// shown.
pub proof fn stored_items_are_shown_again(
    item: &Json,
    update: Option<SessionUpdate>,
    kind: ToolKind,
    title: Seq<char>,
    id: Seq<char>,
)
    requires
        call_ensures(replay_item, (item,), update),
    ensures
        item@.text_at("type"@) == Some("userMessage"@) ==> (
        update matches Some(SessionUpdate::UserMessageChunk(text)) && text@ == joined(
            item@.items_at("content"@).filter_map(|input: JsonView| input.text_at("text"@)),
            "\n"@,
        )),
        item@.text_at("type"@) == Some("agentMessage"@) ==> match item@.get("text"@) {
            Some(JsonView::Text(said)) => update matches Some(
                SessionUpdate::AgentMessageChunk(text),
            ) && text@ == said,
            _ => update is None,
        },
        item@.text_at("type"@) == Some("reasoning"@) ==> ({
            let summary = item@.items_at("summary"@);
            let parts = if summary.len() > 0 {
                summary
            } else {
                item@.items_at("content"@)
            };
            let said = joined(parts.filter_map(|part: JsonView| part.text()), "\n"@);
            if said.len() > 0 {
                update matches Some(SessionUpdate::AgentThoughtChunk(text)) && text@ == said
            } else {
                update is None
            }
        }),
        is_call(item@, kind, title, id) ==> (update matches Some(SessionUpdate::ToolCall(tool))
            && tool.kind == kind && tool.title@ == title && tool.id@ == id && tool.raw_input@
            == item@ && tool.status == ToolCallStatus::Completed),
        item@.text_at("type"@) != Some("userMessage"@) && item@.text_at("type"@) != Some(
            "agentMessage"@,
        ) && item@.text_at("type"@) != Some("reasoning"@) && !is_some_call(item@)
            ==> update is None,
{
    lemma_types_differ();
}

/// A stored item is shown again as the call that its start was shown as: the same id, title, kind
/// and input. Only that it had begun became that it is complete.
pub proof fn calls_are_replayed_as_they_began<C, L>(
    agent: &mut CodexAgent<C, L>,
    message: &Json,
    action: EventAction<C, L>,
    item: &Json,
    update: Option<SessionUpdate>,
)
    requires
        call_ensures(CodexAgent::<C, L>::handle_event, (agent, message), action),
        call_ensures(replay_item, (item,), update),
        reports(message@, "item/started"@),
        param_value(message@, "item"@) == Some(item@),
    ensures
        match action {
            EventAction::Show(shown) => shown.update matches SessionUpdate::ToolCall(begun)
                && begun.status == ToolCallStatus::InProgress && (update matches Some(
                SessionUpdate::ToolCall(again),
            ) && again.status == ToolCallStatus::Completed && again.id@ == begun.id@
                && again.title@ == begun.title@ && again.kind == begun.kind && again.raw_input@
                == begun.raw_input@),
            _ => !(update matches Some(SessionUpdate::ToolCall(_))),
        },
{
    lemma_methods_differ();
    lemma_types_differ();
}

/// Every tool call that a stored thread is shown with is complete: none looks as if it still ran.
pub proof fn replayed_calls_are_complete(
    response: &Json,
    shown: Vec<SessionNotification>,
    i: int,
)
    requires
        call_ensures(replay_thread, (response,), shown),
        0 <= i < shown@.len(),
    ensures
        shown@[i].update matches SessionUpdate::ToolCall(tool) ==> tool.status
            == ToolCallStatus::Completed,
        !(shown@[i].update is ToolCallUpdate),
        !(shown@[i].update is CurrentModeUpdate),
{
    let thread = response@.get("thread"@)->0;
    let session_id = text_or(thread.text_at("id"@), ""@);
    let turns = thread.items_at("turns"@);
    let per_turn = |turn: JsonView| replayed_turn(turn, session_id);
    assert(views(shown@)[i] == shown@[i]@);
    assert(replayed_thread(response@) == turns.map_values(per_turn).flatten());
    assert forall|j: int| 0 <= j < turns.len() implies settled(
        #[trigger] turns.map_values(per_turn)[j],
    ) by {
        lemma_turn_settled(turns[j].items_at("items"@), session_id);
    }
    lemma_flatten_settled(turns.map_values(per_turn));
    assert(settled(views(shown@)));
}

spec fn settled(shown: Seq<SessionNotificationView>) -> bool {
    forall|i: int|
        0 <= i < shown.len() ==> match (#[trigger] shown[i]).update {
            SessionUpdateView::ToolCall(tool) => tool.status == ToolCallStatus::Completed,
            SessionUpdateView::ToolCallUpdate(_) => false,
            SessionUpdateView::CurrentModeUpdate(_) => false,
            _ => true,
        }
}

proof fn lemma_turn_settled(items: Seq<JsonView>, session_id: Seq<char>)
    ensures
        settled(
            items.filter_map(
                |item: JsonView|
                    match replayed(item) {
                        Some(update) => Some(SessionNotificationView { session_id, update }),
                        None => None,
                    },
            ),
        ),
    decreases items.len(),
{
    if items.len() > 0 {
        lemma_turn_settled(items.drop_last(), session_id);
    }
}

proof fn lemma_flatten_settled(parts: Seq<Seq<SessionNotificationView>>)
    requires
        forall|j: int| 0 <= j < parts.len() ==> settled(#[trigger] parts[j]),
    ensures
        settled(parts.flatten()),
    decreases parts.len(),
{
    if parts.len() > 0 {
        assert forall|j: int| 0 <= j < parts.drop_first().len() implies settled(
            #[trigger] parts.drop_first()[j],
        ) by {
            assert(parts.drop_first()[j] == parts[j + 1]);
        }
        lemma_flatten_settled(parts.drop_first());
        assert(settled(parts[0]));
    }
}

/// A stored thread of one turn with one item is shown as that item is, in the thread's session;
/// one without turns, or no thread at all, is shown as nothing.
pub proof fn single_items_are_shown_alone(
    response: &Json,
    shown: Vec<SessionNotification>,
    item: &Json,
    update: Option<SessionUpdate>,
)
    requires
        call_ensures(replay_thread, (response,), shown),
        call_ensures(replay_item, (item,), update),
    ensures
        response@.get("thread"@) matches Some(thread) && thread.items_at("turns"@).len() == 1
            && thread.items_at("turns"@)[0].items_at("items"@) == seq![item@] ==> match update {
            Some(update) => shown@.len() == 1 && shown@[0].update@ == update@
                && match response@.get("thread"@)->0.get("id"@) {
                Some(JsonView::Text(id)) => shown@[0].session_id@ == id,
                _ => shown@[0].session_id@.len() == 0,
            },
            None => shown@.len() == 0,
        },
        response@.get("thread"@) is None ==> shown@.len() == 0,
        response@.get("thread"@) matches Some(thread) && thread.items_at("turns"@).len() == 0
            ==> shown@.len() == 0,
{
    reveal_strlit("");
    assert(""@.len() == 0);
    assert(views(shown@).len() == shown@.len());
    if response@.get("thread"@) is Some {
        let thread = response@.get("thread"@)->0;
        let turns = thread.items_at("turns"@);
        let session_id = text_or(thread.text_at("id"@), ""@);
        let per_turn = |turn: JsonView| replayed_turn(turn, session_id);
        assert(replayed_thread(response@) == turns.map_values(per_turn).flatten());
        if turns.len() == 1 && turns[0].items_at("items"@) == seq![item@] {
            turns.map_values(per_turn).lemma_flatten_one_element();
            let pick = |item: JsonView|
                match replayed(item) {
                    Some(update) => Some(SessionNotificationView { session_id, update }),
                    None => None,
                };
            Seq::<JsonView>::lemma_filter_map_singleton(item@, pick);
            assert(replayed_turn(turns[0], session_id) == seq![item@].filter_map(pick));
            if shown@.len() == 1 {
                assert(views(shown@)[0] == shown@[0]@);
            }
        }
        if turns.len() == 0 {
            assert(turns.map_values(per_turn).flatten() =~= Seq::empty());
        }
    }
}

/// The response holds a thread with this id, or with none, and these turns.
pub open spec fn stores(response: JsonView, id: Option<Seq<char>>, turns: Seq<JsonView>) -> bool {
    response.get("thread"@) matches Some(thread) && thread.text_at("id"@) == id
        && thread.items_at("turns"@) == turns
}

/// Turns that follow one another are shown one after the other.
pub proof fn threads_are_shown_turn_by_turn(
    id: Option<Seq<char>>,
    earlier: &Json,
    later: &Json,
    whole: &Json,
    shown_earlier: Vec<SessionNotification>,
    shown_later: Vec<SessionNotification>,
    shown: Vec<SessionNotification>,
    first: Seq<JsonView>,
    second: Seq<JsonView>,
)
    requires
        call_ensures(replay_thread, (earlier,), shown_earlier),
        call_ensures(replay_thread, (later,), shown_later),
        call_ensures(replay_thread, (whole,), shown),
        stores(earlier@, id, first),
        stores(later@, id, second),
        stores(whole@, id, first + second),
    ensures
        views(shown@) == views(shown_earlier@) + views(shown_later@),
{
    let session_id = text_or(id, ""@);
    let per_turn = |turn: JsonView| replayed_turn(turn, session_id);
    assert(replayed_thread(earlier@) == first.map_values(per_turn).flatten());
    assert(replayed_thread(later@) == second.map_values(per_turn).flatten());
    assert(replayed_thread(whole@) == (first + second).map_values(per_turn).flatten());
    assert((first + second).map_values(per_turn) =~= first.map_values(per_turn)
        + second.map_values(per_turn));
    vstd::seq_lib::lemma_flatten_concat(first.map_values(per_turn), second.map_values(per_turn));
}

/// Items that follow one another in a turn are shown one after the other: a turn is shown as its
/// parts would be if each were a turn of its own.
pub proof fn turns_are_shown_item_by_item(
    id: Option<Seq<char>>,
    whole: &Json,
    split: &Json,
    shown_whole: Vec<SessionNotification>,
    shown_split: Vec<SessionNotification>,
    turn: JsonView,
    earlier: JsonView,
    later: JsonView,
)
    requires
        call_ensures(replay_thread, (whole,), shown_whole),
        call_ensures(replay_thread, (split,), shown_split),
        stores(whole@, id, seq![turn]),
        stores(split@, id, seq![earlier, later]),
        turn.items_at("items"@) == earlier.items_at("items"@) + later.items_at("items"@),
    ensures
        views(shown_whole@) == views(shown_split@),
{
    let session_id = text_or(id, ""@);
    let per_turn = |turn: JsonView| replayed_turn(turn, session_id);
    assert(replayed_thread(whole@) == seq![turn].map_values(per_turn).flatten());
    assert(replayed_thread(split@) == seq![earlier, later].map_values(per_turn).flatten());
    assert(seq![turn].map_values(per_turn) =~= seq![replayed_turn(turn, session_id)]);
    assert(seq![earlier, later].map_values(per_turn) =~= seq![
        replayed_turn(earlier, session_id),
    ].push(replayed_turn(later, session_id)));
    seq![replayed_turn(turn, session_id)].lemma_flatten_one_element();
    seq![replayed_turn(earlier, session_id)].lemma_flatten_one_element();
    seq![replayed_turn(earlier, session_id)].lemma_flatten_push(replayed_turn(later, session_id));
    lemma_picked_in_order(
        earlier.items_at("items"@),
        later.items_at("items"@),
        |item: JsonView|
            match replayed(item) {
                Some(update) => Some(SessionNotificationView { session_id, update }),
                None => None,
            },
    );
}

/// Two updates that count as the same show the same, part by part.
pub proof fn same_updates_show_the_same(one: SessionNotification, other: SessionNotification)
    requires
        one@ == other@,
    ensures
        one.session_id@ == other.session_id@,
        match (one.update, other.update) {
            (SessionUpdate::UserMessageChunk(first), SessionUpdate::UserMessageChunk(second)) =>
                first@ == second@,
            (SessionUpdate::AgentMessageChunk(first), SessionUpdate::AgentMessageChunk(second)) =>
                first@ == second@,
            (SessionUpdate::AgentThoughtChunk(first), SessionUpdate::AgentThoughtChunk(second)) =>
                first@ == second@,
            (SessionUpdate::ToolCall(first), SessionUpdate::ToolCall(second)) => first.id@
                == second.id@ && first.title@ == second.title@ && first.kind == second.kind
                && first.status == second.status && first.raw_input@ == second.raw_input@,
            (SessionUpdate::ToolCallUpdate(first), SessionUpdate::ToolCallUpdate(second)) =>
                first.id@ == second.id@ && optional(first.title) == optional(second.title)
                    && first.status == second.status && optional(first.content) == optional(
                    second.content,
                ) && optional(first.raw_output) == optional(second.raw_output),
            (SessionUpdate::CurrentModeUpdate(first), SessionUpdate::CurrentModeUpdate(second)) =>
                first@ == second@,
            _ => false,
        },
{
}

} // verus!
