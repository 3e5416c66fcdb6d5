//! What holds of the library as a whole: of several calls together, and of every history.

use vstd::prelude::*;

pub mod asking;
pub mod calling;
pub mod catalog;
pub mod showing;
pub mod values;

use crate::agent::{effective_effort, session_models, AgentState, CatalogModelView};
use crate::calls::{configured, input_of, new_thread, nothing, prompt_input, ContentBlockView};
use crate::dialog::{DialogActionView, DialogEventView, DialogStageView, DialogState};
use crate::events::{
    completed_call, decision_message, ended_turn, event_session, login_failure, message_topic,
    stop_reason, EventActionView, Topic,
};
use crate::json::{text_or_null, JsonView};
use crate::models::{
    catalog_models, default_entry, entry_id, entry_model, initial_model, ReasoningEffort,
};
use crate::questions::{
    annotated, answer_key, answers_json, asked_of_pager, collected, first_step, pending_notice,
    question_of, resolved_notice, user_input_answer, user_input_answers, AskOutcomeView,
    AskReplyView, AskedView, UserInputError, UserInputStepView, UserInputView,
};
use crate::rpc::{
    error_message, notification_message, request_message, result_message, InboundView, RpcCallView,
    RpcErrorView, RpcState,
};
use crate::sessions::{
    auth_method, connected_meta, next_step, starting_models, InitializeStageView,
    InitializeStepView, StopReason,
};
use crate::text::blank;
use crate::updates::{
    replayed_thread, replayed_turn, text_or, tool_of, SessionNotificationView, ToolCallStatus,
    ToolCallView,
};

verus! {

/// Something that happens on the connection.
pub ghost enum RpcStep<W> {
    Request(W),
    Abandon(u64),
    Receive(JsonView),
    Close,
}

impl<W> RpcState<W> {
    /// The state after one step. A request is only entered while the connection is open and
    /// numbers are left.
    pub open spec fn stepped(self, step: RpcStep<W>) -> Self {
        match step {
            RpcStep::Request(waiter) => if self.closed || self.next_id >= u64::MAX {
                self
            } else {
                self.requested(waiter)
            },
            RpcStep::Abandon(id) => self.without(id),
            RpcStep::Receive(message) => self.received(message),
            RpcStep::Close => self.shut(),
        }
    }

    /// The state after some steps, one after the other.
    pub open spec fn after(self, steps: Seq<RpcStep<W>>) -> Self
        decreases steps.len(),
    {
        if steps.len() == 0 {
            self
        } else {
            self.after(steps.drop_last()).stepped(steps.last())
        }
    }
}

impl<W> RpcState<W> {
    /// How many requests were entered in the course of some steps: those that an open connection
    /// took while numbers were left.
    pub open spec fn entered(self, steps: Seq<RpcStep<W>>) -> nat
        decreases steps.len(),
    {
        if steps.len() == 0 {
            0
        } else {
            let before = self.after(steps.drop_last());
            let earlier = self.entered(steps.drop_last());
            if steps.last() is Request && !before.closed && before.next_id < u64::MAX {
                earlier + 1
            } else {
                earlier
            }
        }
    }
}

/// Requests are numbered in the order they are made: on a connection that was opened and has taken
/// some requests since, the next one goes under the number that follows their count, whatever else
/// has happened. The first goes under 1, and one that is refused uses up no number.
pub proof fn requests_are_numbered_in_order<W>(steps: Seq<RpcStep<W>>, call: RpcCallView)
    ensures
        ({
            let now = RpcState::<W>::opened().after(steps);
            let count = RpcState::<W>::opened().entered(steps);
            &&& now.valid()
            &&& now.next_id == 1 + count
            &&& now.next_id <= u64::MAX
            &&& !now.closed ==> now.request_result(call) == Ok::<JsonView, RpcErrorView>(
                request_message((1 + count) as u64, call),
            )
        }),
    decreases steps.len(),
{
    if steps.len() > 0 {
        requests_are_numbered_in_order(steps.drop_last(), call);
        let before = RpcState::<W>::opened().after(steps.drop_last());
        let now = RpcState::<W>::opened().after(steps);
        assert(now == before.stepped(steps.last()));
        lemma_stepped_valid(before, steps.last());
    }
}

/// Of two requests on one connection, the later one has the greater number.
pub proof fn request_numbers_increase<W>(state: RpcState<W>, steps: Seq<RpcStep<W>>, waiter: W)
    requires
        !state.closed,
        state.next_id < u64::MAX,
    ensures
        state.stepped(RpcStep::Request(waiter)).after(steps).next_id > state.next_id,
    decreases steps.len(),
{
    if steps.len() > 0 {
        request_numbers_increase(state, steps.drop_last(), waiter);
        let asked = state.stepped(RpcStep::Request(waiter));
        assert(asked.after(steps) == asked.after(steps.drop_last()).stepped(steps.last()));
    }
}

/// A request that could not be sent leaves nothing behind but its number, which is used up.
pub proof fn abandoned_requests_leave_nothing<W>(state: RpcState<W>, waiter: W)
    requires
        state.valid(),
        state.next_id < u64::MAX,
    ensures
        state.requested(waiter).without(state.next_id as u64) == (RpcState {
            next_id: state.next_id + 1,
            ..state
        }),
{
    assert(state.requested(waiter).without(state.next_id as u64).pending =~= state.pending);
}

proof fn lemma_stepped_valid<W>(state: RpcState<W>, step: RpcStep<W>)
    requires
        state.valid(),
    ensures
        state.stepped(step).valid(),
{
    let now = state.stepped(step);
    assert forall|id: u64| #[trigger] now.pending.contains_key(id) implies id < now.next_id by {
        if id != state.next_id {
            assert(state.pending.contains_key(id));
        }
    }
}

/// A new request goes under a number that is not pending, and whoever waited before still waits
/// for the same reply.
pub proof fn new_requests_displace_nobody<W>(state: RpcState<W>, waiter: W)
    requires
        state.valid(),
        state.next_id < u64::MAX,
    ensures
        !state.pending.contains_key(state.next_id as u64),
        state.requested(waiter).pending[state.next_id as u64] == waiter,
        forall|id: u64| #[trigger]
            state.pending.contains_key(id) ==> state.requested(waiter).pending.contains_key(id)
                && state.requested(waiter).pending[id] == state.pending[id],
{
}

/// Whatever happens, the pending requests are ones that were made, numbers are never given out
/// again, and a request that was settled once is never pending again.
pub proof fn settled_requests_stay_settled<W>(state: RpcState<W>, steps: Seq<RpcStep<W>>, id: u64)
    requires
        state.valid(),
        id < state.next_id,
        !state.pending.contains_key(id),
    ensures
        state.after(steps).valid(),
        state.after(steps).next_id >= state.next_id,
        !state.after(steps).pending.contains_key(id),
    decreases steps.len(),
{
    if steps.len() > 0 {
        settled_requests_stay_settled(state, steps.drop_last(), id);
        let before = state.after(steps.drop_last());
        let now = state.after(steps);
        assert(now == before.stepped(steps.last()));
        lemma_stepped_valid(before, steps.last());
    }
}

/// A closed connection stays closed: no request is made on it any more.
pub proof fn closed_connections_stay_closed<W>(state: RpcState<W>, steps: Seq<RpcStep<W>>)
    requires
        state.closed,
    ensures
        state.after(steps).closed,
        state.after(steps).next_id == state.next_id,
    decreases steps.len(),
{
    if steps.len() > 0 {
        closed_connections_stay_closed(state, steps.drop_last());
        assert(state.after(steps) == state.after(steps.drop_last()).stepped(steps.last()));
    }
}

/// Closing the connection leaves nobody waiting, nobody waits on it again, and every later request
/// is refused, whether numbers are left or not.
pub proof fn closing_lets_everyone_go<W>(
    state: RpcState<W>,
    steps: Seq<RpcStep<W>>,
    call: RpcCallView,
)
    ensures
        state.shut().after(steps).pending == Map::<u64, W>::empty(),
        state.shut().after(steps).request_result(call) == Err::<JsonView, RpcErrorView>(
            RpcErrorView::Stopped,
        ),
    decreases steps.len(),
{
    closed_connections_stay_closed(state.shut(), steps);
    if steps.len() > 0 {
        closing_lets_everyone_go(state, steps.drop_last(), call);
        closed_connections_stay_closed(state.shut(), steps.drop_last());
        let before = state.shut().after(steps.drop_last());
        assert(state.shut().after(steps) == before.stepped(steps.last()));
        assert(state.shut().after(steps).pending =~= Map::<u64, W>::empty());
    }
}

/// The reply to a request reaches the one who made it, with its result or its error, and leaves
/// everything else as it was before the request.
pub proof fn replies_reach_their_requests<W>(
    state: RpcState<W>,
    waiter: W,
    result: JsonView,
    code: int,
    text: Seq<char>,
)
    requires
        state.valid(),
        state.next_id < u64::MAX,
    ensures
        ({
            let id = JsonView::Integer(state.next_id as int);
            let asked = state.requested(waiter);
            let good = result_message(id, result);
            let bad = error_message(id, code, text);
            let error = bad.get_or_null("error"@);
            &&& asked.inbound(good) == InboundView::Reply(waiter, Ok(result))
            &&& asked.received(good).pending == state.pending
            &&& asked.inbound(bad) == InboundView::Reply(waiter, Err(RpcErrorView::Server(error)))
            &&& error.get("code"@) == Some(JsonView::Integer(code))
            &&& error.text_at("message"@) == Some(text)
            &&& asked.received(bad).pending == state.pending
        }),
{
    reveal_strlit("id");
    reveal_strlit("method");
    reveal_strlit("result");
    reveal_strlit("error");
    reveal_strlit("code");
    reveal_strlit("message");
    assert("id"@.len() == 2 && "method"@.len() == 6 && "result"@.len() == 6 && "error"@.len() == 5);
    assert("code"@.len() == 4 && "message"@.len() == 7);
    assert("method"@[0] != "result"@[0]);
    let number = state.next_id as u64;
    let id = JsonView::Integer(state.next_id as int);
    let asked = state.requested(waiter);
    let good = result_message(id, result);
    let bad = error_message(id, code, text);
    assert(good.get("method"@) is None && good.get("error"@) is None);
    assert(bad.get("method"@) is None);
    assert(good.unsigned_at("id"@) == Some(number));
    assert(bad.unsigned_at("id"@) == Some(number));
    assert(asked.answered(good) == Some(number));
    assert(asked.answered(bad) == Some(number));
    assert(asked.pending.remove(number) =~= state.pending);
}

/// What is sent about plain values is plain itself, so that it is read back as it was sent.
pub proof fn messages_about_plain_values_are_plain(
    id: u64,
    call: RpcCallView,
    asked: JsonView,
    result: JsonView,
    code: int,
    text: Seq<char>,
)
    requires
        call.params.plain(126),
        asked.plain(126),
        result.plain(126),
    ensures
        request_message(id, call).plain(127),
        notification_message(call).plain(127),
        result_message(asked, result).plain(127),
        error_message(asked, code, text).plain(127),
{
    reveal_strlit("$serde_json::private::RawValue");
    reveal_strlit("id");
    reveal_strlit("method");
    reveal_strlit("params");
    reveal_strlit("result");
    reveal_strlit("error");
    reveal_strlit("code");
    reveal_strlit("message");
    assert("$serde_json::private::RawValue"@.len() == 30);
    assert("id"@.len() == 2 && "method"@.len() == 6 && "params"@.len() == 6);
    assert("result"@.len() == 6 && "error"@.len() == 5);
    assert("code"@.len() == 4 && "message"@.len() == 7);
    reveal_with_fuel(JsonView::plain, 3);
    assert(JsonView::Integer(id as int).plain(126) && JsonView::Text(call.method).plain(126));
    assert(error_message(asked, code, text)->Object_0["error"@].plain(126));
}

/// A message settles at most the request that it answers.
pub proof fn messages_settle_only_their_request<W>(state: RpcState<W>, message: JsonView, id: u64)
    requires
        message.unsigned_at("id"@) != Some(id),
        state.pending.contains_key(id),
    ensures
        state.received(message).pending.contains_key(id),
        state.received(message).pending[id] == state.pending[id],
{
}

/// The same reply a second time finds nobody waiting and changes nothing.
pub proof fn second_replies_are_unmatched<W>(state: RpcState<W>, message: JsonView)
    requires
        message.get("method"@) is None,
    ensures
        state.received(message).inbound(message) == InboundView::<W>::Unmatched,
        state.received(message).received(message) == state.received(message),
{
}

/// A message with a method is an event and settles no request, even where it carries the number
/// of one.
pub proof fn events_settle_no_request<W>(state: RpcState<W>, message: JsonView)
    requires
        message.get("method"@) is Some,
    ensures
        state.inbound(message) == InboundView::<W>::Event(message),
        state.received(message) == state,
{
}

/// Connecting asks the app-server four things in order, unless one of them fails, and ends with
/// what the catalog and the account say.
pub proof fn connecting_ends(
    opened: JsonView,
    announced: JsonView,
    catalog: JsonView,
    account: JsonView,
    version: Seq<char>,
)
    ensures
        next_step(InitializeStageView::Opening, opened, version) matches InitializeStepView::Notify(
            notice,
            first,
        ) && notice.method == "initialized"@ && (next_step(first, announced, version)
            matches InitializeStepView::Call(list, second) && list.method == "model/list"@ && (
        next_step(second, catalog, version) matches InitializeStepView::Call(read, third)
            && read.method == "account/read"@ && (next_step(third, account, version)
            matches InitializeStepView::Done(response) && response.meta
            == connected_meta(starting_models(catalog)) && response.auth_method
            == auth_method(account)
            && response.load_session && response.agent_version == version))),
{
}

/// Something that happens to the agent.
pub ghost enum AgentStep<C, L> {
    Refresh(JsonView, Seq<Option<ReasoningEffort>>),
    Select(Seq<char>, Seq<char>, Option<Seq<char>>),
    BeginTurn(Seq<char>, Seq<char>, C),
    BeginLogin(Seq<char>, L),
    LogIn,
    Event(JsonView),
}

impl<C, L> AgentState<C, L> {
    /// The state after one step.
    pub open spec fn stepped(self, step: AgentStep<C, L>) -> Self {
        match step {
            AgentStep::Refresh(response, efforts) => self.refreshed(response, efforts),
            AgentStep::Select(session, model, asked) => self.select(session, model, asked),
            AgentStep::BeginTurn(session, turn, waiter) => self.turn_begun(session, turn, waiter),
            AgentStep::BeginLogin(login, waiter) => AgentState {
                logins: self.logins.insert(login, waiter),
                ..self
            },
            AgentStep::LogIn => AgentState { authenticated: true, ..self },
            AgentStep::Event(message) => self.after_event(message),
        }
    }

    /// The state after some steps, one after the other.
    pub open spec fn after(self, steps: Seq<AgentStep<C, L>>) -> Self
        decreases steps.len(),
    {
        if steps.len() == 0 {
            self
        } else {
            self.after(steps.drop_last()).stepped(steps.last())
        }
    }
}

/// Whatever happens, someone waits for the end of every turn that a session is in; so a
/// cancellation never interrupts a turn that nobody waits for.
pub proof fn active_turns_are_awaited<C, L>(state: AgentState<C, L>, steps: Seq<AgentStep<C, L>>)
    requires
        state.turns_awaited(),
    ensures
        state.after(steps).turns_awaited(),
    decreases steps.len(),
{
    if steps.len() > 0 {
        active_turns_are_awaited(state, steps.drop_last());
        let before = state.after(steps.drop_last());
        let now = state.after(steps);
        assert(now == before.stepped(steps.last()));
        assert forall|session: Seq<char>| #[trigger]
            now.active_turns.contains_key(session) implies now.completions.contains_key(
            now.active_turns[session],
        ) by {
            if before.active_turns.contains_key(session) {
                assert(before.completions.contains_key(before.active_turns[session]));
            }
        }
    }
}

/// Whatever happens, a user who is logged in stays logged in, and whether sessions may use the
/// documentation server does not change.
pub proof fn logins_last<C, L>(state: AgentState<C, L>, steps: Seq<AgentStep<C, L>>)
    ensures
        state.authenticated ==> state.after(steps).authenticated,
        state.after(steps).openai_docs_mcp == state.openai_docs_mcp,
    decreases steps.len(),
{
    if steps.len() > 0 {
        logins_last(state, steps.drop_last());
        assert(state.after(steps) == state.after(steps.drop_last()).stepped(steps.last()));
    }
}

/// A turn that has begun ends once: the event that reports its end goes to the one who waits for
/// it, as a cancellation exactly where the turn was interrupted. Then the session is in no turn,
/// and a second report finds nobody.
pub proof fn turns_end_once<C, L>(
    state: AgentState<C, L>,
    session: Seq<char>,
    turn: Seq<char>,
    waiter: C,
    message: JsonView,
)
    requires
        message_topic(message) == Topic::TurnCompleted,
        ended_turn(message.get_or_null("params"@)) == turn,
    ensures
        ({
            let params = message.get_or_null("params"@);
            let begun = state.turn_begun(session, turn, waiter);
            let ended = begun.after_event(message);
            &&& begun.active_turns[session] == turn
            &&& begun.event_action(message) == (EventActionView::<C, L>::EndTurn {
                waiter,
                reason: stop_reason(params),
            })
            &&& (stop_reason(params) == StopReason::Cancelled <==> params.text_within(
                "turn"@,
                "status"@,
            ) == Some("interrupted"@))
            &&& !ended.active_turns.contains_key(session)
            &&& ended.event_action(message) == EventActionView::<C, L>::Ignore
        }),
{
}

/// The end of a turn touches no other turn, no session that is in another, and nothing else of
/// the agent.
pub proof fn turns_end_alone<C, L>(state: AgentState<C, L>, message: JsonView)
    requires
        message_topic(message) == Topic::TurnCompleted,
    ensures
        ({
            let turn = ended_turn(message.get_or_null("params"@));
            let ended = state.after_event(message);
            &&& !ended.completions.contains_key(turn)
            &&& forall|session: Seq<char>| #[trigger]
                ended.active_turns.contains_key(session) <==> state.active_turns.contains_key(
                    session,
                ) && state.active_turns[session] != turn
            &&& forall|session: Seq<char>| #[trigger]
                ended.active_turns.contains_key(session) ==> ended.active_turns[session]
                    == state.active_turns[session]
            &&& forall|other: Seq<char>|
                other != turn ==> (#[trigger] ended.completions.contains_key(other)
                    <==> state.completions.contains_key(other))
            &&& forall|other: Seq<char>| #[trigger]
                ended.completions.contains_key(other) ==> ended.completions[other]
                    == state.completions[other]
            &&& ended == (AgentState {
                completions: ended.completions,
                active_turns: ended.active_turns,
                ..state
            })
        }),
{
}

/// A login that has begun ends once: the event that reports its end goes to the one who waits for
/// it, and a second report finds nobody.
pub proof fn logins_end_once<C, L>(
    state: AgentState<C, L>,
    login: Seq<char>,
    waiter: L,
    message: JsonView,
)
    requires
        message_topic(message) == Topic::LoginCompleted,
        message.get_or_null("params"@).text_at("loginId"@) == Some(login),
    ensures
        ({
            let params = message.get_or_null("params"@);
            let begun = state.stepped(AgentStep::BeginLogin(login, waiter));
            let ended = begun.after_event(message);
            &&& begun.event_action(message) == (EventActionView::<C, L>::EndLogin {
                login_waiter: waiter,
                failure: login_failure(params),
            })
            &&& (login_failure(params) is None <==> params.flag_at("success"@) == Some(true))
            &&& ended.event_action(message) == EventActionView::<C, L>::Ignore
        }),
{
}

/// Events that end neither a turn nor a login leave the agent as it is.
pub proof fn other_events_change_nothing<C, L>(state: AgentState<C, L>, message: JsonView)
    requires
        message_topic(message) != Topic::TurnCompleted,
        message_topic(message) != Topic::LoginCompleted,
    ensures
        state.after_event(message) == state,
{
}

/// What is shown for an event, and what is asked for one, concerns the session that the event
/// names; and whoever is asked, the answer goes under the id that the event carries.
pub proof fn events_show_in_their_session<C, L>(state: AgentState<C, L>, message: JsonView)
    ensures
        match state.event_action(message) {
            EventActionView::Show(notification) => notification.session_id == event_session(
                message.get_or_null("params"@),
            ),
            EventActionView::AskPermission { id, request } => Some(id) == message.get("id"@)
                && request.session_id == event_session(message.get_or_null("params"@)),
            EventActionView::AskUser { id, params } => Some(id) == message.get("id"@) && params
                == message.get_or_null("params"@),
            _ => true,
        },
{
}

/// A tool call looks the same when its session is loaded as it did when it began, but for its
/// status; and the event that completes it changes the same call.
pub proof fn replayed_tool_calls_match(item: JsonView, params: JsonView)
    requires
        params.get("item"@) == Some(item),
    ensures
        match (tool_of(item, false), tool_of(item, true)) {
            (Some(begun), Some(replayed)) => begun.status == ToolCallStatus::InProgress && replayed
                == (ToolCallView { status: ToolCallStatus::Completed, ..begun })
                && (completed_call(params) matches Some(update) && update.id == begun.id
                && update.raw_output == Some(begun.raw_input)),
            (None, None) => completed_call(params) is None,
            _ => false,
        },
{
}

/// A stored thread is shown turn by turn: a further turn adds to what is shown and changes nothing
/// of it.
pub proof fn replay_goes_turn_by_turn(
    response: Map<Seq<char>, JsonView>,
    thread: Map<Seq<char>, JsonView>,
    turns: Seq<JsonView>,
    turn: JsonView,
)
    ensures
        ({
            let stored = |turns: Seq<JsonView>|
                JsonView::Object(
                    response.insert(
                        "thread"@,
                        JsonView::Object(thread.insert("turns"@, JsonView::Array(turns))),
                    ),
                );
            replayed_thread(stored(turns.push(turn))) == replayed_thread(stored(turns))
                + replayed_turn(turn, text_or(JsonView::Object(thread).text_at("id"@), ""@))
        }),
{
    reveal_strlit("id");
    reveal_strlit("turns");
    assert("id"@.len() == 2 && "turns"@.len() == 5);
    let session_id = text_or(JsonView::Object(thread).text_at("id"@), ""@);
    let per_turn = |turn: JsonView| replayed_turn(turn, session_id);
    let shorter = JsonView::Object(thread.insert("turns"@, JsonView::Array(turns)));
    let longer = JsonView::Object(thread.insert("turns"@, JsonView::Array(turns.push(turn))));
    assert(shorter.items_at("turns"@) == turns);
    assert(longer.items_at("turns"@) == turns.push(turn));
    assert(text_or(shorter.text_at("id"@), ""@) == session_id);
    assert(text_or(longer.text_at("id"@), ""@) == session_id);
    turns.map_values(per_turn).lemma_flatten_push(per_turn(turn));
    assert(turns.push(turn).map_values(per_turn) =~= turns.map_values(per_turn).push(
        per_turn(turn),
    ));
}

/// What is shown of a stored thread is shown in that thread's session.
pub proof fn replay_stays_in_its_session(response: JsonView, i: int)
    requires
        0 <= i < replayed_thread(response).len(),
    ensures
        Some(replayed_thread(response)[i].session_id) == match response.get("thread"@) {
            Some(thread) => Some(text_or(thread.text_at("id"@), ""@)),
            None => None,
        },
{
    let thread = response.get("thread"@)->0;
    let session_id = text_or(thread.text_at("id"@), ""@);
    let turns = thread.items_at("turns"@);
    let per_turn = |turn: JsonView| replayed_turn(turn, session_id);
    assert(replayed_thread(response) == turns.map_values(per_turn).flatten());
    assert forall|j: int| 0 <= j < turns.len() implies addressed(
        #[trigger] turns.map_values(per_turn)[j],
        session_id,
    ) by {
        lemma_turn_addressed(turns[j].items_at("items"@), session_id);
    }
    lemma_flatten_addressed(turns.map_values(per_turn), session_id);
}

spec fn addressed(shown: Seq<SessionNotificationView>, session_id: Seq<char>) -> bool {
    forall|i: int| 0 <= i < shown.len() ==> (#[trigger] shown[i]).session_id == session_id
}

proof fn lemma_turn_addressed(items: Seq<JsonView>, session_id: Seq<char>)
    ensures
        addressed(
            items.filter_map(
                |item: JsonView|
                    match crate::updates::replayed(item) {
                        Some(update) => Some(SessionNotificationView { session_id, update }),
                        None => None,
                    },
            ),
            session_id,
        ),
    decreases items.len(),
{
    if items.len() > 0 {
        lemma_turn_addressed(items.drop_last(), session_id);
    }
}

proof fn lemma_flatten_addressed(parts: Seq<Seq<SessionNotificationView>>, session_id: Seq<char>)
    requires
        forall|j: int| 0 <= j < parts.len() ==> addressed(#[trigger] parts[j], session_id),
    ensures
        addressed(parts.flatten(), session_id),
    decreases parts.len(),
{
    if parts.len() > 0 {
        assert forall|j: int| 0 <= j < parts.drop_first().len() implies addressed(
            #[trigger] parts.drop_first()[j],
            session_id,
        ) by {
            assert(parts.drop_first()[j] == parts[j + 1]);
        }
        lemma_flatten_addressed(parts.drop_first(), session_id);
        assert(addressed(parts[0], session_id));
    }
}

/// Where the catalog lists any model, new sessions start with one; and the model they start with
/// is always one of those listed.
pub proof fn starting_models_are_listed(response: JsonView)
    ensures
        catalog_models(response).len() > 0 ==> starting_models(response) is Some,
        starting_models(response) matches Some(state) ==> exists|i: int|
            0 <= i < state.available_models.len() && (
            #[trigger] state.available_models[i]).model_id == state.current_model_id,
{
    let entries = response.items_at("data"@);
    let models = catalog_models(response);
    let pick = |model: JsonView| entry_model(model);
    match default_entry(entries) {
        Some(entry) => {
            lemma_default_among(entries);
            if entry_id(entry) is Some {
                let at = choose|at: int| 0 <= at < entries.len() && entries[at] == entry;
                lemma_picked(entries, pick, at);
                let i = choose|i: int| 0 <= i < models.len() && models[i] == entry_model(entry)->0;
                assert(models[i].model_id == entry_id(entry)->0);
            }
        },
        None => {},
    }
    if starting_models(response) is Some && models.len() > 0 && initial_model(response, models)
        == Some(models[0].model_id) {
        assert(starting_models(response)->0.available_models[0].model_id == models[0].model_id);
    }
}

proof fn lemma_default_among(entries: Seq<JsonView>)
    requires
        default_entry(entries) is Some,
    ensures
        exists|at: int| 0 <= at < entries.len() && entries[at] == default_entry(entries)->0,
    decreases entries.len(),
{
    if entries[0].flag_at("isDefault"@) != Some(true) {
        lemma_default_among(entries.skip(1));
        let at = choose|at: int|
            0 <= at < entries.skip(1).len() && entries.skip(1)[at] == default_entry(entries)->0;
        assert(entries[at + 1] == default_entry(entries)->0);
    }
}

proof fn lemma_picked<A, B>(items: Seq<A>, pick: spec_fn(A) -> Option<B>, at: int)
    requires
        0 <= at < items.len(),
        pick(items[at]) is Some,
    ensures
        exists|i: int|
            0 <= i < items.filter_map(pick).len() && items.filter_map(pick)[i] == pick(
                items[at],
            )->0,
    decreases items.len(),
{
    let earlier = items.drop_last();
    if at == items.len() - 1 {
        let i = items.filter_map(pick).len() - 1;
        assert(items.filter_map(pick)[i] == pick(items[at])->0);
    } else {
        lemma_picked(earlier, pick, at);
        let i = choose|i: int|
            0 <= i < earlier.filter_map(pick).len() && earlier.filter_map(pick)[i] == pick(
                earlier[at],
            )->0;
        assert(items.filter_map(pick)[i] == pick(items[at])->0);
    }
}

/// A session lists the whole catalog in its order, and where an effort is given, the model in use
/// is listed with it.
pub proof fn sessions_list_the_catalog(
    models: Seq<CatalogModelView>,
    current: Seq<char>,
    effort: Option<Seq<char>>,
)
    ensures
        session_models(models, current, effort).len() == models.len(),
        forall|i: int|
            0 <= i < models.len() ==> {
                let listed = #[trigger] session_models(models, current, effort)[i];
                &&& listed.model_id == models[i].info.model_id
                &&& listed.name == models[i].info.name
                &&& listed.description == models[i].info.description
                &&& listed.model_id != current ==> listed == models[i].info
            },
        effort matches Some(effort) ==> forall|i: int|
            crate::agent::first_listed(models, current, i) ==> {
                let listed = #[trigger] session_models(models, current, Some(effort))[i];
                listed.meta matches Some(meta) && meta.contains_key("reasoningEffort"@)
                    && meta["reasoningEffort"@] == JsonView::Text(effort)
            },
{
}

/// The model that a session was noted to use is the one that its turns and its mode are set up
/// with, together with its effort: the one asked for, or else that of the catalog.
pub proof fn selections_are_forwarded<C, L>(
    state: AgentState<C, L>,
    session: Seq<char>,
    model: Seq<char>,
    asked: Option<Seq<char>>,
    prompt: Seq<ContentBlockView>,
    prompt_id: Option<Seq<char>>,
    mode: Seq<char>,
)
    ensures
        ({
            let noted = state.select(session, model, asked);
            let effort = text_or_null(effective_effort(asked, state.models, model));
            let turn = noted.turn_call(session, prompt, prompt_id).params;
            let settings = noted.mode_call(session, mode).params.get("collaborationMode"@)->0.get(
                "settings"@,
            )->0;
            &&& turn.get("threadId"@) == Some(JsonView::Text(session))
            &&& turn.get("model"@) == Some(JsonView::Text(model))
            &&& turn.get("effort"@) == Some(effort)
            &&& turn.get("input"@) == Some(JsonView::Array(prompt_input(prompt)))
            &&& turn.get("clientUserMessageId"@) == Some(text_or_null(prompt_id))
            &&& settings.get("model"@) == Some(JsonView::Text(model))
            &&& settings.get("reasoning_effort"@) == Some(effort)
        }),
{
    reveal_strlit("threadId");
    reveal_strlit("input");
    reveal_strlit("model");
    reveal_strlit("effort");
    reveal_strlit("clientUserMessageId");
    reveal_strlit("collaborationMode");
    reveal_strlit("mode");
    reveal_strlit("settings");
    reveal_strlit("reasoning_effort");
    reveal_strlit("developer_instructions");
    assert("threadId"@.len() == 8 && "input"@.len() == 5 && "model"@.len() == 5);
    assert("effort"@.len() == 6 && "clientUserMessageId"@.len() == 19);
    assert("collaborationMode"@.len() == 17 && "mode"@.len() == 4 && "settings"@.len() == 8);
    assert("reasoning_effort"@.len() == 16 && "developer_instructions"@.len() == 22);
    assert("threadId"@[0] != "settings"@[0]);
    assert("input"@[0] != "model"@[0]);
}

/// What one session uses is no matter of another's.
pub proof fn selections_are_separate<C, L>(
    state: AgentState<C, L>,
    session: Seq<char>,
    model: Seq<char>,
    asked: Option<Seq<char>>,
    other: Seq<char>,
    prompt: Seq<ContentBlockView>,
    prompt_id: Option<Seq<char>>,
    mode: Seq<char>,
)
    requires
        other != session,
    ensures
        state.select(session, model, asked).turn_call(other, prompt, prompt_id) == state.turn_call(
            other,
            prompt,
            prompt_id,
        ),
        state.select(session, model, asked).mode_call(other, mode) == state.mode_call(other, mode),
{
}

/// A new thread is started without the documentation server unless it is wanted, and with a model
/// exactly where one is asked for.
pub proof fn threads_start_as_asked(cwd: Seq<char>, openai_docs_mcp: bool, model: Option<Seq<char>>)
    ensures
        ({
            let params = JsonView::Object(new_thread(cwd, openai_docs_mcp, model));
            &&& params.get("cwd"@) == Some(JsonView::Text(cwd))
            &&& (params.get("config"@) is None <==> openai_docs_mcp)
            &&& !openai_docs_mcp ==> params.get("config"@)->0.get(
                "mcp_servers.openaiDeveloperDocs.enabled"@,
            ) == Some(JsonView::Bool(false))
            &&& params.text_at("model"@) == model
            &&& (params.get("model"@) is None <==> model is None)
        }),
{
    reveal_strlit("cwd");
    reveal_strlit("approvalPolicy");
    reveal_strlit("sandbox");
    reveal_strlit("config");
    reveal_strlit("model");
    assert("cwd"@.len() == 3 && "approvalPolicy"@.len() == 14 && "sandbox"@.len() == 7);
    assert("config"@.len() == 6 && "model"@.len() == 5);
}

/// Nothing but its configuration is changed of a thread's parameters, and nothing at all where the
/// documentation server is wanted.
pub proof fn configuring_keeps_the_rest(
    params: Map<Seq<char>, JsonView>,
    openai_docs_mcp: bool,
    key: Seq<char>,
)
    requires
        key != "config"@ || openai_docs_mcp,
    ensures
        JsonView::Object(configured(params, openai_docs_mcp)).get(key) == JsonView::Object(
            params,
        ).get(key),
{
}

/// The parts of a prompt are handed on in order: two prompts, one after the other, are handed on
/// as their parts would be.
pub proof fn prompts_keep_their_order(first: Seq<ContentBlockView>, second: Seq<ContentBlockView>)
    ensures
        prompt_input(first + second) == prompt_input(first) + prompt_input(second),
{
    lemma_picked_in_order(first, second, |block: ContentBlockView| input_of(block));
}

/// The models of a catalog are listed in its order: the entries of two catalogs, one after the
/// other, are listed as those of each would be.
pub proof fn catalogs_keep_their_order(
    response: Map<Seq<char>, JsonView>,
    first: Seq<JsonView>,
    second: Seq<JsonView>,
)
    ensures
        ({
            let listed = |entries: Seq<JsonView>|
                catalog_models(
                    JsonView::Object(response.insert("data"@, JsonView::Array(entries))),
                );
            listed(first + second) == listed(first) + listed(second)
        }),
{
    lemma_picked_in_order(first, second, |model: JsonView| entry_model(model));
}

/// The items of a stored turn are shown in order.
pub proof fn turns_keep_their_order(
    turn: Map<Seq<char>, JsonView>,
    first: Seq<JsonView>,
    second: Seq<JsonView>,
    session_id: Seq<char>,
)
    ensures
        ({
            let shown = |items: Seq<JsonView>|
                replayed_turn(
                    JsonView::Object(turn.insert("items"@, JsonView::Array(items))),
                    session_id,
                );
            shown(first + second) == shown(first) + shown(second)
        }),
{
    lemma_picked_in_order(
        first,
        second,
        |item: JsonView|
            match crate::updates::replayed(item) {
                Some(update) => Some(SessionNotificationView { session_id, update }),
                None => None,
            },
    );
}

proof fn lemma_picked_in_order<A, B>(
    first: Seq<A>,
    second: Seq<A>,
    pick: spec_fn(A) -> Option<B>,
)
    ensures
        (first + second).filter_map(pick) == first.filter_map(pick) + second.filter_map(pick),
    decreases second.len(),
{
    if second.len() == 0 {
        assert(first + second =~= first);
        assert(first.filter_map(pick) + second.filter_map(pick) =~= first.filter_map(pick));
    } else {
        lemma_picked_in_order(first, second.drop_last(), pick);
        assert((first + second).drop_last() =~= first + second.drop_last());
        assert((first + second).last() == second.last());
        assert((first + second).filter_map(pick) =~= first.filter_map(pick) + second.filter_map(
            pick,
        ));
    }
}

/// Every text and every image of a prompt is handed on, and nothing else is.
pub proof fn prompts_are_handed_on(prompt: Seq<ContentBlockView>)
    ensures
        (forall|i: int| 0 <= i < prompt.len() ==> !((#[trigger] prompt[i]) is Other)) ==> (
        prompt_input(prompt).len() == prompt.len() && forall|i: int|
            0 <= i < prompt.len() ==> Some(#[trigger] prompt_input(prompt)[i]) == input_of(
                prompt[i],
            )),
        prompt_input(prompt).len() <= prompt.len(),
    decreases prompt.len(),
{
    if prompt.len() > 0 {
        let earlier = prompt.drop_last();
        prompts_are_handed_on(earlier);
        if forall|i: int| 0 <= i < prompt.len() ==> !((#[trigger] prompt[i]) is Other) {
            assert forall|i: int| 0 <= i < earlier.len() implies !((
            #[trigger] earlier[i]) is Other) by {
                assert(prompt[i] == earlier[i]);
            }
            assert(!(prompt[prompt.len() - 1] is Other));
            assert forall|i: int| 0 <= i < prompt.len() implies Some(
                #[trigger] prompt_input(prompt)[i],
            ) == input_of(prompt[i]) by {
                if i < earlier.len() {
                    assert(prompt_input(prompt)[i] == prompt_input(earlier)[i]);
                    assert(earlier[i] == prompt[i]);
                }
            }
        }
    }
}

/// A request with a secret question is refused and never put to the user.
pub proof fn secret_questions_are_refused(id: JsonView, request: UserInputView, i: int)
    requires
        0 <= i < request.questions.len(),
        request.questions[i].is_secret,
    ensures
        first_step(id, Ok(request)) is Refuse,
        !blank(request.thread_id) && !blank(request.turn_id) && !blank(request.item_id)
            ==> first_step(id, Ok(request)) == UserInputStepView::Refuse(
            error_message(id, -32602, UserInputError::SecretQuestion.text()),
        ),
{
    let is_secret = |question: AskedView| question.is_secret;
    assert(is_secret(request.questions[i]));
    assert(request.questions.any(is_secret));
}

/// A request is put to the user exactly where its three ids say something, and it has questions,
/// each of them open to a free answer, with options to choose from, and no secret.
pub proof fn sound_requests_are_asked(id: JsonView, request: UserInputView)
    ensures
        first_step(id, Ok(request)) == UserInputStepView::Ask(request) <==> {
            &&& !blank(request.thread_id) && !blank(request.turn_id) && !blank(request.item_id)
            &&& request.questions.len() > 0
            &&& forall|i: int|
                0 <= i < request.questions.len() ==> {
                    let question = #[trigger] request.questions[i];
                    !question.is_secret && question.is_other && question.has_options()
                }
        },
{
    let questions = request.questions;
    let is_secret = |question: AskedView| question.is_secret;
    let is_closed = |question: AskedView| !question.is_other;
    let offers_none = |question: AskedView| !question.has_options();
    if request.fault() is None {
        assert forall|i: int| 0 <= i < questions.len() implies {
            let question = #[trigger] questions[i];
            !question.is_secret && question.is_other && question.has_options()
        } by {
            let question = questions[i];
            assert(!questions.any(is_secret) && !questions.any(is_closed) && !questions.any(
                offers_none,
            ));
            if question.is_secret {
                assert(is_secret(questions[i]));
            }
            if !question.is_other {
                assert(is_closed(questions[i]));
            }
            if !question.has_options() {
                assert(offers_none(questions[i]));
            }
        }
    }
}

/// Whatever becomes of a request of the app-server, its answer carries its own id: one that is
/// refused, one whose question ended, and one for permission.
pub proof fn answers_carry_the_id_asked_under(
    id: JsonView,
    params: Result<UserInputView, Seq<char>>,
    request: UserInputView,
    outcome: AskOutcomeView,
    decision: Seq<char>,
)
    ensures
        first_step(id, params) matches UserInputStepView::Refuse(message) ==> message.get("id"@)
            == Some(id),
        user_input_answer(id, request, outcome).get("id"@) == Some(id),
        decision_message(id, decision).get("id"@) == Some(id),
{
    reveal_strlit("id");
    reveal_strlit("error");
    reveal_strlit("result");
    assert("id"@.len() == 2 && "error"@.len() == 5 && "result"@.len() == 6);
}

/// The pager is asked the request's questions, in their order, each with its id and its options,
/// for the session and the item that the request names.
pub proof fn questions_are_put_as_asked(request: UserInputView)
    ensures
        asked_of_pager(request).session_id == request.thread_id,
        asked_of_pager(request).tool_call_id == request.item_id,
        asked_of_pager(request).questions.len() == request.questions.len(),
        forall|i: int|
            0 <= i < request.questions.len() ==> {
                let asked = request.questions[i];
                let put = #[trigger] asked_of_pager(request).questions[i];
                &&& put.id == Some(asked.id)
                &&& put.multi_select == Some(false)
                &&& asked.options matches Some(options) ==> put.options.len() == options.len()
                    && forall|j: int|
                    0 <= j < options.len() ==> (#[trigger] put.options[j]).label == options[j].label
                        && put.options[j].description == options[j].description
            },
{
}

/// A question that ran out of time, and one that the user declined, are answered alike: with no
/// answers.
pub proof fn unanswered_questions_have_no_answers(id: JsonView, request: UserInputView)
    ensures
        user_input_answer(id, request, AskOutcomeView::TimedOut) == result_message(
            id,
            answers_json(Map::<Seq<char>, Seq<Seq<char>>>::empty()),
        ),
        user_input_answer(id, request, AskOutcomeView::Replied(AskReplyView::Declined))
            == user_input_answer(id, request, AskOutcomeView::TimedOut),
{
}

/// The app-server gets answers under the ids of its questions only, and under that of every
/// question for which the user gave an answer.
pub proof fn answers_stand_under_question_ids(
    request: UserInputView,
    answers: Map<Seq<char>, Seq<Seq<char>>>,
    notes: Map<Seq<char>, Seq<char>>,
    id: Seq<char>,
)
    ensures
        user_input_answers(request, AskReplyView::Accepted { answers, notes }).contains_key(id)
            <==> exists|i: int|
            0 <= i < request.questions.len() && (#[trigger] request.questions[i]).id == id
                && answer_key(request.questions[i], answers) is Some,
{
    lemma_collected_keys(request.questions, answers, notes, id);
}

proof fn lemma_collected_keys(
    questions: Seq<AskedView>,
    answers: Map<Seq<char>, Seq<Seq<char>>>,
    notes: Map<Seq<char>, Seq<char>>,
    id: Seq<char>,
)
    ensures
        collected(questions, answers, notes).contains_key(id) <==> exists|i: int|
            0 <= i < questions.len() && (#[trigger] questions[i]).id == id && answer_key(
                questions[i],
                answers,
            ) is Some,
    decreases questions.len(),
{
    if questions.len() > 0 {
        let earlier = questions.drop_last();
        lemma_collected_keys(earlier, answers, notes, id);
        if collected(earlier, answers, notes).contains_key(id) {
            let i = choose|i: int|
                0 <= i < earlier.len() && (#[trigger] earlier[i]).id == id && answer_key(
                    earlier[i],
                    answers,
                ) is Some;
            assert(questions[i] == earlier[i]);
        }
        if exists|i: int|
            0 <= i < questions.len() && (#[trigger] questions[i]).id == id && answer_key(
                questions[i],
                answers,
            ) is Some {
            let i = choose|i: int|
                0 <= i < questions.len() && (#[trigger] questions[i]).id == id && answer_key(
                    questions[i],
                    answers,
                ) is Some;
            if i < earlier.len() {
                assert(earlier[i] == questions[i]);
            }
        }
    }
}

/// The answers of a question are the ones the user gave to it, with the user's note; where two
/// questions share an id, those of the later one.
pub proof fn answers_are_the_users(
    request: UserInputView,
    answers: Map<Seq<char>, Seq<Seq<char>>>,
    notes: Map<Seq<char>, Seq<char>>,
    i: int,
)
    requires
        0 <= i < request.questions.len(),
        answer_key(request.questions[i], answers) is Some,
        forall|j: int|
            i < j < request.questions.len() ==> (#[trigger] request.questions[j]).id
                != request.questions[i].id,
    ensures
        ({
            let question = request.questions[i];
            let key = answer_key(question, answers)->0;
            user_input_answers(request, AskReplyView::Accepted { answers, notes })[question.id]
                == annotated(
                answers[key],
                if notes.contains_key(key) {
                    Some(notes[key])
                } else {
                    None
                },
            )
        }),
{
    lemma_collected_answer(request.questions, answers, notes, i);
}

proof fn lemma_collected_answer(
    questions: Seq<AskedView>,
    answers: Map<Seq<char>, Seq<Seq<char>>>,
    notes: Map<Seq<char>, Seq<char>>,
    i: int,
)
    requires
        0 <= i < questions.len(),
        answer_key(questions[i], answers) is Some,
        forall|j: int| i < j < questions.len() ==> (#[trigger] questions[j]).id != questions[i].id,
    ensures
        ({
            let key = answer_key(questions[i], answers)->0;
            collected(questions, answers, notes)[questions[i].id] == annotated(
                answers[key],
                if notes.contains_key(key) {
                    Some(notes[key])
                } else {
                    None
                },
            )
        }),
    decreases questions.len(),
{
    let earlier = questions.drop_last();
    if i < earlier.len() {
        assert(questions.last() == questions[questions.len() - 1]);
        assert(questions.last().id != questions[i].id);
        lemma_collected_answer(earlier, answers, notes, i);
        lemma_collected_keys(earlier, answers, notes, questions[i].id);
        assert(earlier[i] == questions[i]);
    }
}

/// A note that says something is among the answers, a blank one changes nothing, and no answer
/// but the first `Other` makes way for a note.
pub proof fn notes_join_the_answers(chosen: Seq<Seq<char>>, note: Seq<char>)
    ensures
        blank(note) ==> annotated(chosen, Some(note)) == chosen,
        !blank(note) ==> annotated(chosen, Some(note)).contains(note),
        !blank(note) && chosen.contains("Other"@) ==> annotated(chosen, Some(note)).len()
            == chosen.len(),
        !blank(note) && !chosen.contains("Other"@) ==> annotated(chosen, Some(note))
            == chosen.push(note),
        forall|i: int|
            0 <= i < chosen.len() && chosen[i] != "Other"@ ==> #[trigger] annotated(
                chosen,
                Some(note),
            )[i] == chosen[i],
{
    chosen.index_of_first_ensures("Other"@);
    if !blank(note) {
        match chosen.index_of_first("Other"@) {
            Some(at) => {
                assert(chosen.contains("Other"@));
                assert(annotated(chosen, Some(note))[at] == note);
            },
            None => {
                assert(!chosen.contains("Other"@));
                assert(annotated(chosen, Some(note))[chosen.len() as int] == note);
            },
        }
    }
}

/// What was said of a request by the time that it has come to this stage.
spec fn course(state: DialogState, said: Seq<DialogActionView>) -> bool {
    let announce = DialogActionView::Announce(pending_notice(state.request));
    let ask = DialogActionView::Ask(question_of(state.request));
    let resolve = DialogActionView::Resolve(resolved_notice(state.request));
    let sound = state.request.fault() is None;
    match state.stage {
        DialogStageView::Fresh => said == Seq::<DialogActionView>::empty(),
        DialogStageView::Announced => sound && said == seq![announce],
        DialogStageView::Asked => sound && said == seq![announce, ask],
        DialogStageView::Resolved(answer) => sound && said == seq![announce, ask, resolve]
            && ends_with(state, answer),
        DialogStageView::Closed => {
            ||| said == Seq::<DialogActionView>::empty()
            ||| !sound && said.len() == 1 && said[0] is Answer
            ||| sound && said == seq![announce, resolve]
            ||| sound && said == seq![announce, ask, resolve]
            ||| sound && said.len() == 4 && said[3] is Answer && said == seq![
                announce,
                ask,
                resolve,
                said[3],
            ] && ends_with(state, said[3]->Answer_0)
        },
    }
}

/// The answer is that to the request, for some way in which its question ended.
pub open spec fn ends_with(state: DialogState, answer: JsonView) -> bool {
    exists|outcome: AskOutcomeView| answer == #[trigger] user_input_answer(
        state.id,
        state.request,
        outcome,
    )
}

proof fn lemma_course(id: JsonView, request: UserInputView, events: Seq<DialogEventView>)
    ensures
        ({
            let fresh = DialogState::fresh(id, request);
            &&& fresh.after(events).id == id
            &&& fresh.after(events).request == request
            &&& course(fresh.after(events), fresh.actions(events))
        }),
    decreases events.len(),
{
    if events.len() > 0 {
        lemma_course(id, request, events.drop_last());
        let fresh = DialogState::fresh(id, request);
        let before = fresh.after(events.drop_last());
        let earlier = fresh.actions(events.drop_last());
        let said = fresh.actions(events);
        let announce = DialogActionView::Announce(pending_notice(request));
        let ask = DialogActionView::Ask(question_of(request));
        let resolve = DialogActionView::Resolve(resolved_notice(request));
        assert(fresh.after(events) == before.advanced(events.last()));
        let action = before.action(events.last());
        if action is Rest {
            assert(said == earlier);
        } else {
            assert(said == earlier.push(action));
            match before.stage {
                DialogStageView::Fresh => {
                    assert(said =~= seq![action]);
                },
                DialogStageView::Announced => {
                    assert(said =~= seq![announce, action]);
                },
                DialogStageView::Asked => {
                    assert(said =~= seq![announce, ask, resolve]);
                },
                DialogStageView::Resolved(_) => {
                    assert(said =~= seq![announce, ask, resolve, action]);
                },
                DialogStageView::Closed => {},
            }
        }
    }
}

/// Whatever happens to a request, in whatever order: a question is put at most once, and right
/// after the one notice that it waits; that it waits no longer is said at most once, and only of a
/// question that was announced; and an answer to the question comes right after that.
pub proof fn questions_are_bracketed(
    id: JsonView,
    request: UserInputView,
    events: Seq<DialogEventView>,
    i: int,
)
    requires
        0 <= i < DialogState::fresh(id, request).actions(events).len(),
    ensures
        ({
            let state = DialogState::fresh(id, request);
            let said = state.actions(events);
            &&& said[i] is Announce ==> i == 0 && said[i] == DialogActionView::Announce(
                pending_notice(request),
            )
            &&& said[i] is Ask ==> i == 1 && said[0] is Announce && said[i]
                == DialogActionView::Ask(question_of(request))
            &&& said[i] is Resolve ==> said[0] is Announce && (i == 1 || i == 2 && said[1] is Ask)
                && said[i] == DialogActionView::Resolve(resolved_notice(request))
            &&& said[i] is Resolve ==> forall|j: int|
                0 <= j < said.len() && (#[trigger] said[j]) is Resolve ==> j == i
            &&& said[i] is Answer && request.fault() is None ==> i == 3 && said[2] is Resolve
                && ends_with(state, said[i]->Answer_0)
            &&& request.fault() is Some ==> said.len() == 1 && said[i] is Answer
        }),
{
    lemma_course(id, request, events);
    let state = DialogState::fresh(id, request);
    let end = state.after(events);
    assert forall|answer: JsonView| #[trigger] ends_with(end, answer) implies ends_with(
        state,
        answer,
    ) by {
        let outcome = choose|outcome: AskOutcomeView| answer == #[trigger] user_input_answer(
            end.id,
            end.request,
            outcome,
        );
        assert(answer == user_input_answer(state.id, state.request, outcome));
    }
}

/// A question that was announced is resolved by the time that nothing is left to say of it; and
/// that is so at the latest once it is dropped, whenever that happens.
pub proof fn announced_questions_are_resolved(
    id: JsonView,
    request: UserInputView,
    events: Seq<DialogEventView>,
)
    ensures
        ({
            let state = DialogState::fresh(id, request);
            let said = state.actions(events);
            state.after(events).stage is Closed && said.len() > 0 && said[0] is Announce ==> (
            said.len() == 2 && said[1] is Resolve) || (said.len() > 2 && said[2] is Resolve)
        }),
        DialogState::fresh(id, request).after(
            events.push(DialogEventView::Dropped),
        ).stage is Closed,
{
    lemma_course(id, request, events);
    assert(events.push(DialogEventView::Dropped).drop_last() =~= events);
}

/// A sound request whose question ends is announced, put, resolved and answered, in this order, and
/// the answer is that to the question; where it is dropped on the way, it is resolved and not
/// answered.
pub proof fn questions_run_their_course(
    id: JsonView,
    request: UserInputView,
    outcome: AskOutcomeView,
)
    requires
        request.fault() is None,
    ensures
        ({
            let state = DialogState::fresh(id, request);
            let announce = DialogActionView::Announce(pending_notice(request));
            let ask = DialogActionView::Ask(question_of(request));
            let resolve = DialogActionView::Resolve(resolved_notice(request));
            let begin = DialogEventView::Begin;
            let sent = DialogEventView::Sent;
            let ended = DialogEventView::Ended(outcome);
            let dropped = DialogEventView::Dropped;
            &&& state.actions(seq![begin, sent, ended, sent]) == seq![
                announce,
                ask,
                resolve,
                DialogActionView::Answer(user_input_answer(id, request, outcome)),
            ]
            &&& state.actions(seq![begin, sent, dropped]) == seq![announce, ask, resolve]
            &&& state.actions(seq![begin, dropped]) == seq![announce, resolve]
        }),
{
    let begin = DialogEventView::Begin;
    let sent = DialogEventView::Sent;
    let ended = DialogEventView::Ended(outcome);
    let dropped = DialogEventView::Dropped;
    assert(seq![begin].drop_last() =~= Seq::<DialogEventView>::empty());
    assert(seq![begin, sent].drop_last() =~= seq![begin]);
    assert(seq![begin, dropped].drop_last() =~= seq![begin]);
    assert(seq![begin, sent, dropped].drop_last() =~= seq![begin, sent]);
    assert(seq![begin, sent, ended].drop_last() =~= seq![begin, sent]);
    assert(seq![begin, sent, ended, sent].drop_last() =~= seq![begin, sent, ended]);
    reveal_with_fuel(DialogState::after, 5);
    reveal_with_fuel(DialogState::actions, 5);
}

/// The notices that open and close a question concern the same session and the same item.
pub proof fn question_notices_pair_up(request: UserInputView)
    ensures
        ({
            let opened = pending_notice(request);
            let closed = resolved_notice(request);
            &&& opened.method == closed.method
            &&& opened.params.get("sessionId"@) == Some(JsonView::Text(request.thread_id))
            &&& closed.params.get("sessionId"@) == opened.params.get("sessionId"@)
            &&& opened.params.text_within("update"@, "tool_call_id"@) == Some(request.item_id)
            &&& closed.params.text_within("update"@, "tool_call_id"@)
                == opened.params.text_within("update"@, "tool_call_id"@)
            &&& opened.params.text_within("update"@, "sessionUpdate"@)
                == Some("pending_interaction"@)
            &&& closed.params.text_within("update"@, "sessionUpdate"@)
                == Some("interaction_resolved"@)
        }),
{
    reveal_strlit("sessionId");
    reveal_strlit("update");
    reveal_strlit("sessionUpdate");
    reveal_strlit("tool_call_id");
    reveal_strlit("kind");
    assert("sessionId"@.len() == 9 && "update"@.len() == 6 && "sessionUpdate"@.len() == 13);
    assert("tool_call_id"@.len() == 12 && "kind"@.len() == 4);
}

} // verus!
