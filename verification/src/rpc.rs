//! Requests to the app-server and the replies that answer them.

use std::collections::HashMap;

use vstd::prelude::*;

use crate::json::{parsed, rendered, Json, JsonObject, JsonView};
use crate::text::concat;

verus! {

/// A call that the app-server is asked to perform.
#[derive(Debug, PartialEq)]
pub struct RpcCall {
    pub method: String,
    pub params: Json,
}

pub struct RpcCallView {
    pub method: Seq<char>,
    pub params: JsonView,
}

impl View for RpcCall {
    type V = RpcCallView;

    open spec fn view(&self) -> RpcCallView {
        RpcCallView { method: self.method@, params: self.params@ }
    }
}

impl RpcCall {
    pub fn new(method: &str, params: Json) -> (call: Self)
        ensures
            call@ == (RpcCallView { method: method@, params: params@ }),
    {
        RpcCall { method: method.to_owned(), params }
    }
}

/// Why a request got no result.
#[derive(Debug, PartialEq)]
pub enum RpcError {
    /// The app-server no longer takes requests.
    Stopped,
    /// Writing to the app-server failed.
    InputClosed,
    /// The app-server closed its output.
    OutputClosed,
    /// The app-server answered with this error value.
    Server(Json),
}

pub enum RpcErrorView {
    Stopped,
    InputClosed,
    OutputClosed,
    Server(JsonView),
}

impl View for RpcError {
    type V = RpcErrorView;

    open spec fn view(&self) -> RpcErrorView {
        match self {
            RpcError::Stopped => RpcErrorView::Stopped,
            RpcError::InputClosed => RpcErrorView::InputClosed,
            RpcError::OutputClosed => RpcErrorView::OutputClosed,
            RpcError::Server(error) => RpcErrorView::Server(error@),
        }
    }
}

impl RpcErrorView {
    /// The text shown for the error.
    pub open spec fn message(self) -> Seq<char> {
        match self {
            RpcErrorView::Stopped => "Codex app-server stopped"@,
            RpcErrorView::InputClosed => "Codex app-server input closed"@,
            RpcErrorView::OutputClosed => "Codex app-server closed its output"@,
            RpcErrorView::Server(error) => "Codex app-server error: "@ + rendered(error),
        }
    }
}

impl RpcError {
    /// The text shown for the error.
    pub fn message(&self) -> (text: String)
        ensures
            text@ == self@.message(),
    {
        match self {
            RpcError::Stopped => "Codex app-server stopped".to_owned(),
            RpcError::InputClosed => "Codex app-server input closed".to_owned(),
            RpcError::OutputClosed => "Codex app-server closed its output".to_owned(),
            RpcError::Server(error) => concat("Codex app-server error: ", error.render().as_str()),
        }
    }
}

/// The message that makes a call under the number `id`.
pub open spec fn request_message(id: u64, call: RpcCallView) -> JsonView {
    JsonView::Object(
        Map::<Seq<char>, JsonView>::empty().insert("id"@, JsonView::Integer(id as int)).insert(
            "method"@,
            JsonView::Text(call.method),
        ).insert("params"@, call.params),
    )
}

/// The message that makes a call which nobody answers.
pub open spec fn notification_message(call: RpcCallView) -> JsonView {
    JsonView::Object(
        Map::<Seq<char>, JsonView>::empty().insert("method"@, JsonView::Text(call.method)).insert(
            "params"@,
            call.params,
        ),
    )
}

/// The message that answers the app-server's request `id` with a result.
pub open spec fn result_message(id: JsonView, result: JsonView) -> JsonView {
    JsonView::Object(
        Map::<Seq<char>, JsonView>::empty().insert("id"@, id).insert("result"@, result),
    )
}

/// The message that answers the app-server's request `id` with an error.
pub open spec fn error_message(id: JsonView, code: int, text: Seq<char>) -> JsonView {
    JsonView::Object(
        Map::<Seq<char>, JsonView>::empty().insert("id"@, id).insert(
            "error"@,
            JsonView::Object(
                Map::<Seq<char>, JsonView>::empty().insert("code"@, JsonView::Integer(code)).insert(
                    "message"@,
                    JsonView::Text(text),
                ),
            ),
        ),
    )
}

/// The line that carries a message: its compact text and a line break, which is the only one.
pub fn encode_line(message: &Json) -> (line: String)
    ensures
        line@ == rendered(message@).push('\n'),
        forall|i: int| 0 <= i < line@.len() - 1 ==> #[trigger] line@[i] != '\n',
        message@.plain(127) ==> parsed(line@.drop_last()) == Some(message@),
{
    let mut line = message.render();
    let ghost text = line@;
    line.append("\n");
    proof {
        reveal_strlit("\n");
        assert(line@ =~= text.push('\n'));
        assert(line@.drop_last() =~= text);
        assert forall|i: int| 0 <= i < line@.len() - 1 implies #[trigger] line@[i] != '\n' by {
            assert(text[i] == line@[i]);
            assert(text.contains(text[i]));
        }
    }
    line
}

/// The state of the connection: the number of the next request, whether the connection is
/// closed, and who waits for the reply to which request.
pub ghost struct RpcState<W> {
    pub next_id: nat,
    pub closed: bool,
    pub pending: Map<u64, W>,
}

impl<W> RpcState<W> {
    /// The state of an open connection on which no request was made yet.
    pub open spec fn opened() -> Self {
        RpcState { next_id: 1, closed: false, pending: Map::empty() }
    }

    /// What a request comes to: its message, under the next number, or the refusal of a closed
    /// connection.
    pub open spec fn request_result(self, call: RpcCallView) -> Result<JsonView, RpcErrorView> {
        if self.closed {
            Err(RpcErrorView::Stopped)
        } else {
            Ok(request_message(self.next_id as u64, call))
        }
    }

    /// Only requests that were made are pending.
    pub open spec fn valid(self) -> bool {
        forall|id: u64| #[trigger] self.pending.contains_key(id) ==> id < self.next_id
    }

    /// The state once a request was made for `waiter`.
    pub open spec fn requested(self, waiter: W) -> Self {
        RpcState {
            next_id: self.next_id + 1,
            pending: self.pending.insert(self.next_id as u64, waiter),
            ..self
        }
    }

    /// The state without the request `id`.
    pub open spec fn without(self, id: u64) -> Self {
        RpcState { pending: self.pending.remove(id), ..self }
    }

    /// The state once the connection is closed and every waiter was let go.
    pub open spec fn shut(self) -> Self {
        RpcState { closed: true, pending: Map::empty(), ..self }
    }

    proof fn lemma_requested_valid(self, waiter: W)
        requires
            self.valid(),
            self.next_id < u64::MAX,
        ensures
            self.requested(waiter).valid(),
    {
        assert forall|id: u64| #[trigger] self.requested(waiter).pending.contains_key(id) implies id
            < self.requested(waiter).next_id by {
            if id != self.next_id as u64 {
                assert(self.pending.contains_key(id));
            }
        }
    }

    proof fn lemma_without_valid(self, id: u64)
        requires
            self.valid(),
        ensures
            self.without(id).valid(),
    {
        assert forall|other: u64| #[trigger] self.without(id).pending.contains_key(
            other,
        ) implies other < self.next_id by {
            assert(self.pending.contains_key(other));
        }
    }

    /// The pending request that a message answers.
    pub open spec fn answered(self, message: JsonView) -> Option<u64> {
        match (message.get("method"@), message.unsigned_at("id"@)) {
            (None, Some(id)) => if self.pending.contains_key(id) {
                Some(id)
            } else {
                None
            },
            _ => None,
        }
    }

    /// What becomes of a message from the app-server.
    pub open spec fn inbound(self, message: JsonView) -> InboundView<W> {
        if message.get("method"@) is Some {
            InboundView::Event(message)
        } else {
            match self.answered(message) {
                Some(id) => InboundView::Reply(self.pending[id], reply_result(message)),
                None => InboundView::Unmatched,
            }
        }
    }

    /// The state once a message from the app-server was taken in.
    pub open spec fn received(self, message: JsonView) -> Self {
        match self.answered(message) {
            Some(id) => self.without(id),
            None => self,
        }
    }
}

/// What a reply says: its error where it has one, else its result, else null.
pub open spec fn reply_result(message: JsonView) -> Result<JsonView, RpcErrorView> {
    match message.get("error"@) {
        Some(error) => Err(RpcErrorView::Server(error)),
        None => Ok(message.get_or_null("result"@)),
    }
}

/// What becomes of a line from the app-server.
pub enum Inbound<W> {
    /// The line is no JSON text.
    Invalid,
    /// An event or a request of the app-server.
    Event(Json),
    /// The reply that `waiter` waits for.
    Reply { waiter: W, result: Result<Json, RpcError> },
    /// A message that nobody waits for.
    Unmatched,
}

pub ghost enum InboundView<W> {
    Invalid,
    Event(JsonView),
    Reply(W, Result<JsonView, RpcErrorView>),
    Unmatched,
}

impl<W> View for Inbound<W> {
    type V = InboundView<W>;

    open spec fn view(&self) -> InboundView<W> {
        match self {
            Inbound::Invalid => InboundView::Invalid,
            Inbound::Event(message) => InboundView::Event(message@),
            Inbound::Reply { waiter, result } => InboundView::Reply(
                *waiter,
                match result {
                    Ok(value) => Ok(value@),
                    Err(error) => Err(error@),
                },
            ),
            Inbound::Unmatched => InboundView::Unmatched,
        }
    }
}

/// The connection's side of the requests. `W` is whatever the caller waits with.
pub struct CodexRpc<W> {
    next_id: u64,
    closed: bool,
    pending: HashMap<u64, W>,
}

impl<W> View for CodexRpc<W> {
    type V = RpcState<W>;

    closed spec fn view(&self) -> RpcState<W> {
        RpcState { next_id: self.next_id as nat, closed: self.closed, pending: self.pending@ }
    }
}

/// A request that was entered: the message to send and the number it goes under.
#[derive(Debug, PartialEq)]
pub struct PendingRequest {
    pub id: u64,
    pub message: Json,
}

/// The side of the connection that ended, as the app-server sees it.
#[derive(Clone, Copy, Debug, PartialEq, Eq, Structural)]
pub enum Side {
    Input,
    Output,
}

/// Those who waited for a reply when the connection was closed, and the error they get.
pub struct Dropped<W> {
    pub waiters: HashMap<u64, W>,
    pub error: RpcError,
}

impl<W> CodexRpc<W> {
    /// An open connection with no request made yet.
    pub fn new() -> (rpc: Self)
        ensures
            rpc@ == RpcState::<W>::opened(),
            rpc@.valid(),
    {
        CodexRpc { next_id: 1, closed: false, pending: HashMap::new() }
    }

    /// Whether the connection is closed.
    pub fn is_closed(&self) -> (closed: bool)
        ensures
            closed == self@.closed,
    {
        self.closed
    }

    /// The number of the next request.
    pub fn next_id(&self) -> (id: u64)
        ensures
            id == self@.next_id,
    {
        self.next_id
    }

    /// Enters a request: refused once the connection is closed, else numbered freshly. An open
    /// connection needs a number that is left.
    pub fn request(&mut self, call: RpcCall, waiter: W) -> (result: Result<
        PendingRequest,
        RpcError,
    >)
        requires
            old(self)@.valid(),
            old(self)@.closed || old(self)@.next_id < u64::MAX,
        ensures
            final(self)@.valid(),
            match result {
                Ok(request) => !old(self)@.closed && request.id == old(self)@.next_id
                    && !old(self)@.pending.contains_key(request.id) && Ok::<JsonView, RpcErrorView>(
                    request.message@,
                ) == old(self)@.request_result(call@) && final(self)@ == old(self)@.requested(
                    waiter,
                ),
                Err(error) => old(self)@.closed && Err::<JsonView, RpcErrorView>(error@) == old(
                    self,
                )@.request_result(call@) && final(self)@ == old(self)@,
            },
    {
        broadcast use vstd::std_specs::hash::group_hash_axioms;

        if self.closed {
            return Err(RpcError::Stopped);
        }
        let id: u64 = self.next_id;
        self.next_id = id + 1;
        self.pending.insert(id, waiter);
        let message = Json::Object(
            JsonObject::new().with("id", Json::Unsigned(id)).with(
                "method",
                Json::Text(call.method),
            ).with("params", call.params),
        );
        proof {
            old(self)@.lemma_requested_valid(waiter);
        }
        Ok(PendingRequest { id, message })
    }

    /// Withdraws a request that could not be sent, and says why it failed.
    pub fn abandon(&mut self, id: u64) -> (error: RpcError)
        requires
            old(self)@.valid(),
        ensures
            final(self)@.valid(),
            final(self)@ == old(self)@.without(id),
            error@ == RpcErrorView::Stopped,
    {
        broadcast use vstd::std_specs::hash::group_hash_axioms;

        self.pending.remove(&id);
        assert(self@ == old(self)@.without(id));
        proof {
            old(self)@.lemma_without_valid(id);
        }
        RpcError::Stopped
    }

    /// Takes in a message from the app-server. One with a method is an event; else the request
    /// that it answers is settled.
    pub fn receive(&mut self, message: Json) -> (inbound: Inbound<W>)
        requires
            old(self)@.valid(),
        ensures
            final(self)@.valid(),
            inbound@ == old(self)@.inbound(message@),
            final(self)@ == old(self)@.received(message@),
    {
        broadcast use vstd::std_specs::hash::group_hash_axioms;

        if message.get("method").is_some() {
            return Inbound::Event(message);
        }
        match message.get_u64("id") {
            Some(id) => match self.pending.remove(&id) {
                Some(waiter) => {
                    let result = match message.get("error") {
                        Some(error) => Err(RpcError::Server(error.clone())),
                        None => Ok(Json::copy_or_null(message.get("result"))),
                    };
                    Inbound::Reply { waiter, result }
                },
                None => {
                    assert(self@.pending =~= old(self)@.pending);
                    Inbound::Unmatched
                },
            },
            None => Inbound::Unmatched,
        }
    }

    /// Takes in a line from the app-server. A line that is no JSON text changes nothing.
    pub fn receive_line(&mut self, line: &str) -> (inbound: Inbound<W>)
        requires
            old(self)@.valid(),
        ensures
            final(self)@.valid(),
            match parsed(line@) {
                Some(message) => inbound@ == old(self)@.inbound(message) && final(self)@ == old(
                    self,
                )@.received(message),
                None => inbound@ == InboundView::<W>::Invalid && final(self)@ == old(self)@,
            },
    {
        match Json::parse(line) {
            Some(message) => self.receive(message),
            None => Inbound::Invalid,
        }
    }

    /// Closes the connection, one side of which has ended, and hands out everyone who still waits
    /// with the error that all of them get.
    pub fn close(&mut self, side: Side) -> (dropped: Dropped<W>)
        requires
            old(self)@.valid(),
        ensures
            final(self)@.valid(),
            final(self)@ == old(self)@.shut(),
            dropped.waiters@ == old(self)@.pending,
            dropped.error@ == match side {
                Side::Input => RpcErrorView::InputClosed,
                Side::Output => RpcErrorView::OutputClosed,
            },
    {
        broadcast use vstd::std_specs::hash::group_hash_axioms;

        self.closed = true;
        Dropped {
            waiters: self.fail_pending(),
            error: match side {
                Side::Input => RpcError::InputClosed,
                Side::Output => RpcError::OutputClosed,
            },
        }
    }

    /// Hands out everyone who still waits.
    fn fail_pending(&mut self) -> (waiters: HashMap<u64, W>)
        ensures
            final(self)@ == (RpcState { pending: Map::<u64, W>::empty(), ..old(self)@ }),
            waiters@ == old(self)@.pending,
    {
        let mut waiters: HashMap<u64, W> = HashMap::new();
        std::mem::swap(&mut waiters, &mut self.pending);
        waiters
    }
}

/// The message of a call that nobody answers.
pub fn notify(call: RpcCall) -> (message: Json)
    ensures
        message@ == notification_message(call@),
{
    Json::Object(
        JsonObject::new().with("method", Json::Text(call.method)).with("params", call.params),
    )
}

/// The message that answers the app-server's request `id` with a result.
pub fn respond(id: Json, result: Json) -> (message: Json)
    ensures
        message@ == result_message(id@, result@),
{
    Json::Object(JsonObject::new().with("id", id).with("result", result))
}

/// The message that answers the app-server's request `id` with an error.
pub fn respond_error(id: Json, code: i64, text: &str) -> (message: Json)
    ensures
        message@ == error_message(id@, code as int, text@),
{
    let error = JsonObject::new().with("code", Json::Negative(code)).with(
        "message",
        Json::text(text),
    );
    Json::Object(JsonObject::new().with("id", id).with("error", Json::Object(error)))
}

} // verus!
