//! What the pager is shown of a session: messages, thoughts and tool calls.

use vstd::prelude::*;

use crate::json::{Json, JsonView};
use crate::text::{join, joined, optional, views};

verus! {

/// What sort of work a tool does.
#[derive(Clone, Copy, Debug, PartialEq, Eq, Structural)]
pub enum ToolKind {
    Execute,
    Edit,
    Search,
    Other,
}

/// How far a tool call has come.
#[derive(Clone, Copy, Debug, PartialEq, Eq, Structural)]
pub enum ToolCallStatus {
    InProgress,
    Completed,
}

/// A tool call, as it is first shown.
#[derive(Debug, PartialEq)]
pub struct ToolCall {
    pub id: String,
    pub title: String,
    pub kind: ToolKind,
    pub status: ToolCallStatus,
    pub raw_input: Json,
}

#[verifier::ext_equal]
pub struct ToolCallView {
    pub id: Seq<char>,
    pub title: Seq<char>,
    pub kind: ToolKind,
    pub status: ToolCallStatus,
    pub raw_input: JsonView,
}

impl View for ToolCall {
    type V = ToolCallView;

    open spec fn view(&self) -> ToolCallView {
        ToolCallView {
            id: self.id@,
            title: self.title@,
            kind: self.kind,
            status: self.status,
            raw_input: self.raw_input@,
        }
    }
}

/// A change to a tool call: only what is given changes.
#[derive(Debug, PartialEq)]
pub struct ToolCallUpdate {
    pub id: String,
    pub title: Option<String>,
    pub status: Option<ToolCallStatus>,
    /// The text that becomes the call's whole content.
    pub content: Option<String>,
    pub raw_output: Option<Json>,
}

#[verifier::ext_equal]
pub struct ToolCallUpdateView {
    pub id: Seq<char>,
    pub title: Option<Seq<char>>,
    pub status: Option<ToolCallStatus>,
    pub content: Option<Seq<char>>,
    pub raw_output: Option<JsonView>,
}

impl View for ToolCallUpdate {
    type V = ToolCallUpdateView;

    open spec fn view(&self) -> ToolCallUpdateView {
        ToolCallUpdateView {
            id: self.id@,
            title: optional(self.title),
            status: self.status,
            content: optional(self.content),
            raw_output: optional(self.raw_output),
        }
    }
}

/// One thing to show of a session.
#[derive(Debug, PartialEq)]
pub enum SessionUpdate {
    UserMessageChunk(String),
    AgentMessageChunk(String),
    AgentThoughtChunk(String),
    ToolCall(ToolCall),
    ToolCallUpdate(ToolCallUpdate),
    CurrentModeUpdate(String),
}

#[verifier::ext_equal]
pub enum SessionUpdateView {
    UserMessageChunk(Seq<char>),
    AgentMessageChunk(Seq<char>),
    AgentThoughtChunk(Seq<char>),
    ToolCall(ToolCallView),
    ToolCallUpdate(ToolCallUpdateView),
    CurrentModeUpdate(Seq<char>),
}

impl View for SessionUpdate {
    type V = SessionUpdateView;

    open spec fn view(&self) -> SessionUpdateView {
        match self {
            SessionUpdate::UserMessageChunk(text) => SessionUpdateView::UserMessageChunk(text@),
            SessionUpdate::AgentMessageChunk(text) => SessionUpdateView::AgentMessageChunk(text@),
            SessionUpdate::AgentThoughtChunk(text) => SessionUpdateView::AgentThoughtChunk(text@),
            SessionUpdate::ToolCall(tool) => SessionUpdateView::ToolCall(tool@),
            SessionUpdate::ToolCallUpdate(update) => SessionUpdateView::ToolCallUpdate(update@),
            SessionUpdate::CurrentModeUpdate(mode) => SessionUpdateView::CurrentModeUpdate(mode@),
        }
    }
}

/// An update, addressed to its session.
#[derive(Debug, PartialEq)]
pub struct SessionNotification {
    pub session_id: String,
    pub update: SessionUpdate,
}

#[verifier::ext_equal]
pub struct SessionNotificationView {
    pub session_id: Seq<char>,
    pub update: SessionUpdateView,
}

impl View for SessionNotification {
    type V = SessionNotificationView;

    open spec fn view(&self) -> SessionNotificationView {
        SessionNotificationView { session_id: self.session_id@, update: self.update@ }
    }
}

/// A notification outside the protocol's own list.
#[derive(Debug, PartialEq)]
pub struct ExtNotification {
    pub method: String,
    pub params: Json,
}

#[verifier::ext_equal]
pub struct ExtNotificationView {
    pub method: Seq<char>,
    pub params: JsonView,
}

impl View for ExtNotification {
    type V = ExtNotificationView;

    open spec fn view(&self) -> ExtNotificationView {
        ExtNotificationView { method: self.method@, params: self.params@ }
    }
}

/// The text, or `fallback` where there is none.
pub open spec fn text_or(text: Option<Seq<char>>, fallback: Seq<char>) -> Seq<char> {
    match text {
        Some(text) => text,
        None => fallback,
    }
}

/// The kind and the title of the tool call that an item of this type is: none where items of the
/// type are no tool calls.
pub open spec fn tool_label(item: JsonView, item_type: Seq<char>) -> Option<(ToolKind, Seq<char>)> {
    if item_type == "commandExecution"@ {
        Some((ToolKind::Execute, text_or(item.text_at("command"@), "Run command"@)))
    } else if item_type == "fileChange"@ {
        Some((ToolKind::Edit, "Edit files"@))
    } else if item_type == "mcpToolCall"@ {
        Some((ToolKind::Other, text_or(item.text_at("tool"@), "MCP tool"@)))
    } else if item_type == "webSearch"@ {
        Some((ToolKind::Search, "Search the web"@))
    } else {
        None
    }
}

/// The tool call that an item is.
pub open spec fn tool_of(item: JsonView, completed: bool) -> Option<ToolCallView> {
    match (item.text_at("type"@), item.text_at("id"@)) {
        (Some(item_type), Some(id)) => match tool_label(item, item_type) {
            Some((kind, title)) => Some(
                ToolCallView {
                    id,
                    title,
                    kind,
                    status: if completed {
                        ToolCallStatus::Completed
                    } else {
                        ToolCallStatus::InProgress
                    },
                    raw_input: item,
                },
            ),
            None => None,
        },
        _ => None,
    }
}

/// The tool call that an item is: none without an item, an item type and an id, or where items
/// of the type are no tool calls.
pub fn item_as_tool(item: Option<&Json>, completed: bool) -> (tool: Option<ToolCall>)
    ensures
        optional(tool) == match item {
            Some(item) => tool_of(item@, completed),
            None => None,
        },
{
    let item = match item {
        Some(item) => item,
        None => {
            return None;
        },
    };
    let item_type = match item.get_str("type") {
        Some(item_type) => item_type,
        None => {
            return None;
        },
    };
    let id = match item.get_str("id") {
        Some(id) => id,
        None => {
            return None;
        },
    };
    let (kind, title) = if item_type.eq("commandExecution") {
        (ToolKind::Execute, item.get_str("command").unwrap_or("Run command"))
    } else if item_type.eq("fileChange") {
        (ToolKind::Edit, "Edit files")
    } else if item_type.eq("mcpToolCall") {
        (ToolKind::Other, item.get_str("tool").unwrap_or("MCP tool"))
    } else if item_type.eq("webSearch") {
        (ToolKind::Search, "Search the web")
    } else {
        return None;
    };
    Some(
        ToolCall {
            id: id.to_owned(),
            title: title.to_owned(),
            kind,
            status: if completed {
                ToolCallStatus::Completed
            } else {
                ToolCallStatus::InProgress
            },
            raw_input: item.clone(),
        },
    )
}

/// The texts of the inputs that make up a user message, one per line.
pub open spec fn user_text(item: JsonView) -> Seq<char> {
    joined(
        item.items_at("content"@).filter_map(|input: JsonView| input.text_at("text"@)),
        "\n"@,
    )
}

/// The parts of a reasoning item: its summary where that has parts, else its content.
pub open spec fn reasoning_parts(item: JsonView) -> Seq<JsonView> {
    if item.items_at("summary"@).len() > 0 {
        item.items_at("summary"@)
    } else {
        item.items_at("content"@)
    }
}

/// The texts of a reasoning item, one per line.
pub open spec fn reasoning_text(item: JsonView) -> Seq<char> {
    joined(reasoning_parts(item).filter_map(|part: JsonView| part.text()), "\n"@)
}

/// What a stored item is shown as when its session is loaded.
pub open spec fn replayed(item: JsonView) -> Option<SessionUpdateView> {
    let item_type = text_or(item.text_at("type"@), ""@);
    if item_type == "userMessage"@ {
        Some(SessionUpdateView::UserMessageChunk(user_text(item)))
    } else if item_type == "agentMessage"@ {
        match item.text_at("text"@) {
            Some(text) => Some(SessionUpdateView::AgentMessageChunk(text)),
            None => None,
        }
    } else if item_type == "reasoning"@ {
        if reasoning_text(item).len() > 0 {
            Some(SessionUpdateView::AgentThoughtChunk(reasoning_text(item)))
        } else {
            None
        }
    } else {
        match tool_of(item, true) {
            Some(tool) => Some(SessionUpdateView::ToolCall(tool)),
            None => None,
        }
    }
}

/// What a stored turn is shown as.
pub open spec fn replayed_turn(turn: JsonView, session_id: Seq<char>) -> Seq<
    SessionNotificationView,
> {
    turn.items_at("items"@).filter_map(
        |item: JsonView|
            match replayed(item) {
                Some(update) => Some(SessionNotificationView { session_id, update }),
                None => None,
            },
    )
}

/// What a stored thread is shown as: its turns in order, each with its items in order.
pub open spec fn replayed_thread(response: JsonView) -> Seq<SessionNotificationView> {
    match response.get("thread"@) {
        Some(thread) => thread.items_at("turns"@).map_values(
            |turn: JsonView| replayed_turn(turn, text_or(thread.text_at("id"@), ""@)),
        ).flatten(),
        None => Seq::empty(),
    }
}

/// The texts that the items hold under `key`, in order.
fn texts_under(items: &Vec<Json>, key: &str) -> (texts: Vec<String>)
    ensures
        views(texts@) == views(items@).filter_map(|input: JsonView| input.text_at(key@)),
{
    let ghost pick = |input: JsonView| input.text_at(key@);
    let mut texts: Vec<String> = Vec::new();
    assert(views(texts@) =~= views(items@).take(0).filter_map(pick));
    for i in 0..items.len()
        invariant
            pick == (|input: JsonView| input.text_at(key@)),
            views(texts@) == views(items@).take(i as int).filter_map(pick),
    {
        proof {
            views(items@).lemma_filter_map_take_succ(pick, i as int);
        }
        let ghost before = texts@;
        if let Some(text) = items[i].get_str(key) {
            texts.push(text.to_owned());
            assert(views(texts@) =~= views(before) + seq![text@]);
        }
    }
    assert(views(items@).take(items.len() as int) =~= views(items@));
    texts
}

/// The texts among the items, in order.
fn texts_among(items: &Vec<Json>) -> (texts: Vec<String>)
    ensures
        views(texts@) == views(items@).filter_map(|part: JsonView| part.text()),
{
    let ghost pick = |part: JsonView| part.text();
    let mut texts: Vec<String> = Vec::new();
    assert(views(texts@) =~= views(items@).take(0).filter_map(pick));
    for i in 0..items.len()
        invariant
            pick == (|part: JsonView| part.text()),
            views(texts@) == views(items@).take(i as int).filter_map(pick),
    {
        proof {
            views(items@).lemma_filter_map_take_succ(pick, i as int);
        }
        let ghost before = texts@;
        if let Some(text) = items[i].as_str() {
            texts.push(text.to_owned());
            assert(views(texts@) =~= views(before) + seq![text@]);
        }
    }
    assert(views(items@).take(items.len() as int) =~= views(items@));
    texts
}

/// What a stored item is shown as when its session is loaded.
pub fn replay_item(item: &Json) -> (update: Option<SessionUpdate>)
    ensures
        optional(update) == replayed(item@),
{
    let item_type = item.get_str("type").unwrap_or("");
    if item_type.eq("userMessage") {
        let text = match item.get_items("content") {
            Some(inputs) => join(&texts_under(inputs, "text"), "\n"),
            None => String::new(),
        };
        Some(SessionUpdate::UserMessageChunk(text))
    } else if item_type.eq("agentMessage") {
        match item.get_str("text") {
            Some(text) => Some(SessionUpdate::AgentMessageChunk(text.to_owned())),
            None => None,
        }
    } else if item_type.eq("reasoning") {
        let summary = match item.get_items("summary") {
            Some(parts) => if parts.len() > 0 {
                Some(parts)
            } else {
                None
            },
            None => None,
        };
        let parts = match summary {
            Some(parts) => Some(parts),
            None => item.get_items("content"),
        };
        let text = match parts {
            Some(parts) => join(&texts_among(parts), "\n"),
            None => String::new(),
        };
        if text.as_str().is_empty() {
            None
        } else {
            Some(SessionUpdate::AgentThoughtChunk(text))
        }
    } else {
        match item_as_tool(Some(item), true) {
            Some(tool) => Some(SessionUpdate::ToolCall(tool)),
            None => None,
        }
    }
}

/// What a stored thread is shown as when its session is loaded.
pub fn replay_thread(response: &Json) -> (shown: Vec<SessionNotification>)
    ensures
        views(shown@) == replayed_thread(response@),
{
    let mut shown: Vec<SessionNotification> = Vec::new();
    let thread = match response.get("thread") {
        Some(thread) => thread,
        None => {
            assert(views(shown@) =~= Seq::empty());
            return shown;
        },
    };
    let session_id = thread.get_str("id").unwrap_or("");
    let turns = match thread.get_items("turns") {
        Some(turns) => turns,
        None => {
            assert(views(shown@) =~= replayed_thread(response@));
            return shown;
        },
    };
    let ghost per_turn = |turn: JsonView| replayed_turn(turn, session_id@);
    assert(views(shown@) =~= views(turns@).take(0).map_values(per_turn).flatten());
    for i in 0..turns.len()
        invariant
            per_turn == (|turn: JsonView| replayed_turn(turn, session_id@)),
            views(shown@) == views(turns@).take(i as int).map_values(per_turn).flatten(),
    {
        let ghost earlier = shown@;
        replay_turn(&turns[i], session_id, &mut shown);
        proof {
            let done = views(turns@).take(i as int).map_values(per_turn);
            done.lemma_flatten_push(replayed_turn(turns@[i as int]@, session_id@));
            assert(views(turns@).take(i + 1).map_values(per_turn) =~= done.push(
                replayed_turn(turns@[i as int]@, session_id@),
            ));
        }
    }
    assert(views(turns@).take(turns.len() as int) =~= views(turns@));
    shown
}

/// Adds what a stored turn is shown as.
fn replay_turn(turn: &Json, session_id: &str, shown: &mut Vec<SessionNotification>)
    ensures
        views(final(shown)@) == views(old(shown)@) + replayed_turn(turn@, session_id@),
{
    let ghost start = views(shown@);
    let ghost pick = |item: JsonView|
        match replayed(item) {
            Some(update) => Some(SessionNotificationView { session_id: session_id@, update }),
            None => None,
        };
    let items = match turn.get_items("items") {
        Some(items) => items,
        None => {
            assert(views(shown@) =~= start + replayed_turn(turn@, session_id@));
            return ;
        },
    };
    assert(views(shown@) =~= start + views(items@).take(0).filter_map(pick));
    for i in 0..items.len()
        invariant
            pick == (|item: JsonView|
                match replayed(item) {
                    Some(update) => Some(
                        SessionNotificationView { session_id: session_id@, update },
                    ),
                    None => None,
                }),
            views(shown@) == start + views(items@).take(i as int).filter_map(pick),
    {
        proof {
            views(items@).lemma_filter_map_take_succ(pick, i as int);
        }
        let ghost before = views(shown@);
        if let Some(update) = replay_item(&items[i]) {
            let notification = SessionNotification { session_id: session_id.to_owned(), update };
            shown.push(notification);
            assert(views(shown@) =~= before + seq![notification@]);
        }
        assert(views(shown@) =~= start + views(items@).take(i + 1).filter_map(pick));
    }
    assert(views(items@).take(items.len() as int) =~= views(items@));
}

} // verus!
