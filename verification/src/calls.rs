//! The calls that the agent makes of the app-server, and what it reads out of the replies.

use vstd::prelude::*;

use crate::json::{lemma_array_view, parsed, text_or_null, Json, JsonObject, JsonView};
use crate::rpc::{RpcCall, RpcCallView};
use crate::text::{optional, views};
use crate::time::{rfc3339, timestamp};
use crate::updates::text_or;

verus! {

/// The empty object.
pub open spec fn nothing() -> Map<Seq<char>, JsonView> {
    Map::empty()
}

/// The call that opens the connection.
pub open spec fn initialize_spec(version: Seq<char>) -> RpcCallView {
    RpcCallView {
        method: "initialize"@,
        params: JsonView::Object(
            nothing().insert(
                "clientInfo"@,
                JsonView::Object(
                    nothing().insert("name"@, JsonView::Text("codex_tui"@)).insert(
                        "title"@,
                        JsonView::Text("Codex TUI"@),
                    ).insert("version"@, JsonView::Text(version)),
                ),
            ).insert(
                "capabilities"@,
                JsonView::Object(nothing().insert("experimentalApi"@, JsonView::Bool(true))),
            ),
        ),
    }
}

/// The call that opens the connection.
pub fn initialize_call(version: &str) -> (call: RpcCall)
    ensures
        call@ == initialize_spec(version@),
{
    let client = JsonObject::new().with("name", Json::text("codex_tui")).with(
        "title",
        Json::text("Codex TUI"),
    ).with("version", Json::text(version));
    let capabilities = JsonObject::new().with("experimentalApi", Json::Bool(true));
    RpcCall::new(
        "initialize",
        Json::Object(
            JsonObject::new().with("clientInfo", Json::Object(client)).with(
                "capabilities",
                Json::Object(capabilities),
            ),
        ),
    )
}

/// The notification that the connection is open.
pub open spec fn initialized_spec() -> RpcCallView {
    RpcCallView { method: "initialized"@, params: JsonView::Object(nothing()) }
}

/// The call that lists the models.
pub open spec fn list_models_spec() -> RpcCallView {
    RpcCallView {
        method: "model/list"@,
        params: JsonView::Object(nothing().insert("limit"@, JsonView::Integer(100))),
    }
}

/// The call that asks who is logged in.
pub open spec fn read_account_spec() -> RpcCallView {
    RpcCallView { method: "account/read"@, params: JsonView::Object(nothing()) }
}

/// The call that starts a login in the browser.
pub open spec fn start_login_spec() -> RpcCallView {
    RpcCallView {
        method: "account/login/start"@,
        params: JsonView::Object(
            nothing().insert("type"@, JsonView::Text("chatgpt"@)).insert(
                "appBrand"@,
                JsonView::Text("codex"@),
            ).insert("codexStreamlinedLogin"@, JsonView::Bool(true)).insert(
                "useHostedLoginSuccessPage"@,
                JsonView::Bool(true),
            ),
        ),
    }
}

/// The call that starts a thread.
pub open spec fn start_thread_spec(
    cwd: Seq<char>,
    openai_docs_mcp: bool,
    model: Option<Seq<char>>,
) -> RpcCallView {
    RpcCallView {
        method: "thread/start"@,
        params: JsonView::Object(new_thread(cwd, openai_docs_mcp, model)),
    }
}

/// The call that takes up a stored thread.
pub open spec fn resume_thread_spec(
    session_id: Seq<char>,
    cwd: Seq<char>,
    openai_docs_mcp: bool,
) -> RpcCallView {
    RpcCallView {
        method: "thread/resume"@,
        params: JsonView::Object(
            configured(
                nothing().insert("threadId"@, JsonView::Text(session_id)).insert(
                    "cwd"@,
                    JsonView::Text(cwd),
                ),
                openai_docs_mcp,
            ),
        ),
    }
}

/// The notification that the connection is open.
pub fn initialized_call() -> (call: RpcCall)
    ensures
        call@ == initialized_spec(),
{
    RpcCall::new("initialized", Json::Object(JsonObject::new()))
}

/// The call that lists the models.
pub fn list_models_call() -> (call: RpcCall)
    ensures
        call@ == list_models_spec(),
{
    RpcCall::new("model/list", Json::Object(JsonObject::new().with("limit", Json::Unsigned(100))))
}

/// The call that asks who is logged in.
pub fn read_account_call() -> (call: RpcCall)
    ensures
        call@ == read_account_spec(),
{
    RpcCall::new("account/read", Json::Object(JsonObject::new()))
}

/// The call that starts a login in the browser.
pub fn start_login_call() -> (call: RpcCall)
    ensures
        call@ == start_login_spec(),
{
    RpcCall::new(
        "account/login/start",
        Json::Object(
            JsonObject::new().with("type", Json::text("chatgpt")).with(
                "appBrand",
                Json::text("codex"),
            ).with("codexStreamlinedLogin", Json::Bool(true)).with(
                "useHostedLoginSuccessPage",
                Json::Bool(true),
            ),
        ),
    )
}

/// The members with the documentation server switched off, unless it is wanted.
pub open spec fn configured(params: Map<Seq<char>, JsonView>, openai_docs_mcp: bool) -> Map<
    Seq<char>,
    JsonView,
> {
    if openai_docs_mcp {
        params
    } else {
        params.insert(
            "config"@,
            JsonView::Object(
                nothing().insert("mcp_servers.openaiDeveloperDocs.enabled"@, JsonView::Bool(false)),
            ),
        )
    }
}

/// What a new thread is started with.
pub open spec fn new_thread(cwd: Seq<char>, openai_docs_mcp: bool, model: Option<Seq<char>>) -> Map<
    Seq<char>,
    JsonView,
> {
    let base = configured(
        nothing().insert("cwd"@, JsonView::Text(cwd)).insert(
            "approvalPolicy"@,
            JsonView::Text("on-request"@),
        ).insert("sandbox"@, JsonView::Text("workspace-write"@)),
        openai_docs_mcp,
    );
    match model {
        Some(model) => base.insert("model"@, JsonView::Text(model)),
        None => base,
    }
}

/// Switches the documentation server off, unless it is wanted: it can spend seconds on repeated
/// discovery at every start of a thread.
pub fn apply_thread_config(params: &mut JsonObject, openai_docs_mcp: bool)
    ensures
        final(params)@ == configured(old(params)@, openai_docs_mcp),
{
    if !openai_docs_mcp {
        let config = JsonObject::new().with(
            "mcp_servers.openaiDeveloperDocs.enabled",
            Json::Bool(false),
        );
        params.insert("config", Json::Object(config));
    }
}

/// What a new thread is started with.
pub fn new_thread_params(cwd: &str, openai_docs_mcp: bool, model: Option<&str>) -> (params: Json)
    ensures
        params@ == JsonView::Object(new_thread(cwd@, openai_docs_mcp, optional(model))),
{
    let mut params = JsonObject::new().with("cwd", Json::text(cwd)).with(
        "approvalPolicy",
        Json::text("on-request"),
    ).with("sandbox", Json::text("workspace-write"));
    apply_thread_config(&mut params, openai_docs_mcp);
    if let Some(model) = model {
        params.insert("model", Json::text(model));
    }
    Json::Object(params)
}

/// The call that starts a thread.
pub fn start_thread_call(cwd: &str, openai_docs_mcp: bool, model: Option<&str>) -> (call: RpcCall)
    ensures
        call@ == start_thread_spec(cwd@, openai_docs_mcp, optional(model)),
{
    RpcCall::new("thread/start", new_thread_params(cwd, openai_docs_mcp, model))
}

/// The call that takes up a stored thread.
pub fn resume_thread_call(session_id: &str, cwd: &str, openai_docs_mcp: bool) -> (call: RpcCall)
    ensures
        call@ == resume_thread_spec(session_id@, cwd@, openai_docs_mcp),
{
    let mut params = JsonObject::new().with("threadId", Json::text(session_id)).with(
        "cwd",
        Json::text(cwd),
    );
    apply_thread_config(&mut params, openai_docs_mcp);
    RpcCall::new("thread/resume", Json::Object(params))
}

/// A part of a prompt.
#[derive(Debug, PartialEq)]
pub enum ContentBlock {
    Text(String),
    Image { data: String, mime_type: String, uri: Option<String> },
    /// A part that the app-server does not take.
    Other,
}

#[verifier::ext_equal]
pub ghost enum ContentBlockView {
    Text(Seq<char>),
    Image { data: Seq<char>, mime_type: Seq<char>, uri: Option<Seq<char>> },
    Other,
}

impl View for ContentBlock {
    type V = ContentBlockView;

    open spec fn view(&self) -> ContentBlockView {
        match self {
            ContentBlock::Text(text) => ContentBlockView::Text(text@),
            ContentBlock::Image { data, mime_type, uri } => ContentBlockView::Image {
                data: data@,
                mime_type: mime_type@,
                uri: optional(*uri),
            },
            ContentBlock::Other => ContentBlockView::Other,
        }
    }
}

/// A part of a prompt as the app-server takes it: a text, or an image by its address, which holds
/// the data itself where the image has no other.
pub open spec fn input_of(block: ContentBlockView) -> Option<JsonView> {
    match block {
        ContentBlockView::Text(text) => Some(
            JsonView::Object(
                nothing().insert("type"@, JsonView::Text("text"@)).insert(
                    "text"@,
                    JsonView::Text(text),
                ),
            ),
        ),
        ContentBlockView::Image { data, mime_type, uri } => Some(
            JsonView::Object(
                nothing().insert("type"@, JsonView::Text("image"@)).insert(
                    "url"@,
                    JsonView::Text(
                        text_or(uri, "data:"@ + mime_type + ";base64,"@ + data),
                    ),
                ),
            ),
        ),
        ContentBlockView::Other => None,
    }
}

/// A prompt as the app-server takes it: its texts and images, in order.
pub open spec fn prompt_input(prompt: Seq<ContentBlockView>) -> Seq<JsonView> {
    prompt.filter_map(|block: ContentBlockView| input_of(block))
}

fn block_input(block: &ContentBlock) -> (input: Option<Json>)
    ensures
        optional(input) == input_of(block@),
{
    match block {
        ContentBlock::Text(text) => Some(
            Json::Object(
                JsonObject::new().with("type", Json::text("text")).with(
                    "text",
                    Json::text(text.as_str()),
                ),
            ),
        ),
        ContentBlock::Image { data, mime_type, uri } => {
            let url = match uri {
                Some(uri) => uri.clone(),
                None => {
                    let mut url = "data:".to_owned();
                    url.append(mime_type.as_str());
                    url.append(";base64,");
                    url.append(data.as_str());
                    url
                },
            };
            Some(
                Json::Object(
                    JsonObject::new().with("type", Json::text("image")).with(
                        "url",
                        Json::Text(url),
                    ),
                ),
            )
        },
        ContentBlock::Other => None,
    }
}

/// A prompt as the app-server takes it.
pub fn prompt_to_codex_input(prompt: &Vec<ContentBlock>) -> (input: Vec<Json>)
    ensures
        views(input@) == prompt_input(views(prompt@)),
{
    let ghost pick = |block: ContentBlockView| input_of(block);
    let mut input: Vec<Json> = Vec::new();
    assert(views(input@) =~= views(prompt@).take(0).filter_map(pick));
    for i in 0..prompt.len()
        invariant
            pick == (|block: ContentBlockView| input_of(block)),
            views(input@) == views(prompt@).take(i as int).filter_map(pick),
    {
        proof {
            views(prompt@).lemma_filter_map_take_succ(pick, i as int);
        }
        let ghost before = input@;
        if let Some(part) = block_input(&prompt[i]) {
            input.push(part);
            assert(views(input@) =~= views(before) + seq![part@]);
        }
    }
    assert(views(prompt@).take(prompt.len() as int) =~= views(prompt@));
    input
}

/// What a turn is started with.
pub open spec fn turn_start(
    thread_id: Seq<char>,
    input: Seq<JsonView>,
    model: Option<Seq<char>>,
    effort: Option<Seq<char>>,
    prompt_id: Option<Seq<char>>,
) -> Map<Seq<char>, JsonView> {
    nothing().insert("threadId"@, JsonView::Text(thread_id)).insert(
        "input"@,
        JsonView::Array(input),
    ).insert("model"@, text_or_null(model)).insert("effort"@, text_or_null(effort)).insert(
        "clientUserMessageId"@,
        text_or_null(prompt_id),
    )
}

/// What a turn is started with.
pub fn turn_start_params(
    thread_id: &str,
    input: Vec<Json>,
    model: Option<&str>,
    effort: Option<&str>,
    prompt_id: Option<&str>,
) -> (params: Json)
    ensures
        params@ == JsonView::Object(
            turn_start(
                thread_id@,
                views(input@),
                optional(model),
                optional(effort),
                optional(prompt_id),
            ),
        ),
{
    proof {
        lemma_array_view(input);
    }
    Json::Object(
        JsonObject::new().with("threadId", Json::text(thread_id)).with(
            "input",
            Json::Array(input),
        ).with("model", Json::text_or_null(model)).with("effort", Json::text_or_null(effort)).with(
            "clientUserMessageId",
            Json::text_or_null(prompt_id),
        ),
    )
}

/// The call that lists stored threads, for what the pager asks for.
pub open spec fn list_threads_spec(asked: JsonView) -> RpcCallView {
    RpcCallView {
        method: "thread/list"@,
        params: JsonView::Object(
            nothing().insert("cwd"@, asked.get_or_null("cwd"@)).insert(
                "limit"@,
                JsonView::Integer(
                    match asked.unsigned_at("limit"@) {
                        Some(limit) => limit as int,
                        None => 30,
                    },
                ),
            ).insert("searchTerm"@, asked.get_or_null("query"@)).insert(
                "sortKey"@,
                JsonView::Text("updated_at"@),
            ).insert("sortDirection"@, JsonView::Text("desc"@)),
        ),
    }
}

/// The call that lists stored threads, for what the pager asks for.
pub fn list_threads_call(asked: &Json) -> (call: RpcCall)
    ensures
        call@ == list_threads_spec(asked@),
{
    RpcCall::new(
        "thread/list",
        Json::Object(
            JsonObject::new().with("cwd", Json::copy_or_null(asked.get("cwd"))).with(
                "limit",
                Json::Unsigned(asked.get_u64("limit").unwrap_or(30)),
            ).with("searchTerm", Json::copy_or_null(asked.get("query"))).with(
                "sortKey",
                Json::text("updated_at"),
            ).with("sortDirection", Json::text("desc")),
        ),
    )
}

/// The text of a point in time; the start of 1970 where the calendar does not reach it.
pub open spec fn time_text(seconds: i64) -> JsonView {
    JsonView::Text(text_or(rfc3339(seconds), "1970-01-01T00:00:00+00:00"@))
}

/// When a stored thread was created: 0 where that is not told.
pub open spec fn created_at(thread: JsonView) -> i64 {
    match thread.signed_at("createdAt"@) {
        Some(seconds) => seconds,
        None => 0,
    }
}

/// When a stored thread was last updated: when it was created, where that is not told.
pub open spec fn updated_at(thread: JsonView) -> i64 {
    match thread.signed_at("updatedAt"@) {
        Some(seconds) => seconds,
        None => created_at(thread),
    }
}

/// A stored thread, as the pager lists it.
pub open spec fn session_entry(thread: JsonView) -> JsonView {
    JsonView::Object(
        nothing().insert("sessionId"@, thread.get_or_null("id"@)).insert(
            "summary"@,
            match thread.get("preview"@) {
                Some(preview) => preview,
                None => JsonView::Text("Codex session"@),
            },
        ).insert("firstPrompt"@, thread.get_or_null("preview"@)).insert(
            "cwd"@,
            thread.get_or_null("cwd"@),
        ).insert("createdAt"@, time_text(created_at(thread))).insert(
            "updatedAt"@,
            time_text(updated_at(thread)),
        ).insert("source"@, JsonView::Text("codex"@)),
    )
}

/// The stored threads, as the pager lists them.
pub open spec fn session_list(response: JsonView) -> JsonView {
    JsonView::Object(
        nothing().insert(
            "sessions"@,
            JsonView::Array(
                response.items_at("data"@).map_values(|thread: JsonView| session_entry(thread)),
            ),
        ),
    )
}

fn map_session(thread: &Json) -> (entry: Json)
    ensures
        entry@ == session_entry(thread@),
{
    let created: i64 = thread.get_i64("createdAt").unwrap_or(0);
    let updated: i64 = thread.get_i64("updatedAt").unwrap_or(created);
    let summary = match thread.get("preview") {
        Some(preview) => preview.clone(),
        None => Json::text("Codex session"),
    };
    Json::Object(
        JsonObject::new().with("sessionId", Json::copy_or_null(thread.get("id"))).with(
            "summary",
            summary,
        ).with("firstPrompt", Json::copy_or_null(thread.get("preview"))).with(
            "cwd",
            Json::copy_or_null(thread.get("cwd")),
        ).with("createdAt", Json::Text(timestamp(created))).with(
            "updatedAt",
            Json::Text(timestamp(updated)),
        ).with("source", Json::text("codex")),
    )
}

/// The stored threads, as the pager lists them.
pub fn map_sessions(response: &Json) -> (list: Json)
    ensures
        list@ == session_list(response@),
{
    let mut sessions: Vec<Json> = Vec::new();
    if let Some(threads) = response.get_items("data") {
        for i in 0..threads.len()
            invariant
                sessions@.len() == i,
                forall|j: int|
                    0 <= j < i ==> (#[trigger] sessions@[j])@ == session_entry(threads@[j]@),
        {
            sessions.push(map_session(&threads[i]));
        }
    }
    proof {
        lemma_array_view(sessions);
        assert(views(sessions@) =~= response@.items_at("data"@).map_values(
            |thread: JsonView| session_entry(thread),
        ));
    }
    Json::Object(JsonObject::new().with("sessions", Json::Array(sessions)))
}

/// What the parameters of a request say: null where they are no JSON text.
pub open spec fn params_or_null(text: Seq<char>) -> JsonView {
    match parsed(text) {
        Some(params) => params,
        None => JsonView::Null,
    }
}

/// Reads the parameters of a request: null where they are no JSON text.
pub fn read_ext_params(text: &str) -> (params: Json)
    ensures
        params@ == params_or_null(text@),
{
    match Json::parse(text) {
        Some(params) => params,
        None => Json::Null,
    }
}

} // verus!
