//! What the app-server is asked, what is made of its replies, and what the pager is told.

use vstd::prelude::*;

use crate::agent::{acp_error, AgentError, AgentState, CodexAgent};
use crate::calls::{
    apply_thread_config, initialize_call, initialized_call, input_of, list_models_call,
    list_threads_call, map_sessions, new_thread_params, prompt_to_codex_input, read_account_call,
    read_ext_params, resume_thread_call, session_entry, start_login_call, start_thread_call,
    turn_start_params, ContentBlock, ContentBlockView,
};
use crate::json::{parsed, rendered, Json, JsonObject, JsonView};
use crate::logo::{
    compact_logo_line_count, full_logo_line_count, full_logo_visual_width, logo_line_count,
    logo_visual_width, render_compact_logo, render_full_logo, render_logo,
};
use crate::models::{ReasoningEffort, SessionModelState};
use crate::rpc::{
    notify, respond, respond_error, CodexRpc, Dropped, Inbound, PendingRequest, RpcCall, RpcError,
    Side,
};
use crate::sessions::{
    codex_session_modes, notify_session_startup_complete, published_meta, InitializeStage,
    InitializeStep, LoadResponse, LoadedSession, LoginOutcome, OpenedSession, PromptResponse,
    SessionModeState, StopReason,
};
use crate::text::{optional, views};
use crate::time::timestamp;
use crate::updates::{
    replay_thread, text_or, ExtNotification, SessionNotification, SessionUpdate,
};

use super::catalog::{leads, lemma_leads, unlisted};
use super::lemma_picked_in_order;
use super::values::holds_only;

verus! {

/// A message that makes a request carries its number, its method and its parameters; one that
/// nobody answers carries no number; an answer carries the number asked under, and either a result
/// or an error.
pub proof fn messages_carry_what_they_are_for(
    call: RpcCall,
    notice: Json,
    id: Json,
    result: Json,
    answer: Json,
    code: i64,
    text: &str,
    refusal: Json,
)
    requires
        call_ensures(notify, (call,), notice),
        call_ensures(respond, (id, result), answer),
        call_ensures(respond_error, (id, code, text), refusal),
    ensures
        notice@.get("method"@) == Some(JsonView::Text(call.method@)),
        notice@.get("params"@) == Some(call.params@),
        holds_only(notice@, set!["method"@, "params"@]),
        answer@.get("id"@) == Some(id@),
        answer@.get("result"@) == Some(result@),
        holds_only(answer@, set!["id"@, "result"@]),
        refusal@.get("id"@) == Some(id@),
        refusal@.get("error"@) matches Some(error) && error.get("code"@) == Some(
            JsonView::Integer(code as int),
        ) && error.get("message"@) == Some(JsonView::Text(text@)) && holds_only(
            error,
            set!["code"@, "message"@],
        ),
        holds_only(refusal@, set!["id"@, "error"@]),
{
    reveal_strlit("id");
    reveal_strlit("method");
    reveal_strlit("params");
    reveal_strlit("result");
    reveal_strlit("error");
    assert("id"@.len() == 2 && "method"@.len() == 6 && "params"@.len() == 6);
    assert("result"@.len() == 6 && "error"@.len() == 5);
    assert("method"@[0] != "params"@[0]);
    assert("method"@[0] != "result"@[0]);
    assert("params"@[0] != "result"@[0]);
    reveal_strlit("code");
    reveal_strlit("message");
    assert("code"@.len() == 4 && "message"@.len() == 7);
}

/// A request on an open connection goes out under the next number, with the call's own method and
/// parameters, and its maker waits under that number; on a closed one it is refused and changes
/// nothing. Nobody else is touched.
pub proof fn requests_go_out_as_they_are<W>(
    rpc: &mut CodexRpc<W>,
    call: RpcCall,
    waiter: W,
    result: Result<PendingRequest, RpcError>,
    other: u64,
)
    requires
        call_ensures(CodexRpc::<W>::request, (rpc, call, waiter), result),
        old(rpc)@.valid(),
        old(rpc)@.closed || old(rpc)@.next_id < u64::MAX,
    ensures
        match result {
            Ok(request) => !old(rpc)@.closed && request.id == old(rpc)@.next_id
                && request.message@.get("id"@) == Some(JsonView::Integer(request.id as int))
                && request.message@.get("method"@) == Some(JsonView::Text(call.method@))
                && request.message@.get("params"@) == Some(call.params@) && holds_only(
                request.message@,
                set!["id"@, "method"@, "params"@],
            ) && final(rpc)@.next_id == old(rpc)@.next_id + 1
                && final(rpc)@.pending.contains_key(request.id)
                && final(rpc)@.pending[request.id] == waiter && (other != request.id ==> (
            final(rpc)@.pending.contains_key(other) <==> old(rpc)@.pending.contains_key(other)) && (
            old(rpc)@.pending.contains_key(other) ==> final(rpc)@.pending[other]
                == old(rpc)@.pending[other])),
            Err(error) => old(rpc)@.closed && error is Stopped && final(rpc)@ == old(rpc)@,
        },
        final(rpc)@.closed == old(rpc)@.closed,
{
    reveal_strlit("id");
    reveal_strlit("method");
    reveal_strlit("params");
    assert("id"@.len() == 2 && "method"@.len() == 6 && "params"@.len() == 6);
    assert("method"@[0] != "params"@[0]);
}

/// A reply goes to the one who waits under its number, and to nobody else: with its error where it
/// holds one, else with its result, else with null. Every other request still waits.
pub proof fn replies_go_to_their_request<W>(
    rpc: &mut CodexRpc<W>,
    message: Json,
    inbound: Inbound<W>,
    other: u64,
)
    requires
        call_ensures(CodexRpc::<W>::receive, (rpc, message), inbound),
        old(rpc)@.valid(),
    ensures
        message@.get("method"@) is Some ==> (inbound matches Inbound::Event(event) && event@
            == message@) && final(rpc)@ == old(rpc)@,
        message@.get("method"@) is None ==> match message@.unsigned_at("id"@) {
            Some(id) => if old(rpc)@.pending.contains_key(id) {
                (inbound matches Inbound::Reply { waiter, result } && waiter
                    == old(rpc)@.pending[id] && match (message@.get("error"@), result) {
                    (Some(error), Err(RpcError::Server(reported))) => reported@ == error,
                    (None, Ok(value)) => value@ == message@.get_or_null("result"@),
                    _ => false,
                }) && !final(rpc)@.pending.contains_key(id) && (other != id ==> (
                final(rpc)@.pending.contains_key(other) <==> old(rpc)@.pending.contains_key(other))
                    && (old(rpc)@.pending.contains_key(other) ==> final(rpc)@.pending[other]
                    == old(rpc)@.pending[other]))
            } else {
                inbound is Unmatched && final(rpc)@ == old(rpc)@
            },
            None => inbound is Unmatched && final(rpc)@ == old(rpc)@,
        },
        final(rpc)@.next_id == old(rpc)@.next_id,
        final(rpc)@.closed == old(rpc)@.closed,
{
}

/// A line is taken in as the message it stands for; one that stands for none changes nothing.
pub proof fn lines_are_taken_in<W>(
    rpc: &mut CodexRpc<W>,
    line: &str,
    inbound: Inbound<W>,
)
    requires
        call_ensures(CodexRpc::<W>::receive_line, (rpc, line), inbound),
        old(rpc)@.valid(),
    ensures
        match parsed(line@) {
            Some(message) => inbound@ == old(rpc)@.inbound(message) && final(rpc)@ == old(
                rpc,
            )@.received(message),
            None => inbound is Invalid && final(rpc)@ == old(rpc)@,
        },
{
}

/// A request that is withdrawn no longer waits; the others do.
pub proof fn withdrawn_requests_wait_no_longer<W>(
    rpc: &mut CodexRpc<W>,
    id: u64,
    error: RpcError,
    other: u64,
)
    requires
        call_ensures(CodexRpc::<W>::abandon, (rpc, id), error),
        old(rpc)@.valid(),
    ensures
        error is Stopped,
        !final(rpc)@.pending.contains_key(id),
        other != id ==> (final(rpc)@.pending.contains_key(other) <==> old(
            rpc,
        )@.pending.contains_key(other)),
        other != id && old(rpc)@.pending.contains_key(other) ==> final(rpc)@.pending[other]
            == old(rpc)@.pending[other],
        final(rpc)@.next_id == old(rpc)@.next_id,
        final(rpc)@.closed == old(rpc)@.closed,
{
}

/// Closing hands out everyone who waits, with the error of the side that ended.
pub proof fn closing_hands_everyone_out<W>(
    rpc: &mut CodexRpc<W>,
    side: Side,
    dropped: Dropped<W>,
    id: u64,
)
    requires
        call_ensures(CodexRpc::<W>::close, (rpc, side), dropped),
        old(rpc)@.valid(),
    ensures
        dropped.waiters@ == old(rpc)@.pending,
        side == Side::Input ==> dropped.error is InputClosed,
        side == Side::Output ==> dropped.error is OutputClosed,
        final(rpc)@.closed,
        !final(rpc)@.pending.contains_key(id),
        final(rpc)@.next_id == old(rpc)@.next_id,
{
}

/// A connection opens with nobody waiting and the first number to come, and tells both.
pub proof fn connections_open_empty<W>(rpc: CodexRpc<W>, id: u64, next: u64, closed: bool)
    requires
        call_ensures(CodexRpc::<W>::new, (), rpc),
        call_ensures(CodexRpc::<W>::next_id, (&rpc,), next),
        call_ensures(CodexRpc::<W>::is_closed, (&rpc,), closed),
    ensures
        next == 1,
        !closed,
        !rpc@.pending.contains_key(id),
{
}

/// Every failure of a call has its words, and the app-server's own error is quoted.
pub proof fn failures_have_their_words(error: RpcError, text: String)
    requires
        call_ensures(RpcError::message, (&error,), text),
    ensures
        match error {
            RpcError::Stopped => text@ == "Codex app-server stopped"@,
            RpcError::InputClosed => text@ == "Codex app-server input closed"@,
            RpcError::OutputClosed => text@ == "Codex app-server closed its output"@,
            RpcError::Server(quoted) => text@ == "Codex app-server error: "@ + rendered(quoted@),
        },
{
}

/// The calls without variable parameters are these.
pub proof fn fixed_calls_are_these(
    version: &str,
    opening: RpcCall,
    announcing: RpcCall,
    listing: RpcCall,
    reading: RpcCall,
    login: RpcCall,
)
    requires
        call_ensures(initialize_call, (version,), opening),
        call_ensures(initialized_call, (), announcing),
        call_ensures(list_models_call, (), listing),
        call_ensures(read_account_call, (), reading),
        call_ensures(start_login_call, (), login),
    ensures
        opening.method@ == "initialize"@,
        opening.params@.text_within("clientInfo"@, "name"@) == Some("codex_tui"@),
        opening.params@.text_within("clientInfo"@, "title"@) == Some("Codex TUI"@),
        opening.params@.text_within("clientInfo"@, "version"@) == Some(version@),
        opening.params@.get("clientInfo"@) matches Some(client) && holds_only(
            client,
            set!["name"@, "title"@, "version"@],
        ),
        opening.params@.get("capabilities"@) matches Some(capabilities) && capabilities.get(
            "experimentalApi"@,
        ) == Some(JsonView::Bool(true)) && holds_only(capabilities, set!["experimentalApi"@]),
        holds_only(opening.params@, set!["clientInfo"@, "capabilities"@]),
        announcing.method@ == "initialized"@,
        holds_only(announcing.params@, Set::<Seq<char>>::empty()),
        listing.method@ == "model/list"@,
        listing.params@.get("limit"@) == Some(JsonView::Integer(100)),
        holds_only(listing.params@, set!["limit"@]),
        reading.method@ == "account/read"@,
        holds_only(reading.params@, Set::<Seq<char>>::empty()),
        login.method@ == "account/login/start"@,
        login.params@.get("type"@) == Some(JsonView::Text("chatgpt"@)),
        login.params@.get("appBrand"@) == Some(JsonView::Text("codex"@)),
        login.params@.get("codexStreamlinedLogin"@) == Some(JsonView::Bool(true)),
        login.params@.get("useHostedLoginSuccessPage"@) == Some(JsonView::Bool(true)),
        holds_only(
            login.params@,
            set!["type"@, "appBrand"@, "codexStreamlinedLogin"@, "useHostedLoginSuccessPage"@],
        ),
{
    reveal_strlit("clientInfo");
    reveal_strlit("capabilities");
    reveal_strlit("name");
    reveal_strlit("title");
    reveal_strlit("version");
    reveal_strlit("experimentalApi");
    assert("clientInfo"@.len() == 10 && "capabilities"@.len() == 12 && "name"@.len() == 4);
    assert("title"@.len() == 5 && "version"@.len() == 7 && "experimentalApi"@.len() == 15);
    reveal_strlit("type");
    reveal_strlit("appBrand");
    reveal_strlit("codexStreamlinedLogin");
    reveal_strlit("useHostedLoginSuccessPage");
    assert("type"@.len() == 4 && "appBrand"@.len() == 8 && "codexStreamlinedLogin"@.len() == 21);
    assert("useHostedLoginSuccessPage"@.len() == 25);
}

/// A configuration that switches the documentation server off.
pub open spec fn switches_docs_off(config: JsonView) -> bool {
    &&& config.get("mcp_servers.openaiDeveloperDocs.enabled"@) == Some(JsonView::Bool(false))
    &&& holds_only(config, set!["mcp_servers.openaiDeveloperDocs.enabled"@])
}

/// Configuring a thread switches the documentation server off unless it is wanted, and leaves
/// every other parameter.
pub proof fn configuring_switches_docs_off(
    params: &mut JsonObject,
    openai_docs_mcp: bool,
    key: Seq<char>,
)
    requires
        call_ensures(apply_thread_config, (params, openai_docs_mcp), ()),
    ensures
        openai_docs_mcp ==> final(params)@ == old(params)@,
        !openai_docs_mcp ==> (JsonView::Object(final(params)@).get("config"@) matches Some(config)
            && switches_docs_off(config)),
        key != "config"@ ==> JsonView::Object(final(params)@).get(key) == JsonView::Object(
            old(params)@,
        ).get(key),
{
}

/// A thread is started in the directory given, with approval on request and writing confined to
/// the workspace, without the documentation server unless it is wanted, and with a model exactly
/// where one is asked for.
pub proof fn threads_start_where_they_are_told(
    cwd: &str,
    openai_docs_mcp: bool,
    model: Option<&str>,
    params: Json,
    call: RpcCall,
)
    requires
        call_ensures(new_thread_params, (cwd, openai_docs_mcp, model), params),
        call_ensures(start_thread_call, (cwd, openai_docs_mcp, model), call),
    ensures
        params@.get("cwd"@) == Some(JsonView::Text(cwd@)),
        params@.get("approvalPolicy"@) == Some(JsonView::Text("on-request"@)),
        params@.get("sandbox"@) == Some(JsonView::Text("workspace-write"@)),
        params@.get("model"@) == match model {
            Some(model) => Some(JsonView::Text(model@)),
            None => None,
        },
        match params@.get("config"@) {
            Some(config) => !openai_docs_mcp && switches_docs_off(config),
            None => openai_docs_mcp,
        },
        holds_only(
            params@,
            set!["cwd"@, "approvalPolicy"@, "sandbox"@, "config"@, "model"@],
        ),
        call.method@ == "thread/start"@,
        call.params@ == params@,
{
    reveal_strlit("cwd");
    reveal_strlit("approvalPolicy");
    reveal_strlit("sandbox");
    reveal_strlit("config");
    reveal_strlit("model");
    assert("cwd"@.len() == 3 && "approvalPolicy"@.len() == 14 && "sandbox"@.len() == 7);
    assert("config"@.len() == 6 && "model"@.len() == 5);
}

/// A stored thread is taken up by its id, in the directory given, and without the documentation
/// server unless it is wanted.
pub proof fn threads_are_taken_up_by_id(
    session: &str,
    cwd: &str,
    openai_docs_mcp: bool,
    call: RpcCall,
)
    requires
        call_ensures(resume_thread_call, (session, cwd, openai_docs_mcp), call),
    ensures
        call.method@ == "thread/resume"@,
        call.params@.get("threadId"@) == Some(JsonView::Text(session@)),
        call.params@.get("cwd"@) == Some(JsonView::Text(cwd@)),
        match call.params@.get("config"@) {
            Some(config) => !openai_docs_mcp && switches_docs_off(config),
            None => openai_docs_mcp,
        },
        holds_only(call.params@, set!["threadId"@, "cwd"@, "config"@]),
{
    reveal_strlit("threadId");
    reveal_strlit("cwd");
    reveal_strlit("config");
    assert("threadId"@.len() == 8 && "cwd"@.len() == 3 && "config"@.len() == 6);
}

/// A text of a prompt is handed on as it is; an image by its address, or with its data where it
/// has none; anything else not at all.
pub proof fn prompt_parts_are_handed_on(
    block: ContentBlock,
    prompt: &Vec<ContentBlock>,
    input: Vec<Json>,
)
    requires
        call_ensures(prompt_to_codex_input, (prompt,), input),
        prompt@ == seq![block],
    ensures
        match block {
            ContentBlock::Text(text) => input@.len() == 1 && input@[0]@.get("type"@) == Some(
                JsonView::Text("text"@),
            ) && input@[0]@.get("text"@) == Some(JsonView::Text(text@)) && holds_only(
                input@[0]@,
                set!["type"@, "text"@],
            ),
            ContentBlock::Image { data, mime_type, uri } => input@.len() == 1 && input@[0]@.get(
                "type"@,
            ) == Some(JsonView::Text("image"@)) && holds_only(input@[0]@, set!["type"@, "url"@])
                && match uri {
                Some(address) => input@[0]@.get("url"@) == Some(JsonView::Text(address@)),
                None => input@[0]@.get("url"@) == Some(
                    JsonView::Text("data:"@ + mime_type@ + ";base64,"@ + data@),
                ),
            },
            ContentBlock::Other => input@.len() == 0,
        },
{
    reveal_strlit("type");
    reveal_strlit("text");
    reveal_strlit("url");
    assert("type"@.len() == 4 && "text"@.len() == 4 && "url"@.len() == 3);
    assert("type"@[1] != "text"@[1]);
    assert(views(prompt@) =~= seq![block@]);
    Seq::<ContentBlockView>::lemma_filter_map_singleton(
        block@,
        |block: ContentBlockView| input_of(block),
    );
    assert(views(input@).len() == input@.len());
    if input@.len() > 0 {
        assert(views(input@)[0] == input@[0]@);
    }
}

/// What a prompt is handed on as is what its parts are handed on as, in their order.
pub proof fn prompts_are_handed_on_in_order(
    first: &Vec<ContentBlock>,
    second: &Vec<ContentBlock>,
    both: &Vec<ContentBlock>,
    first_input: Vec<Json>,
    second_input: Vec<Json>,
    input: Vec<Json>,
)
    requires
        call_ensures(prompt_to_codex_input, (first,), first_input),
        call_ensures(prompt_to_codex_input, (second,), second_input),
        call_ensures(prompt_to_codex_input, (both,), input),
        both@ == first@ + second@,
    ensures
        views(input@) == views(first_input@) + views(second_input@),
{
    assert(views(both@) =~= views(first@) + views(second@));
    lemma_picked_in_order(
        views(first@),
        views(second@),
        |block: ContentBlockView| input_of(block),
    );
}

/// A turn is started with the session's id, the input in its order, and the model, the effort and
/// the prompt's id that are given, null for each that is not.
pub proof fn turns_start_with_what_is_given(
    session: &str,
    input: Vec<Json>,
    model: Option<&str>,
    effort: Option<&str>,
    prompt_id: Option<&str>,
    params: Json,
    i: int,
)
    requires
        call_ensures(turn_start_params, (session, input, model, effort, prompt_id), params),
    ensures
        params@.get("threadId"@) == Some(JsonView::Text(session@)),
        params@.items_at("input"@).len() == input@.len(),
        0 <= i < input@.len() ==> params@.items_at("input"@)[i] == input@[i]@,
        params@.get("model"@) == Some(
            match model {
                Some(text) => JsonView::Text(text@),
                None => JsonView::Null,
            },
        ),
        params@.get("effort"@) == Some(
            match effort {
                Some(text) => JsonView::Text(text@),
                None => JsonView::Null,
            },
        ),
        params@.get("clientUserMessageId"@) == Some(
            match prompt_id {
                Some(text) => JsonView::Text(text@),
                None => JsonView::Null,
            },
        ),
        holds_only(
            params@,
            set!["threadId"@, "input"@, "model"@, "effort"@, "clientUserMessageId"@],
        ),
{
    reveal_strlit("threadId");
    reveal_strlit("input");
    reveal_strlit("model");
    reveal_strlit("effort");
    reveal_strlit("clientUserMessageId");
    assert("threadId"@.len() == 8 && "input"@.len() == 5 && "model"@.len() == 5);
    assert("effort"@.len() == 6 && "clientUserMessageId"@.len() == 19);
    assert("input"@[0] != "model"@[0]);
    assert(params@.items_at("input"@) == views(input@));
    if 0 <= i < input@.len() {
        assert(views(input@)[i] == input@[i]@);
    }
}

/// Stored threads are listed for the directory and the search that are asked for, as they stand,
/// latest first, and as many as are asked for, 30 where no number is.
pub proof fn stored_threads_are_asked_for(asked: &Json, call: RpcCall)
    requires
        call_ensures(list_threads_call, (asked,), call),
    ensures
        call.method@ == "thread/list"@,
        call.params@.get("cwd"@) == Some(
            match asked@.get("cwd"@) {
                Some(cwd) => cwd,
                None => JsonView::Null,
            },
        ),
        call.params@.get("searchTerm"@) == Some(
            match asked@.get("query"@) {
                Some(query) => query,
                None => JsonView::Null,
            },
        ),
        call.params@.get("limit"@) == Some(
            match asked@.get("limit"@) {
                Some(JsonView::Integer(limit)) => if 0 <= limit <= u64::MAX {
                    JsonView::Integer(limit)
                } else {
                    JsonView::Integer(30)
                },
                _ => JsonView::Integer(30),
            },
        ),
        call.params@.get("sortKey"@) == Some(JsonView::Text("updated_at"@)),
        call.params@.get("sortDirection"@) == Some(JsonView::Text("desc"@)),
        holds_only(
            call.params@,
            set!["cwd"@, "limit"@, "searchTerm"@, "sortKey"@, "sortDirection"@],
        ),
{
    reveal_strlit("cwd");
    reveal_strlit("limit");
    reveal_strlit("searchTerm");
    reveal_strlit("sortKey");
    reveal_strlit("sortDirection");
    assert("cwd"@.len() == 3 && "limit"@.len() == 5 && "searchTerm"@.len() == 10);
    assert("sortKey"@.len() == 7 && "sortDirection"@.len() == 13);
}

/// A stored thread is listed by its id, with its preview as its summary and its first prompt, its
/// directory, and its times as texts; it counts as updated when it was created where no later time
/// is told.
pub proof fn stored_threads_are_listed_as_they_are(
    response: &Json,
    list: Json,
    i: int,
    created: String,
    updated: String,
    created_at: i64,
    updated_at: i64,
)
    requires
        call_ensures(map_sessions, (response,), list),
        0 <= i < response@.items_at("data"@).len(),
        created_at == match response@.items_at("data"@)[i].signed_at("createdAt"@) {
            Some(seconds) => seconds,
            None => 0i64,
        },
        updated_at == match response@.items_at("data"@)[i].signed_at("updatedAt"@) {
            Some(seconds) => seconds,
            None => created_at,
        },
        call_ensures(timestamp, (created_at,), created),
        call_ensures(timestamp, (updated_at,), updated),
    ensures
        list@.items_at("sessions"@).len() == response@.items_at("data"@).len(),
        holds_only(list@, set!["sessions"@]),
        ({
            let thread = response@.items_at("data"@)[i];
            let listed = list@.items_at("sessions"@)[i];
            let or_null = |key: Seq<char>|
                match thread.get(key) {
                    Some(value) => value,
                    None => JsonView::Null,
                };
            &&& listed.get("sessionId"@) == Some(or_null("id"@))
            &&& listed.get("summary"@) == Some(
                match thread.get("preview"@) {
                    Some(preview) => preview,
                    None => JsonView::Text("Codex session"@),
                },
            )
            &&& listed.get("firstPrompt"@) == Some(or_null("preview"@))
            &&& listed.get("cwd"@) == Some(or_null("cwd"@))
            &&& listed.get("createdAt"@) == Some(JsonView::Text(created@))
            &&& listed.get("updatedAt"@) == Some(JsonView::Text(updated@))
            &&& listed.get("source"@) == Some(JsonView::Text("codex"@))
            &&& holds_only(
                listed,
                set![
                    "sessionId"@,
                    "summary"@,
                    "firstPrompt"@,
                    "cwd"@,
                    "createdAt"@,
                    "updatedAt"@,
                    "source"@,
                ],
            )
        }),
{
    reveal_strlit("sessionId");
    reveal_strlit("summary");
    reveal_strlit("firstPrompt");
    reveal_strlit("cwd");
    reveal_strlit("createdAt");
    reveal_strlit("updatedAt");
    reveal_strlit("source");
    assert("sessionId"@.len() == 9 && "summary"@.len() == 7 && "firstPrompt"@.len() == 11);
    assert("cwd"@.len() == 3 && "createdAt"@.len() == 9 && "updatedAt"@.len() == 9);
    assert("source"@.len() == 6);
    assert("sessionId"@[0] != "createdAt"@[0]);
    assert("sessionId"@[0] != "updatedAt"@[0]);
    assert("createdAt"@[0] != "updatedAt"@[0]);
    let thread = response@.items_at("data"@)[i];
    assert(list@.items_at("sessions"@) == response@.items_at("data"@).map_values(
        |thread: JsonView| session_entry(thread),
    ));
    assert(list@.items_at("sessions"@)[i] == session_entry(thread));
}

/// No stored threads make an empty list.
pub proof fn empty_lists_are_empty(response: &Json, list: Json)
    requires
        call_ensures(map_sessions, (response,), list),
        response@.items_at("data"@).len() == 0,
    ensures
        list@.get("sessions"@) == Some(JsonView::Array(Seq::<JsonView>::empty())),
        holds_only(list@, set!["sessions"@]),
{
    assert(response@.items_at("data"@).map_values(|thread: JsonView| session_entry(thread))
        =~= Seq::<JsonView>::empty());
}

/// Parameters that are no JSON text count as null, and others as what they say.
pub proof fn parameters_are_read(text: &str, params: Json)
    requires
        call_ensures(read_ext_params, (text,), params),
    ensures
        match parsed(text@) {
            Some(value) => params@ == value,
            None => params@ == JsonView::Null,
        },
{
}

/// A session has the two modes, default and plan, and is in the one named.
pub proof fn sessions_have_two_modes(current: &str, modes: SessionModeState)
    requires
        call_ensures(codex_session_modes, (current,), modes),
    ensures
        modes.current_mode_id@ == current@,
        modes.available_modes@.len() == 2,
        modes.available_modes@[0].id@ == "default"@,
        modes.available_modes@[0].name@ == "Default"@,
        modes.available_modes@[0].description@ == "Work normally and make changes when requested."@,
        modes.available_modes@[1].id@ == "plan"@,
        modes.available_modes@[1].name@ == "Plan"@,
        modes.available_modes@[1].description@
            == "Investigate and produce a plan without making changes."@,
{
    assert(views(modes.available_modes@).len() == 2);
    assert(views(modes.available_modes@)[0] == modes.available_modes@[0]@);
    assert(views(modes.available_modes@)[1] == modes.available_modes@[1]@);
}

/// The notice that a session can be used names it, and a failure is reported in its own words.
pub proof fn startup_is_told(
    session: &str,
    notice: ExtNotification,
    text: &str,
    error: AgentError,
)
    requires
        call_ensures(notify_session_startup_complete, (session,), notice),
        call_ensures(acp_error, (text,), error),
    ensures
        notice.method@ == "x.ai/mcp_initialized"@,
        notice.params@.get("sessionId"@) == Some(JsonView::Text(session@)),
        holds_only(notice.params@, set!["sessionId"@]),
        error matches AgentError::Internal(told) && told@ == text@,
{
}

/// The app-server knows a user: there is an account, and it is not null.
pub open spec fn knows_user(account: JsonView) -> bool {
    account.get("account"@) matches Some(user) && user != JsonView::Null
}

/// Connecting begins with the opening call; goes on to announce itself, to ask for the catalog, and
/// to ask for the account; and ends with what these said. Whatever fails ends it, in its own words.
pub proof fn connecting_goes_step_by_step<C, L>(
    agent: &mut CodexAgent<C, L>,
    stage: InitializeStage,
    reply: Json,
    efforts: Vec<Option<ReasoningEffort>>,
    version: &str,
    step: InitializeStep,
    announcing: RpcCall,
    listing: RpcCall,
    reading: RpcCall,
)
    requires
        call_ensures(
            CodexAgent::<C, L>::initialize,
            (agent, stage, Ok::<Json, RpcError>(reply), efforts, version),
            step,
        ),
        call_ensures(initialized_call, (), announcing),
        call_ensures(list_models_call, (), listing),
        call_ensures(read_account_call, (), reading),
    ensures
        stage is Opening ==> (step matches InitializeStep::Notify(call, next) && call@
            == announcing@ && next is Announcing),
        stage is Announcing ==> (step matches InitializeStep::Call(call, next) && call@ == listing@
            && next is Listing),
        stage is Listing ==> (step matches InitializeStep::Call(call, next) && call@ == reading@
            && next is Reading),
        stage is Reading ==> step is Done,
        !(stage is Listing) ==> final(agent)@.models == old(agent)@.models,
        stage is Reading ==> (final(agent)@.authenticated <==> old(agent)@.authenticated
            || knows_user(reply@)),
        !(stage is Reading) ==> final(agent)@.authenticated == old(agent)@.authenticated,
        final(agent)@ == (AgentState {
            models: final(agent)@.models,
            authenticated: final(agent)@.authenticated,
            ..old(agent)@
        }),
{
}

/// The catalog that connecting asks for is taken over, and what it says new sessions start with is
/// kept until the end.
pub proof fn connecting_takes_the_catalog_over<C, L>(
    agent: &mut CodexAgent<C, L>,
    reply: Json,
    efforts: Vec<Option<ReasoningEffort>>,
    version: &str,
    step: InitializeStep,
    refreshed: &mut CodexAgent<C, L>,
    start: Option<SessionModelState>,
)
    requires
        call_ensures(
            CodexAgent::<C, L>::initialize,
            (agent, InitializeStage::Listing, Ok::<Json, RpcError>(reply), efforts, version),
            step,
        ),
        call_ensures(CodexAgent::<C, L>::refresh_models, (refreshed, &reply, efforts), start),
        old(refreshed)@ == old(agent)@,
    ensures
        final(agent)@ == final(refreshed)@,
        step matches InitializeStep::Call(_, InitializeStage::Reading(kept)) && match (
            kept,
            start,
        ) {
            (Some(kept), Some(start)) => kept@ == start@,
            (None, None) => true,
            _ => false,
        },
{
}

/// What the agent says of itself at the end: its name, title and version, that stored sessions can
/// be loaded, how the user logs in (not at all where the app-server knows them), and the models
/// that new sessions start with, in the protocol's form.
pub proof fn connecting_ends_with_what_was_said<C, L>(
    agent: &mut CodexAgent<C, L>,
    models: Option<SessionModelState>,
    reply: Json,
    efforts: Vec<Option<ReasoningEffort>>,
    version: &str,
    step: InitializeStep,
    form: Json,
)
    requires
        call_ensures(
            CodexAgent::<C, L>::initialize,
            (
                agent,
                InitializeStage::Reading(models),
                Ok::<Json, RpcError>(reply),
                efforts,
                version,
            ),
            step,
        ),
        models matches Some(state) ==> call_ensures(SessionModelState::into_json, (state,), form),
    ensures
        step matches InitializeStep::Done(said) && {
            &&& said.agent_name@ == "codex"@
            &&& said.agent_title@ == "Codex"@
            &&& said.agent_version@ == version@
            &&& said.load_session
            &&& knows_user(reply@) ==> said.auth_method.id@ == "cached_token"@
                && said.auth_method.name@ == "Codex CLI session"@
                && said.auth_method.description is None && said.auth_method.meta is None
            &&& !knows_user(reply@) ==> said.auth_method.id@ == "oidc"@ && said.auth_method.name@
                == "Sign in with ChatGPT"@ && optional(said.auth_method.description) == Some(
                "Use the Codex CLI browser login"@,
            ) && (said.auth_method.meta matches Some(meta) && JsonView::Object(meta@).get(
                "external_provider"@,
            ) == Some(JsonView::Bool(true)))
            &&& models is None ==> said.meta is None
            &&& models is Some ==> (said.meta matches Some(meta) && JsonView::Object(meta@).get(
                "modelState"@,
            ) == Some(form@) && holds_only(JsonView::Object(meta@), set!["modelState"@]))
        },
{
}

/// A step of connecting that fails is reported in the words of the failure, and changes nothing.
pub proof fn connecting_fails_in_the_words_of_the_failure<C, L>(
    agent: &mut CodexAgent<C, L>,
    stage: InitializeStage,
    error: RpcError,
    efforts: Vec<Option<ReasoningEffort>>,
    version: &str,
    step: InitializeStep,
    words: String,
    begun: InitializeStep,
    opening: RpcCall,
)
    requires
        call_ensures(
            CodexAgent::<C, L>::initialize,
            (agent, stage, Err::<Json, RpcError>(error), efforts, version),
            step,
        ),
        call_ensures(RpcError::message, (&error,), words),
        call_ensures(CodexAgent::<C, L>::begin_initialize, (version,), begun),
        call_ensures(initialize_call, (version,), opening),
    ensures
        step matches InitializeStep::Fail(AgentError::Internal(text)) && text@ == words@,
        final(agent)@ == old(agent)@,
        begun matches InitializeStep::Call(call, InitializeStage::Opening) && call@ == opening@,
{
}

/// A login is started exactly where no user is logged in.
pub proof fn logins_start_where_needed<C, L>(
    agent: &CodexAgent<C, L>,
    call: Option<RpcCall>,
    login: RpcCall,
)
    requires
        call_ensures(CodexAgent::<C, L>::begin_authenticate, (agent,), call),
        call_ensures(start_login_call, (), login),
    ensures
        call is None <==> agent.authenticated,
        call matches Some(call) ==> call@ == login@,
{
}

/// A login that was started is noted under the id it was given, with the one who waits for it, and
/// the user is sent to the address given. Without an id, or without an address, nothing is noted
/// and the login fails for that reason; the id is missed first.
pub proof fn started_logins_are_noted<C, L>(
    agent: &mut CodexAgent<C, L>,
    reply: Result<Json, RpcError>,
    waiter: L,
    url: Result<String, AgentError>,
    words: String,
    other: Seq<char>,
)
    requires
        call_ensures(CodexAgent::<C, L>::authenticate, (agent, reply, waiter), url),
        reply matches Err(error) ==> call_ensures(RpcError::message, (&error,), words),
    ensures
        match reply {
            Err(_) => (url matches Err(AgentError::Internal(text)) && text@ == words@)
                && final(agent)@ == old(agent)@,
            Ok(response) => match (response@.get("loginId"@), response@.get("authUrl"@)) {
                (Some(JsonView::Text(login)), Some(JsonView::Text(address))) => (
                url matches Ok(text) && text@ == address) && final(agent)@.logins.contains_key(
                    login,
                ) && final(agent)@.logins[login] == waiter && (other != login ==> (
                final(agent)@.logins.contains_key(other) <==> old(agent)@.logins.contains_key(
                    other,
                )) && (old(agent)@.logins.contains_key(other) ==> final(agent)@.logins[other]
                    == old(agent)@.logins[other])),
                (Some(JsonView::Text(_)), _) => (url matches Err(AgentError::Internal(text))
                    && text@ == "Codex login returned no browser URL"@) && final(agent)@ == old(
                    agent,
                )@,
                _ => (url matches Err(AgentError::Internal(text)) && text@
                    == "Codex login returned no login id"@) && final(agent)@ == old(agent)@,
            },
        },
        final(agent)@ == (AgentState { logins: final(agent)@.logins, ..old(agent)@ }),
{
}

/// A login that succeeded leaves the user logged in; one that failed changes nothing and says why.
pub proof fn ended_logins_count<C, L>(
    agent: &mut CodexAgent<C, L>,
    outcome: LoginOutcome,
    result: Result<(), AgentError>,
)
    requires
        call_ensures(CodexAgent::<C, L>::finish_authenticate, (agent, outcome), result),
    ensures
        match outcome {
            LoginOutcome::Completed => result is Ok && final(agent)@ == (AgentState {
                authenticated: true,
                ..old(agent)@
            }),
            LoginOutcome::BrowserFailed(error) => (
            result matches Err(AgentError::Internal(text)) && text@
                == "failed to open login browser: "@ + error@) && final(agent)@ == old(agent)@,
            LoginOutcome::Interrupted => (result matches Err(AgentError::Internal(text)) && text@
                == "Codex login was interrupted"@) && final(agent)@ == old(agent)@,
            LoginOutcome::Failed(error) => (result matches Err(AgentError::Internal(text)) && text@
                == error@) && final(agent)@ == old(agent)@,
        },
{
}

/// The text that comes with a request under `key`.
pub open spec fn given(meta: Option<&JsonObject>, key: Seq<char>) -> Option<Seq<char>> {
    match meta {
        Some(meta) => match JsonView::Object(meta@).get(key) {
            Some(JsonView::Text(text)) => Some(text),
            _ => None,
        },
        None => None,
    }
}

/// A session is started in the directory given, with the model that the request asks for and the
/// agent's choice of the documentation server; a stored one is taken up with the same choice.
pub proof fn sessions_start_as_requested<C, L>(
    agent: &CodexAgent<C, L>,
    session: &str,
    cwd: &str,
    meta: Option<&JsonObject>,
    started: RpcCall,
    resumed: RpcCall,
)
    requires
        call_ensures(CodexAgent::<C, L>::begin_new_session, (agent, cwd, meta), started),
        call_ensures(CodexAgent::<C, L>::begin_load_session, (agent, session, cwd), resumed),
    ensures
        started.method@ == "thread/start"@,
        started.params@.get("cwd"@) == Some(JsonView::Text(cwd@)),
        started.params@.text_at("model"@) == given(meta, "modelId"@),
        started.params@.get("model"@) is Some <==> given(meta, "modelId"@) is Some,
        started.params@.get("config"@) is None <==> agent.openai_docs_mcp,
        resumed.method@ == "thread/resume"@,
        resumed.params@.get("threadId"@) == Some(JsonView::Text(session@)),
        resumed.params@.get("cwd"@) == Some(JsonView::Text(cwd@)),
        resumed.params@.get("config"@) is None <==> agent.openai_docs_mcp,
{
    reveal_strlit("cwd");
    reveal_strlit("approvalPolicy");
    reveal_strlit("sandbox");
    reveal_strlit("config");
    reveal_strlit("model");
    reveal_strlit("threadId");
    assert("cwd"@.len() == 3 && "approvalPolicy"@.len() == 14 && "sandbox"@.len() == 7);
    assert("config"@.len() == 6 && "model"@.len() == 5 && "threadId"@.len() == 8);
}

/// A session that was started is told under the id it was given, in the default mode, with the
/// model the app-server names; or else the first of the catalog; or else `default`. That model is
/// noted for it as a reported one is.
pub proof fn started_sessions_are_noted<C, L>(
    agent: &mut CodexAgent<C, L>,
    response: Json,
    reported: Option<ReasoningEffort>,
    opened: Result<OpenedSession, AgentError>,
    thread: Seq<char>,
    notice: ExtNotification,
    modes: SessionModeState,
    at: int,
    session: &str,
)
    requires
        call_ensures(
            CodexAgent::<C, L>::new_session,
            (agent, Ok::<Json, RpcError>(response), reported),
            opened,
        ),
        response@.text_within("thread"@, "id"@) == Some(thread),
        session@ == thread,
        call_ensures(notify_session_startup_complete, (session,), notice),
        call_ensures(codex_session_modes, ("default",), modes),
    ensures
        opened matches Ok(told) && {
            let model = told.models.current_model_id@;
            &&& told.session_id@ == thread
            &&& told.startup@ == notice@
            &&& told.modes@ == modes@
            &&& match response@.get("model"@) {
                Some(JsonView::Text(named)) => model == named,
                _ => if old(agent).models@.len() > 0 {
                    model == old(agent).models@[0].info.model_id@
                } else {
                    model == "default"@
                },
            }
            &&& final(agent)@.selected.contains_key(thread)
            &&& final(agent)@.selected[thread].model == model
            &&& reported matches Some(reported) ==> final(agent)@.selected[thread].effort == Some(
                reported@,
            )
            &&& reported is None && leads(old(agent).models@, model, at)
                ==> final(agent)@.selected[thread].effort == optional(old(agent).models@[at].effort)
            &&& reported is None && unlisted(old(agent).models@, model)
                ==> final(agent)@.selected[thread].effort is None
            &&& told.models@ == old(agent)@.model_state(
                model,
                final(agent)@.selected[thread].effort,
            )
        },
        final(agent)@ == (AgentState {
            selected: old(agent)@.selected.insert(thread, final(agent)@.selected[thread]),
            ..old(agent)@
        }),
{
    if old(agent).models@.len() > 0 {
        assert(old(agent)@.models[0] == old(agent).models@[0]@);
    }
    let model = old(agent)@.opened_model(response@);
    lemma_leads(old(agent).models@, model, at);
}

/// A session that was given no id is refused, as is one that the app-server failed to start; and
/// nothing is noted.
pub proof fn unstarted_sessions_are_refused<C, L>(
    agent: &mut CodexAgent<C, L>,
    reply: Result<Json, RpcError>,
    reported: Option<ReasoningEffort>,
    opened: Result<OpenedSession, AgentError>,
    words: String,
)
    requires
        call_ensures(CodexAgent::<C, L>::new_session, (agent, reply, reported), opened),
        reply matches Err(error) ==> call_ensures(RpcError::message, (&error,), words),
        reply matches Ok(response) ==> response@.text_within("thread"@, "id"@) is None,
    ensures
        final(agent)@ == old(agent)@,
        opened matches Err(AgentError::Internal(text)) && match reply {
            Err(_) => text@ == words@,
            Ok(_) => text@ == "thread/start returned no thread id"@,
        },
{
}

/// A stored session that was taken up is shown as its thread is stored; it uses the model the
/// app-server names, or else `default`, which is noted for it as a reported one is. One that could
/// not be taken up is refused in the words of the failure, and nothing is noted.
pub proof fn loaded_sessions_are_noted<C, L>(
    agent: &mut CodexAgent<C, L>,
    session: &str,
    reply: Result<Json, RpcError>,
    reported: Option<ReasoningEffort>,
    loaded: Result<LoadedSession, AgentError>,
    words: String,
    shown: Vec<SessionNotification>,
    notice: ExtNotification,
    at: int,
)
    requires
        call_ensures(CodexAgent::<C, L>::load_session, (agent, session, reply, reported), loaded),
        reply matches Err(error) ==> call_ensures(RpcError::message, (&error,), words),
        reply matches Ok(response) ==> call_ensures(replay_thread, (&response,), shown),
        call_ensures(notify_session_startup_complete, (session,), notice),
    ensures
        match reply {
            Err(_) => (loaded matches Err(AgentError::Internal(text)) && text@ == words@)
                && final(agent)@ == old(agent)@,
            Ok(response) => loaded matches Ok(told) && {
                &&& views(told.replay@) == views(shown@)
                &&& told.startup@ == notice@
                &&& match response@.get("model"@) {
                    Some(JsonView::Text(named)) => told.model@ == named,
                    _ => told.model@ == "default"@,
                }
                &&& final(agent)@.selected.contains_key(session@)
                &&& final(agent)@.selected[session@].model == told.model@
                &&& final(agent)@.selected[session@].effort == optional(told.effort)
                &&& reported matches Some(reported) ==> optional(told.effort) == Some(reported@)
                &&& reported is None && leads(old(agent).models@, told.model@, at) ==> optional(
                    told.effort,
                ) == optional(old(agent).models@[at].effort)
                &&& reported is None && unlisted(old(agent).models@, told.model@)
                    ==> told.effort is None
                &&& final(agent)@ == (AgentState {
                    selected: old(agent)@.selected.insert(
                        session@,
                        final(agent)@.selected[session@],
                    ),
                    ..old(agent)@
                })
            },
        },
{
    if reply is Ok {
        let model = text_or(reply->Ok_0@.text_at("model"@), "default"@);
        lemma_leads(old(agent).models@, model, at);
    }
}

/// What the pager is told of a loaded session is the default mode and the catalog as it is by then.
pub proof fn loaded_sessions_list_the_catalog<C, L>(
    agent: &CodexAgent<C, L>,
    model: &str,
    effort: &Option<ReasoningEffort>,
    response: LoadResponse,
    modes: SessionModeState,
    models: SessionModelState,
)
    requires
        call_ensures(CodexAgent::<C, L>::finish_load_session, (agent, model, effort), response),
        call_ensures(codex_session_modes, ("default",), modes),
        call_ensures(CodexAgent::<C, L>::model_state, (agent, model, effort), models),
    ensures
        response.modes@ == modes@,
        response.models@ == models@,
{
}

/// A prompt goes out for its session as it was handed on, under the prompt's id, with the model and
/// the effort noted for that session and null where none are.
pub proof fn prompts_go_out_with_the_selection<C, L>(
    agent: &CodexAgent<C, L>,
    session: &str,
    prompt: &Vec<ContentBlock>,
    meta: Option<&JsonObject>,
    call: RpcCall,
    input: Vec<Json>,
)
    requires
        call_ensures(CodexAgent::<C, L>::begin_prompt, (agent, session, prompt, meta), call),
        call_ensures(prompt_to_codex_input, (prompt,), input),
    ensures
        call.method@ == "turn/start"@,
        call.params@.get("threadId"@) == Some(JsonView::Text(session@)),
        call.params@.get("input"@) == Some(JsonView::Array(views(input@))),
        call.params@.get("clientUserMessageId"@) == Some(
            match given(meta, "promptId"@) {
                Some(id) => JsonView::Text(id),
                None => JsonView::Null,
            },
        ),
        call.params@.get("model"@) == Some(
            if agent.selected_models@.contains_key(session@) {
                JsonView::Text(agent.selected_models@[session@].model@)
            } else {
                JsonView::Null
            },
        ),
        call.params@.get("effort"@) == Some(
            if agent.selected_models@.contains_key(session@) {
                match agent.selected_models@[session@].effort {
                    Some(effort) => JsonView::Text(effort@),
                    None => JsonView::Null,
                }
            } else {
                JsonView::Null
            },
        ),
{
    reveal_strlit("threadId");
    reveal_strlit("input");
    reveal_strlit("model");
    reveal_strlit("effort");
    reveal_strlit("clientUserMessageId");
    assert("threadId"@.len() == 8 && "input"@.len() == 5 && "model"@.len() == 5);
    assert("effort"@.len() == 6 && "clientUserMessageId"@.len() == 19);
    assert("input"@[0] != "model"@[0]);
}

/// A turn that has begun is noted as the one that its session is in, with the one who waits for
/// it, under the id it was given. Without an id the turn is refused, and nothing is noted.
pub proof fn begun_turns_are_noted<C, L>(
    agent: &mut CodexAgent<C, L>,
    session: &str,
    reply: Result<Json, RpcError>,
    waiter: C,
    turn: Result<String, AgentError>,
    words: String,
    other: Seq<char>,
)
    requires
        call_ensures(CodexAgent::<C, L>::prompt, (agent, session, reply, waiter), turn),
        reply matches Err(error) ==> call_ensures(RpcError::message, (&error,), words),
    ensures
        match turn {
            Ok(id) => (reply matches Ok(response) && response@.text_within("turn"@, "id"@) == Some(
                id@,
            )) && final(agent)@.active_turns.contains_key(session@)
                && final(agent)@.active_turns[session@] == id@
                && final(agent)@.completions.contains_key(id@) && final(agent)@.completions[id@]
                == waiter && (other != session@ ==> (final(agent)@.active_turns.contains_key(other)
                <==> old(agent)@.active_turns.contains_key(other)) && (old(
                agent,
            )@.active_turns.contains_key(other) ==> final(agent)@.active_turns[other]
                == old(agent)@.active_turns[other])) && (other != id@ ==> (
            final(agent)@.completions.contains_key(other) <==> old(agent)@.completions.contains_key(
                other,
            )) && (old(agent)@.completions.contains_key(other) ==> final(agent)@.completions[other]
                == old(agent)@.completions[other])),
            Err(refusal) => final(agent)@ == old(agent)@ && (
            refusal matches AgentError::Internal(text) && match reply {
                Err(_) => text@ == words@,
                Ok(response) => response@.text_within("turn"@, "id"@) is None && text@
                    == "turn/start returned no turn id"@,
            }),
        },
        final(agent)@ == (AgentState {
            active_turns: final(agent)@.active_turns,
            completions: final(agent)@.completions,
            ..old(agent)@
        }),
{
}

/// The pager is told the reason that was reported, or else that the turn ended, together with the
/// prompt's id as it was given.
pub proof fn ended_prompts_are_told<C, L>(
    reason: Option<StopReason>,
    meta: Option<&JsonObject>,
    response: PromptResponse,
)
    requires
        call_ensures(CodexAgent::<C, L>::finish_prompt, (reason, meta), response),
    ensures
        reason matches Some(reason) ==> response.stop_reason == reason,
        reason is None ==> response.stop_reason == StopReason::EndTurn,
        match given(meta, "promptId"@) {
            Some(id) => response.meta matches Some(told) && JsonView::Object(told@).get("promptId"@)
                == Some(JsonView::Text(id)) && holds_only(
                JsonView::Object(told@),
                set!["promptId"@],
            ),
            None => response.meta is None,
        },
{
}

/// A cancellation interrupts the turn that the session is in, and none where it is in none; what
/// the app-server makes of it is handed on.
pub proof fn cancellations_interrupt_the_turn<C, L>(
    agent: &CodexAgent<C, L>,
    session: &str,
    call: Option<RpcCall>,
    reply: Result<Json, RpcError>,
    result: Result<(), AgentError>,
    words: String,
)
    requires
        call_ensures(CodexAgent::<C, L>::cancel, (agent, session), call),
        call_ensures(CodexAgent::<C, L>::finish_cancel, (reply,), result),
        reply matches Err(error) ==> call_ensures(RpcError::message, (&error,), words),
    ensures
        call is Some <==> agent.active_turns@.contains_key(session@),
        call matches Some(call) ==> call.method@ == "turn/interrupt"@ && call.params@.get(
            "threadId"@,
        ) == Some(JsonView::Text(session@)) && call.params@.get("turnId"@) == Some(
            JsonView::Text(agent.active_turns@[session@]@),
        ),
        result is Ok <==> reply is Ok,
        reply is Err ==> (result matches Err(AgentError::Internal(text)) && text@ == words@),
        call matches Some(call) ==> holds_only(call.params@, set!["threadId"@, "turnId"@]),
{
    reveal_strlit("threadId");
    reveal_strlit("turnId");
    assert("threadId"@.len() == 8 && "turnId"@.len() == 6);
}

/// A session is put into the mode asked for, with the model and the effort noted for it. Other
/// modes are refused by name, and then sessions that are not known, by theirs.
pub proof fn modes_are_set_with_the_selection<C, L>(
    agent: &CodexAgent<C, L>,
    session: &str,
    mode: &str,
    call: Result<RpcCall, AgentError>,
)
    requires
        call_ensures(CodexAgent::<C, L>::begin_set_session_mode, (agent, session, mode), call),
    ensures
        mode@ != "plan"@ && mode@ != "default"@ ==> (
        call matches Err(AgentError::InvalidParams(text)) && text@
            == "unsupported Codex session mode: "@ + mode@),
        (mode@ == "plan"@ || mode@ == "default"@) && !agent.selected_models@.contains_key(session@)
            ==> (call matches Err(AgentError::InvalidParams(text)) && text@
            == "unknown Codex session id: "@ + session@),
        (mode@ == "plan"@ || mode@ == "default"@) && agent.selected_models@.contains_key(session@)
            ==> (call matches Ok(call) && call.method@ == "thread/settings/update"@
            && call.params@.get("threadId"@) == Some(JsonView::Text(session@)) && (
        call.params@.get("collaborationMode"@) matches Some(asked) && asked.get("mode"@) == Some(
            JsonView::Text(mode@),
        ) && (asked.get("settings"@) matches Some(settings) && settings.get("model"@) == Some(
            JsonView::Text(agent.selected_models@[session@].model@),
        ) && settings.get("reasoning_effort"@) == Some(
            match agent.selected_models@[session@].effort {
                Some(effort) => JsonView::Text(effort@),
                None => JsonView::Null,
            },
        ) && settings.get("developer_instructions"@) == Some(JsonView::Null) && holds_only(
            settings,
            set!["model"@, "reasoning_effort"@, "developer_instructions"@],
        )) && holds_only(asked, set!["mode"@, "settings"@])) && holds_only(
            call.params@,
            set!["threadId"@, "collaborationMode"@],
        )),
{
    reveal_strlit("threadId");
    reveal_strlit("collaborationMode");
    assert("threadId"@.len() == 8 && "collaborationMode"@.len() == 17);
    reveal_strlit("mode");
    reveal_strlit("settings");
    reveal_strlit("model");
    reveal_strlit("reasoning_effort");
    reveal_strlit("developer_instructions");
    assert("mode"@.len() == 4 && "settings"@.len() == 8 && "model"@.len() == 5);
    assert("reasoning_effort"@.len() == 16 && "developer_instructions"@.len() == 22);
}

/// A mode that was set is shown in its session; one that was not is refused in the words of the
/// failure.
pub proof fn set_modes_are_shown<C, L>(
    session: &str,
    mode: &str,
    reply: Result<Json, RpcError>,
    shown: Result<SessionNotification, AgentError>,
    words: String,
)
    requires
        call_ensures(CodexAgent::<C, L>::set_session_mode, (session, mode, reply), shown),
        reply matches Err(error) ==> call_ensures(RpcError::message, (&error,), words),
    ensures
        match reply {
            Ok(_) => shown matches Ok(notice) && notice.session_id@ == session@ && (
            notice.update matches SessionUpdate::CurrentModeUpdate(told) && told@ == mode@),
            Err(_) => shown matches Err(AgentError::Internal(text)) && text@ == words@,
        },
{
}

/// Of the requests outside the protocol's own, only that for stored sessions is known. It is passed
/// on with its parameters, and answered with the text of the list.
pub proof fn stored_sessions_can_be_listed<C, L>(
    method: &str,
    params: &str,
    call: Result<RpcCall, AgentError>,
    asked: Json,
    listing: RpcCall,
    reply: Result<Json, RpcError>,
    answer: Result<String, AgentError>,
    list: Json,
    words: String,
)
    requires
        call_ensures(CodexAgent::<C, L>::begin_ext_method, (method, params), call),
        call_ensures(read_ext_params, (params,), asked),
        call_ensures(list_threads_call, (&asked,), listing),
        call_ensures(CodexAgent::<C, L>::ext_method, (reply,), answer),
        reply matches Ok(response) ==> call_ensures(map_sessions, (&response,), list),
        reply matches Err(error) ==> call_ensures(RpcError::message, (&error,), words),
    ensures
        method@ == "x.ai/session/list"@ ==> (call matches Ok(call) && call@ == listing@),
        method@ != "x.ai/session/list"@ ==> (call matches Err(error) && error is MethodNotFound),
        match reply {
            Ok(_) => answer matches Ok(text) && text@ == rendered(list@),
            Err(_) => answer matches Err(AgentError::Internal(text)) && text@ == words@,
        },
{
}

/// An agent that was just made knows of nothing, and keeps its choice of the documentation server.
pub proof fn agents_begin_empty<C, L>(
    openai_docs_mcp: bool,
    agent: CodexAgent<C, L>,
    key: Seq<char>,
)
    requires
        call_ensures(CodexAgent::<C, L>::new, (openai_docs_mcp,), agent),
    ensures
        agent.models@.len() == 0,
        !agent@.selected.contains_key(key),
        !agent@.active_turns.contains_key(key),
        !agent@.completions.contains_key(key),
        !agent@.logins.contains_key(key),
        !agent.authenticated,
        agent.openai_docs_mcp == openai_docs_mcp,
{
    assert(views(agent.models@).len() == agent.models@.len());
}

/// Whatever the window, no layout gives the logo a line, and only the standard one keeps columns
/// for it.
pub proof fn the_logo_takes_no_lines(
    height: u16,
    lines: u16,
    columns: u16,
    full_lines: u16,
    full_columns: u16,
    compact_lines: u16,
)
    requires
        call_ensures(logo_line_count, (height,), lines),
        call_ensures(logo_visual_width, (height,), columns),
        call_ensures(full_logo_line_count, (), full_lines),
        call_ensures(full_logo_visual_width, (), full_columns),
        call_ensures(compact_logo_line_count, (), compact_lines),
    ensures
        lines == 0 && full_lines == 0 && compact_lines == 0,
        columns == 24,
        full_columns == 0,
{
}

/// Drawing the logo leaves the screen as it is, in every layout.
pub proof fn the_logo_draws_nothing<T>(
    area: ratatui::layout::Rect,
    screen: &mut ratatui::buffer::Buffer,
    full_screen: &mut ratatui::buffer::Buffer,
    compact_screen: &mut ratatui::buffer::Buffer,
    theme: &T,
    height: u16,
)
    requires
        call_ensures(render_logo::<T>, (area, screen, theme, height), ()),
        call_ensures(render_full_logo::<T>, (area, full_screen, theme), ()),
        call_ensures(render_compact_logo::<T>, (area, compact_screen, theme), ()),
    ensures
        *final(screen) == *old(screen),
        *final(full_screen) == *old(full_screen),
        *final(compact_screen) == *old(compact_screen),
{
}

/// What else the pager is told when it connects is the protocol's form of the models, where there
/// are any.
pub proof fn published_models_are_the_ones_known(
    state: SessionModelState,
    meta: Option<JsonObject>,
    none: Option<JsonObject>,
    form: Json,
)
    requires
        call_ensures(published_meta, (Some(state),), meta),
        call_ensures(published_meta, (None::<SessionModelState>,), none),
        call_ensures(SessionModelState::into_json, (state,), form),
    ensures
        meta matches Some(meta) && JsonView::Object(meta@).get("modelState"@) == Some(form@)
            && holds_only(JsonView::Object(meta@), set!["modelState"@]),
        none is None,
{
}

/// Two calls that count as the same ask for the same, and two notices tell the same.
pub proof fn same_calls_ask_the_same(
    one: RpcCall,
    other: RpcCall,
    first: ExtNotification,
    second: ExtNotification,
)
    requires
        one@ == other@,
        first@ == second@,
    ensures
        one.method@ == other.method@,
        one.params@ == other.params@,
        first.method@ == second.method@,
        first.params@ == second.params@,
{
}

/// Two states of a session's modes that count as the same agree in every mode.
pub proof fn same_modes_are_offered(one: SessionModeState, other: SessionModeState, i: int)
    requires
        one@ == other@,
    ensures
        one.current_mode_id@ == other.current_mode_id@,
        one.available_modes@.len() == other.available_modes@.len(),
        0 <= i < one.available_modes@.len() ==> one.available_modes@[i].id@
            == other.available_modes@[i].id@ && one.available_modes@[i].name@
            == other.available_modes@[i].name@ && one.available_modes@[i].description@
            == other.available_modes@[i].description@,
{
    assert(views(one.available_modes@).len() == one.available_modes@.len());
    assert(views(other.available_modes@).len() == other.available_modes@.len());
    if 0 <= i < one.available_modes@.len() {
        assert(views(one.available_modes@)[i] == one.available_modes@[i]@);
        assert(views(other.available_modes@)[i] == other.available_modes@[i]@);
    }
}

} // verus!
