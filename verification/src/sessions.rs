//! The requests of the pager: what each asks of the app-server, and what it comes to once the
//! app-server has replied.

use vstd::prelude::*;

use crate::agent::{
    acp_error, effective_effort, AgentError, AgentErrorView, AgentState, CodexAgent,
};
use crate::calls::{
    initialize_call, initialize_spec, initialized_call, initialized_spec, list_models_call,
    list_models_spec, list_threads_call, list_threads_spec, map_sessions, nothing, params_or_null,
    prompt_input, prompt_to_codex_input, read_account_call, read_account_spec, read_ext_params,
    resume_thread_call, resume_thread_spec, session_list, start_login_call, start_login_spec,
    start_thread_call, start_thread_spec, turn_start, turn_start_params, ContentBlock,
    ContentBlockView,
};
use crate::json::{rendered, text_or_null, Json, JsonObject, JsonView};
use crate::models::{
    catalog_models, initial_model, model_state_form, ReasoningEffort, SessionModelState,
    SessionModelStateView,
};
use crate::rpc::{RpcCall, RpcCallView, RpcError};
use crate::text::{concat, optional, views};
use crate::updates::{
    replay_thread, replayed_thread, text_or, ExtNotification, ExtNotificationView,
    SessionNotification, SessionNotificationView, SessionUpdate, SessionUpdateView,
};

verus! {

/// A way in which a session can work.
#[derive(Debug, PartialEq)]
pub struct SessionMode {
    pub id: String,
    pub name: String,
    pub description: String,
}

#[verifier::ext_equal]
pub struct SessionModeView {
    pub id: Seq<char>,
    pub name: Seq<char>,
    pub description: Seq<char>,
}

impl View for SessionMode {
    type V = SessionModeView;

    open spec fn view(&self) -> SessionModeView {
        SessionModeView { id: self.id@, name: self.name@, description: self.description@ }
    }
}

/// The modes of a session and the one it is in.
#[derive(Debug, PartialEq)]
pub struct SessionModeState {
    pub current_mode_id: String,
    pub available_modes: Vec<SessionMode>,
}

#[verifier::ext_equal]
pub struct SessionModeStateView {
    pub current_mode_id: Seq<char>,
    pub available_modes: Seq<SessionModeView>,
}

impl View for SessionModeState {
    type V = SessionModeStateView;

    open spec fn view(&self) -> SessionModeStateView {
        SessionModeStateView {
            current_mode_id: self.current_mode_id@,
            available_modes: views(self.available_modes@),
        }
    }
}

/// The mode in which a session works normally.
pub open spec fn default_mode() -> SessionModeView {
    SessionModeView {
        id: "default"@,
        name: "Default"@,
        description: "Work normally and make changes when requested."@,
    }
}

/// The mode in which a session only plans.
pub open spec fn plan_mode() -> SessionModeView {
    SessionModeView {
        id: "plan"@,
        name: "Plan"@,
        description: "Investigate and produce a plan without making changes."@,
    }
}

/// The modes of a session that is in the mode `current`.
pub open spec fn session_modes(current: Seq<char>) -> SessionModeStateView {
    SessionModeStateView {
        current_mode_id: current,
        available_modes: seq![default_mode(), plan_mode()],
    }
}

/// The modes of a session that is in the mode `current`.
pub fn codex_session_modes(current: &str) -> (modes: SessionModeState)
    ensures
        modes@ == session_modes(current@),
{
    let mut available_modes: Vec<SessionMode> = Vec::new();
    available_modes.push(
        SessionMode {
            id: "default".to_owned(),
            name: "Default".to_owned(),
            description: "Work normally and make changes when requested.".to_owned(),
        },
    );
    available_modes.push(
        SessionMode {
            id: "plan".to_owned(),
            name: "Plan".to_owned(),
            description: "Investigate and produce a plan without making changes.".to_owned(),
        },
    );
    assert(views(available_modes@) =~= seq![default_mode(), plan_mode()]);
    SessionModeState { current_mode_id: current.to_owned(), available_modes }
}

/// The notification that a session can be used.
pub open spec fn startup_notice(session_id: Seq<char>) -> ExtNotificationView {
    ExtNotificationView {
        method: "x.ai/mcp_initialized"@,
        params: JsonView::Object(nothing().insert("sessionId"@, JsonView::Text(session_id))),
    }
}

/// The notification that a session can be used.
pub fn notify_session_startup_complete(session_id: &str) -> (notice: ExtNotification)
    ensures
        notice@ == startup_notice(session_id@),
{
    ExtNotification {
        method: "x.ai/mcp_initialized".to_owned(),
        params: Json::Object(JsonObject::new().with("sessionId", Json::text(session_id))),
    }
}

/// The text under `key` in what comes with a request.
pub open spec fn text_in(meta: Option<Map<Seq<char>, JsonView>>, key: Seq<char>) -> Option<
    Seq<char>,
> {
    match meta {
        Some(meta) => JsonView::Object(meta).text_at(key),
        None => None,
    }
}

fn meta_text<'a>(meta: Option<&'a JsonObject>, key: &str) -> (text: Option<&'a str>)
    ensures
        optional(text) == text_in(optional(meta), key@),
{
    match meta {
        Some(meta) => match meta.get(key) {
            Some(value) => value.as_str(),
            None => None,
        },
        None => None,
    }
}

/// A way to log in.
#[derive(Debug, PartialEq)]
pub struct AuthMethod {
    pub id: String,
    pub name: String,
    pub description: Option<String>,
    /// What else the pager is told of it.
    pub meta: Option<JsonObject>,
}

#[verifier::ext_equal]
pub struct AuthMethodView {
    pub id: Seq<char>,
    pub name: Seq<char>,
    pub description: Option<Seq<char>>,
    pub meta: Option<Map<Seq<char>, JsonView>>,
}

impl View for AuthMethod {
    type V = AuthMethodView;

    open spec fn view(&self) -> AuthMethodView {
        AuthMethodView {
            id: self.id@,
            name: self.name@,
            description: optional(self.description),
            meta: optional(self.meta),
        }
    }
}

/// Whether the app-server knows the user.
pub open spec fn logged_in(account: JsonView) -> bool {
    account.get("account"@) matches Some(user) && user != JsonView::Null
}

/// How the user logs in: outside the pager, or not at all where the app-server knows the user
/// already.
pub open spec fn auth_method(account: JsonView) -> AuthMethodView {
    if logged_in(account) {
        AuthMethodView {
            id: "cached_token"@,
            name: "Codex CLI session"@,
            description: None,
            meta: None,
        }
    } else {
        AuthMethodView {
            id: "oidc"@,
            name: "Sign in with ChatGPT"@,
            description: Some("Use the Codex CLI browser login"@),
            meta: Some(nothing().insert("external_provider"@, JsonView::Bool(true))),
        }
    }
}

/// What the agent says of itself when the pager connects.
#[derive(Debug, PartialEq)]
pub struct InitializeResponse {
    pub agent_name: String,
    pub agent_title: String,
    pub agent_version: String,
    /// Stored sessions can be loaded.
    pub load_session: bool,
    pub auth_method: AuthMethod,
    /// What else the pager is told.
    pub meta: Option<JsonObject>,
}

#[verifier::ext_equal]
pub struct InitializeResponseView {
    pub agent_name: Seq<char>,
    pub agent_title: Seq<char>,
    pub agent_version: Seq<char>,
    pub load_session: bool,
    pub auth_method: AuthMethodView,
    pub meta: Option<Map<Seq<char>, JsonView>>,
}

impl View for InitializeResponse {
    type V = InitializeResponseView;

    open spec fn view(&self) -> InitializeResponseView {
        InitializeResponseView {
            agent_name: self.agent_name@,
            agent_title: self.agent_title@,
            agent_version: self.agent_version@,
            load_session: self.load_session,
            auth_method: self.auth_method@,
            meta: optional(self.meta),
        }
    }
}

/// What else the pager is told when it connects: the models that new sessions start with, where
/// there are any.
pub open spec fn connected_meta(state: Option<SessionModelStateView>) -> Option<
    Map<Seq<char>, JsonView>,
> {
    match state {
        Some(state) => Some(nothing().insert("modelState"@, model_state_form(state))),
        None => None,
    }
}

/// What else the pager is told when it connects, given the models that new sessions start with.
pub fn published_meta(state: Option<SessionModelState>) -> (meta: Option<JsonObject>)
    ensures
        optional(meta) == connected_meta(optional(state)),
{
    match state {
        Some(state) => Some(JsonObject::new().with("modelState", state.into_json())),
        None => None,
    }
}

/// How far the agent has come in connecting: what it waits for.
#[derive(Debug, PartialEq)]
pub enum InitializeStage {
    /// The reply to the opening call.
    Opening,
    /// The notification that the connection is open to be sent.
    Announcing,
    /// The catalog.
    Listing,
    /// The account, with the models that new sessions start with.
    Reading(Option<SessionModelState>),
}

#[verifier::ext_equal]
pub enum InitializeStageView {
    Opening,
    Announcing,
    Listing,
    Reading(Option<SessionModelStateView>),
}

impl View for InitializeStage {
    type V = InitializeStageView;

    open spec fn view(&self) -> InitializeStageView {
        match self {
            InitializeStage::Opening => InitializeStageView::Opening,
            InitializeStage::Announcing => InitializeStageView::Announcing,
            InitializeStage::Listing => InitializeStageView::Listing,
            InitializeStage::Reading(models) => InitializeStageView::Reading(optional(*models)),
        }
    }
}

/// What the agent does next in connecting.
#[derive(Debug, PartialEq)]
pub enum InitializeStep {
    /// Make the call and go on with its reply.
    Call(RpcCall, InitializeStage),
    /// Send the notification and go on once it is sent.
    Notify(RpcCall, InitializeStage),
    /// Report the failure.
    Fail(AgentError),
    /// Answer the pager.
    Done(InitializeResponse),
}

#[verifier::ext_equal]
pub enum InitializeStepView {
    Call(RpcCallView, InitializeStageView),
    Notify(RpcCallView, InitializeStageView),
    Fail(AgentErrorView),
    Done(InitializeResponseView),
}

impl View for InitializeStep {
    type V = InitializeStepView;

    open spec fn view(&self) -> InitializeStepView {
        match self {
            InitializeStep::Call(call, stage) => InitializeStepView::Call(call@, stage@),
            InitializeStep::Notify(call, stage) => InitializeStepView::Notify(call@, stage@),
            InitializeStep::Fail(error) => InitializeStepView::Fail(error@),
            InitializeStep::Done(response) => InitializeStepView::Done(response@),
        }
    }
}

/// The models that new sessions start with, for a catalog.
pub open spec fn starting_models(response: JsonView) -> Option<SessionModelStateView> {
    match initial_model(response, catalog_models(response)) {
        Some(current) => Some(
            SessionModelStateView {
                current_model_id: current,
                available_models: catalog_models(response),
            },
        ),
        None => None,
    }
}

/// What the agent does once what it waited for has succeeded with `reply`.
pub open spec fn next_step(
    stage: InitializeStageView,
    reply: JsonView,
    version: Seq<char>,
) -> InitializeStepView {
    match stage {
        InitializeStageView::Opening => InitializeStepView::Notify(
            initialized_spec(),
            InitializeStageView::Announcing,
        ),
        InitializeStageView::Announcing => InitializeStepView::Call(
            list_models_spec(),
            InitializeStageView::Listing,
        ),
        InitializeStageView::Listing => InitializeStepView::Call(
            read_account_spec(),
            InitializeStageView::Reading(starting_models(reply)),
        ),
        InitializeStageView::Reading(model_state) => InitializeStepView::Done(
            InitializeResponseView {
                agent_name: "codex"@,
                agent_title: "Codex"@,
                agent_version: version,
                load_session: true,
                auth_method: auth_method(reply),
                meta: connected_meta(model_state),
            },
        ),
    }
}

/// How a login that was started ended.
#[derive(Debug, PartialEq)]
pub enum LoginOutcome {
    /// The browser could not be opened, for this reason.
    BrowserFailed(String),
    /// Nobody will report the end of the login.
    Interrupted,
    /// The app-server reports that the login failed, in these words.
    Failed(String),
    /// The user is logged in.
    Completed,
}

impl LoginOutcome {
    /// The text with which the failure is reported: none where there was none.
    pub open spec fn failure(self) -> Option<Seq<char>> {
        match self {
            LoginOutcome::BrowserFailed(error) => Some("failed to open login browser: "@ + error@),
            LoginOutcome::Interrupted => Some("Codex login was interrupted"@),
            LoginOutcome::Failed(error) => Some(error@),
            LoginOutcome::Completed => None,
        }
    }
}

/// A session that was started.
#[derive(Debug, PartialEq)]
pub struct OpenedSession {
    pub session_id: String,
    pub startup: ExtNotification,
    pub modes: SessionModeState,
    pub models: SessionModelState,
}

#[verifier::ext_equal]
pub struct OpenedSessionView {
    pub session_id: Seq<char>,
    pub startup: ExtNotificationView,
    pub modes: SessionModeStateView,
    pub models: SessionModelStateView,
}

impl View for OpenedSession {
    type V = OpenedSessionView;

    open spec fn view(&self) -> OpenedSessionView {
        OpenedSessionView {
            session_id: self.session_id@,
            startup: self.startup@,
            modes: self.modes@,
            models: self.models@,
        }
    }
}

/// A stored session that was taken up: what is shown of it, and then that it can be used. The
/// model and the effort that it uses go into the answer.
#[derive(Debug, PartialEq)]
pub struct LoadedSession {
    pub replay: Vec<SessionNotification>,
    pub startup: ExtNotification,
    pub model: String,
    pub effort: Option<ReasoningEffort>,
}

#[verifier::ext_equal]
pub struct LoadedSessionView {
    pub replay: Seq<SessionNotificationView>,
    pub startup: ExtNotificationView,
    pub model: Seq<char>,
    pub effort: Option<Seq<char>>,
}

impl View for LoadedSession {
    type V = LoadedSessionView;

    open spec fn view(&self) -> LoadedSessionView {
        LoadedSessionView {
            replay: views(self.replay@),
            startup: self.startup@,
            model: self.model@,
            effort: optional(self.effort),
        }
    }
}

/// What the pager is told of a stored session, once it was shown.
#[derive(Debug, PartialEq)]
pub struct LoadResponse {
    pub modes: SessionModeState,
    pub models: SessionModelState,
}

/// Why a turn ended.
#[derive(Clone, Copy, Debug, PartialEq, Eq, Structural)]
pub enum StopReason {
    EndTurn,
    Cancelled,
}

/// What the pager is told of a turn that ended.
#[derive(Debug, PartialEq)]
pub struct PromptResponse {
    pub stop_reason: StopReason,
    pub meta: Option<JsonObject>,
}

impl<C, L> AgentState<C, L> {
    /// The model that a new session uses: the one that the app-server names, or else the first of
    /// the catalog.
    pub open spec fn opened_model(self, response: JsonView) -> Seq<char> {
        match response.text_at("model"@) {
            Some(model) => model,
            None => if self.models.len() > 0 {
                self.models[0].info.model_id
            } else {
                "default"@
            },
        }
    }

    /// The model list of a session that was just noted to use this model.
    pub open spec fn listed_for(self, model: Seq<char>, reported: Option<Seq<char>>) ->
        SessionModelStateView {
        self.model_state(model, effective_effort(reported, self.models, model))
    }

    /// The call that starts a turn: with the model and the effort that the session uses.
    pub open spec fn turn_call(
        self,
        session_id: Seq<char>,
        prompt: Seq<ContentBlockView>,
        prompt_id: Option<Seq<char>>,
    ) -> RpcCallView {
        RpcCallView {
            method: "turn/start"@,
            params: JsonView::Object(
                if self.selected.contains_key(session_id) {
                    turn_start(
                        session_id,
                        prompt_input(prompt),
                        Some(self.selected[session_id].model),
                        self.selected[session_id].effort,
                        prompt_id,
                    )
                } else {
                    turn_start(session_id, prompt_input(prompt), None, None, prompt_id)
                },
            ),
        }
    }

    /// The state once a turn of a session has begun, for which `waiter` waits.
    pub open spec fn turn_begun(
        self,
        session_id: Seq<char>,
        turn_id: Seq<char>,
        waiter: C,
    ) -> Self {
        AgentState {
            active_turns: self.active_turns.insert(session_id, turn_id),
            completions: self.completions.insert(turn_id, waiter),
            ..self
        }
    }

    /// The call that puts a session into a mode: with the model and the effort that it uses.
    pub open spec fn mode_call(self, session_id: Seq<char>, mode: Seq<char>) -> RpcCallView {
        let settings = nothing().insert(
            "model"@,
            JsonView::Text(self.selected[session_id].model),
        ).insert("reasoning_effort"@, text_or_null(self.selected[session_id].effort)).insert(
            "developer_instructions"@,
            JsonView::Null,
        );
        RpcCallView {
            method: "thread/settings/update"@,
            params: JsonView::Object(
                nothing().insert("threadId"@, JsonView::Text(session_id)).insert(
                    "collaborationMode"@,
                    JsonView::Object(
                        nothing().insert("mode"@, JsonView::Text(mode)).insert(
                            "settings"@,
                            JsonView::Object(settings),
                        ),
                    ),
                ),
            ),
        }
    }
}

/// The error for a call that the app-server did not perform.
fn call_error(error: &RpcError) -> (result: AgentError)
    ensures
        result@ == AgentErrorView::Internal(error@.message()),
{
    acp_error(error.message().as_str())
}

impl<C, L> CodexAgent<C, L> {
    /// Begins to connect.
    pub fn begin_initialize(version: &str) -> (step: InitializeStep)
        ensures
            step@ == InitializeStepView::Call(
                initialize_spec(version@),
                InitializeStageView::Opening,
            ),
    {
        InitializeStep::Call(initialize_call(version), InitializeStage::Opening)
    }

    /// Goes on connecting, once what the stage waits for has come to `reply`. For the catalog,
    /// `efforts` holds the effort of each of its models in turn.
    pub fn initialize(
        &mut self,
        stage: InitializeStage,
        reply: Result<Json, RpcError>,
        efforts: Vec<Option<ReasoningEffort>>,
        version: &str,
    ) -> (step: InitializeStep)
        ensures
            match reply {
                Ok(reply) => step@ == next_step(stage@, reply@, version@),
                Err(error) => step@ == InitializeStepView::Fail(
                    AgentErrorView::Internal(error@.message()),
                ),
            },
            final(self)@ == match (reply, stage@) {
                (Ok(reply), InitializeStageView::Listing) => old(self)@.refreshed(reply@, efforts@),
                (Ok(reply), InitializeStageView::Reading(_)) => AgentState {
                    authenticated: old(self)@.authenticated || logged_in(reply@),
                    ..old(self)@
                },
                _ => old(self)@,
            },
    {
        let reply = match reply {
            Ok(reply) => reply,
            Err(error) => {
                return InitializeStep::Fail(call_error(&error));
            },
        };
        match stage {
            InitializeStage::Opening => InitializeStep::Notify(
                initialized_call(),
                InitializeStage::Announcing,
            ),
            InitializeStage::Announcing => InitializeStep::Call(
                list_models_call(),
                InitializeStage::Listing,
            ),
            InitializeStage::Listing => {
                let models = self.refresh_models(&reply, efforts);
                InitializeStep::Call(read_account_call(), InitializeStage::Reading(models))
            },
            InitializeStage::Reading(model_state) => {
                let known = match reply.get("account") {
                    Some(user) => !user.is_null(),
                    None => false,
                };
                let auth_method = if known {
                    self.authenticated = true;
                    AuthMethod {
                        id: "cached_token".to_owned(),
                        name: "Codex CLI session".to_owned(),
                        description: None,
                        meta: None,
                    }
                } else {
                    AuthMethod {
                        id: "oidc".to_owned(),
                        name: "Sign in with ChatGPT".to_owned(),
                        description: Some("Use the Codex CLI browser login".to_owned()),
                        meta: Some(JsonObject::new().with("external_provider", Json::Bool(true))),
                    }
                };
                InitializeStep::Done(
                    InitializeResponse {
                        agent_name: "codex".to_owned(),
                        agent_title: "Codex".to_owned(),
                        agent_version: version.to_owned(),
                        load_session: true,
                        auth_method,
                        meta: published_meta(model_state),
                    },
                )
            },
        }
    }

    /// Begins a login: with nothing to do where the user is logged in.
    pub fn begin_authenticate(&self) -> (call: Option<RpcCall>)
        ensures
            match call {
                Some(call) => !self@.authenticated && call@ == start_login_spec(),
                None => self@.authenticated,
            },
    {
        if self.authenticated {
            None
        } else {
            Some(start_login_call())
        }
    }

    /// Notes the login that was started, for whose end `waiter` waits, and says which address the
    /// user logs in at.
    pub fn authenticate(&mut self, reply: Result<Json, RpcError>, waiter: L) -> (url: Result<
        String,
        AgentError,
    >)
        ensures
            match reply {
                Err(error) => url matches Err(refusal) && refusal@ == AgentErrorView::Internal(
                    error@.message(),
                ) && final(self)@ == old(self)@,
                Ok(response) => match (
                    response@.text_at("loginId"@),
                    response@.text_at("authUrl"@),
                ) {
                    (None, _) => url matches Err(refusal) && refusal@ == AgentErrorView::Internal(
                        "Codex login returned no login id"@,
                    ) && final(self)@ == old(self)@,
                    (Some(_), None) => url matches Err(refusal) && refusal@
                        == AgentErrorView::Internal("Codex login returned no browser URL"@)
                        && final(self)@ == old(self)@,
                    (Some(login), Some(address)) => url matches Ok(text) && text@ == address
                        && final(self)@ == (AgentState {
                        logins: old(self)@.logins.insert(login, waiter),
                        ..old(self)@
                    }),
                },
            },
    {
        let response = match reply {
            Ok(response) => response,
            Err(error) => {
                return Err(call_error(&error));
            },
        };
        let login_id = match response.get_str("loginId") {
            Some(login_id) => login_id,
            None => {
                return Err(acp_error("Codex login returned no login id"));
            },
        };
        let auth_url = match response.get_str("authUrl") {
            Some(auth_url) => auth_url,
            None => {
                return Err(acp_error("Codex login returned no browser URL"));
            },
        };
        self.login_completions.insert(login_id.to_owned(), waiter);
        Ok(auth_url.to_owned())
    }

    /// Ends a login: the user counts as logged in where it succeeded.
    pub fn finish_authenticate(&mut self, outcome: LoginOutcome) -> (result: Result<(), AgentError>)
        ensures
            match outcome.failure() {
                Some(text) => result matches Err(error) && error@ == AgentErrorView::Internal(text)
                    && final(self)@ == old(self)@,
                None => result is Ok && final(self)@ == (AgentState {
                    authenticated: true,
                    ..old(self)@
                }),
            },
    {
        match outcome {
            LoginOutcome::BrowserFailed(error) => Err(
                acp_error(concat("failed to open login browser: ", error.as_str()).as_str()),
            ),
            LoginOutcome::Interrupted => Err(acp_error("Codex login was interrupted")),
            LoginOutcome::Failed(error) => Err(acp_error(error.as_str())),
            LoginOutcome::Completed => {
                self.authenticated = true;
                Ok(())
            },
        }
    }

    /// The call that starts a session, with the model that the request asks for.
    pub fn begin_new_session(&self, cwd: &str, meta: Option<&JsonObject>) -> (call: RpcCall)
        ensures
            call@ == start_thread_spec(
                cwd@,
                self@.openai_docs_mcp,
                text_in(optional(meta), "modelId"@),
            ),
    {
        start_thread_call(cwd, self.openai_docs_mcp, meta_text(meta, "modelId"))
    }

    /// Notes the session that was started. `reported` is the effort that the reply names.
    pub fn new_session(
        &mut self,
        reply: Result<Json, RpcError>,
        reported: Option<ReasoningEffort>,
    ) -> (opened: Result<OpenedSession, AgentError>)
        ensures
            match reply {
                Err(error) => opened matches Err(refusal) && refusal@ == AgentErrorView::Internal(
                    error@.message(),
                ) && final(self)@ == old(self)@,
                Ok(response) => match response@.text_within("thread"@, "id"@) {
                    None => opened matches Err(refusal) && refusal@ == AgentErrorView::Internal(
                        "thread/start returned no thread id"@,
                    ) && final(self)@ == old(self)@,
                    Some(thread) => opened matches Ok(session) && session@ == (OpenedSessionView {
                        session_id: thread,
                        startup: startup_notice(thread),
                        modes: session_modes("default"@),
                        models: old(self)@.listed_for(
                            old(self)@.opened_model(response@),
                            optional(reported),
                        ),
                    }) && final(self)@ == old(self)@.select(
                        thread,
                        old(self)@.opened_model(response@),
                        optional(reported),
                    ),
                },
            },
    {
        let response = match reply {
            Ok(response) => response,
            Err(error) => {
                return Err(call_error(&error));
            },
        };
        let thread_id = match response.get_str_within("thread", "id") {
            Some(thread_id) => thread_id,
            None => {
                return Err(acp_error("thread/start returned no thread id"));
            },
        };
        let model = match response.get_str("model") {
            Some(model) => model.to_owned(),
            None => if self.models.len() > 0 {
                assert(self@.models[0] == self.models@[0]@);
                self.models[0].info.model_id.clone()
            } else {
                "default".to_owned()
            },
        };
        let effort = self.record_session_selection(thread_id, model.as_str(), reported);
        Ok(
            OpenedSession {
                session_id: thread_id.to_owned(),
                startup: notify_session_startup_complete(thread_id),
                modes: codex_session_modes("default"),
                models: self.model_state(model.as_str(), &effort),
            },
        )
    }

    /// The call that takes up a stored session.
    pub fn begin_load_session(&self, session_id: &str, cwd: &str) -> (call: RpcCall)
        ensures
            call@ == resume_thread_spec(session_id@, cwd@, self@.openai_docs_mcp),
    {
        resume_thread_call(session_id, cwd, self.openai_docs_mcp)
    }

    /// Notes the stored session that was taken up. `reported` is the effort that the reply names.
    pub fn load_session(
        &mut self,
        session_id: &str,
        reply: Result<Json, RpcError>,
        reported: Option<ReasoningEffort>,
    ) -> (loaded: Result<LoadedSession, AgentError>)
        ensures
            match reply {
                Err(error) => loaded matches Err(refusal) && refusal@ == AgentErrorView::Internal(
                    error@.message(),
                ) && final(self)@ == old(self)@,
                Ok(response) => loaded matches Ok(session) && session@ == (LoadedSessionView {
                    replay: replayed_thread(response@),
                    startup: startup_notice(session_id@),
                    model: text_or(response@.text_at("model"@), "default"@),
                    effort: effective_effort(
                        optional(reported),
                        old(self)@.models,
                        text_or(response@.text_at("model"@), "default"@),
                    ),
                }) && final(self)@ == old(self)@.select(
                    session_id@,
                    text_or(response@.text_at("model"@), "default"@),
                    optional(reported),
                ),
            },
    {
        let response = match reply {
            Ok(response) => response,
            Err(error) => {
                return Err(call_error(&error));
            },
        };
        let model = response.get_str("model").unwrap_or("default");
        let effort = self.record_session_selection(session_id, model, reported);
        Ok(
            LoadedSession {
                replay: replay_thread(&response),
                startup: notify_session_startup_complete(session_id),
                model: model.to_owned(),
                effort,
            },
        )
    }

    /// What the pager is told of a stored session, once it was shown: its models as the catalog
    /// lists them by then.
    pub fn finish_load_session(&self, model: &str, effort: &Option<ReasoningEffort>) -> (response:
        LoadResponse)
        ensures
            response.modes@ == session_modes("default"@),
            response.models@ == self@.model_state(model@, optional(*effort)),
    {
        LoadResponse {
            modes: codex_session_modes("default"),
            models: self.model_state(model, effort),
        }
    }

    /// The call that starts a turn with this prompt.
    pub fn begin_prompt(
        &self,
        session_id: &str,
        prompt: &Vec<ContentBlock>,
        meta: Option<&JsonObject>,
    ) -> (call: RpcCall)
        ensures
            call@ == self@.turn_call(
                session_id@,
                views(prompt@),
                text_in(optional(meta), "promptId"@),
            ),
    {
        let input = prompt_to_codex_input(prompt);
        let selection = self.selected_models.get(session_id);
        let model = match selection {
            Some(selection) => Some(selection.model.as_str()),
            None => None,
        };
        let effort = match selection {
            Some(selection) => match &selection.effort {
                Some(effort) => Some(effort.as_str()),
                None => None,
            },
            None => None,
        };
        RpcCall::new(
            "turn/start",
            turn_start_params(session_id, input, model, effort, meta_text(meta, "promptId")),
        )
    }

    /// Notes the turn that was started, for whose end `waiter` waits, and gives its id.
    pub fn prompt(
        &mut self,
        session_id: &str,
        reply: Result<Json, RpcError>,
        waiter: C,
    ) -> (turn: Result<String, AgentError>)
        ensures
            match reply {
                Err(error) => turn matches Err(refusal) && refusal@ == AgentErrorView::Internal(
                    error@.message(),
                ) && final(self)@ == old(self)@,
                Ok(response) => match response@.text_within("turn"@, "id"@) {
                    None => turn matches Err(refusal) && refusal@ == AgentErrorView::Internal(
                        "turn/start returned no turn id"@,
                    ) && final(self)@ == old(self)@,
                    Some(id) => turn matches Ok(turn_id) && turn_id@ == id && final(self)@ == old(
                        self,
                    )@.turn_begun(session_id@, id, waiter),
                },
            },
    {
        let response = match reply {
            Ok(response) => response,
            Err(error) => {
                return Err(call_error(&error));
            },
        };
        let turn_id = match response.get_str_within("turn", "id") {
            Some(turn_id) => turn_id.to_owned(),
            None => {
                return Err(acp_error("turn/start returned no turn id"));
            },
        };
        let ghost before = self.active_turns@;
        let active = turn_id.clone();
        self.active_turns.insert(session_id.to_owned(), active);
        proof {
            let shown = |turn: String| turn@;
            assert(self.active_turns@.map_values(shown) =~= before.map_values(shown).insert(
                session_id@,
                turn_id@,
            ));
        }
        self.completions.insert(turn_id.clone(), waiter);
        Ok(turn_id)
    }

    /// What the pager is told once a turn ended, for this reason where it was reported. The id of
    /// the prompt is handed back.
    pub fn finish_prompt(reason: Option<StopReason>, meta: Option<&JsonObject>) -> (response:
        PromptResponse)
        ensures
            response.stop_reason == match reason {
                Some(reason) => reason,
                None => StopReason::EndTurn,
            },
            optional(response.meta) == match text_in(optional(meta), "promptId"@) {
                Some(id) => Some(nothing().insert("promptId"@, JsonView::Text(id))),
                None => None,
            },
    {
        PromptResponse {
            stop_reason: match reason {
                Some(reason) => reason,
                None => StopReason::EndTurn,
            },
            meta: match meta_text(meta, "promptId") {
                Some(id) => Some(JsonObject::new().with("promptId", Json::text(id))),
                None => None,
            },
        }
    }

    /// The call that interrupts the turn that a session is in: none where it is in no turn.
    pub fn cancel(&self, session_id: &str) -> (call: Option<RpcCall>)
        ensures
            match call {
                Some(call) => self@.active_turns.contains_key(session_id@) && call@ == (
                RpcCallView {
                    method: "turn/interrupt"@,
                    params: JsonView::Object(
                        nothing().insert("threadId"@, JsonView::Text(session_id@)).insert(
                            "turnId"@,
                            JsonView::Text(self@.active_turns[session_id@]),
                        ),
                    ),
                }),
                None => !self@.active_turns.contains_key(session_id@),
            },
    {
        match self.active_turns.get(session_id) {
            Some(turn_id) => Some(
                RpcCall::new(
                    "turn/interrupt",
                    Json::Object(
                        JsonObject::new().with("threadId", Json::text(session_id)).with(
                            "turnId",
                            Json::text(turn_id.as_str()),
                        ),
                    ),
                ),
            ),
            None => None,
        }
    }

    /// What a cancellation comes to, once the interruption was replied to.
    pub fn finish_cancel(reply: Result<Json, RpcError>) -> (result: Result<(), AgentError>)
        ensures
            match reply {
                Err(error) => result matches Err(refusal) && refusal@ == AgentErrorView::Internal(
                    error@.message(),
                ),
                Ok(_) => result is Ok,
            },
    {
        match reply {
            Ok(_) => Ok(()),
            Err(error) => Err(call_error(&error)),
        }
    }

    /// The call that puts a session into a mode. Only the two modes of a session are known, and
    /// only sessions that were started or loaded.
    pub fn begin_set_session_mode(&self, session_id: &str, mode_id: &str) -> (call: Result<
        RpcCall,
        AgentError,
    >)
        ensures
            if mode_id@ != "plan"@ && mode_id@ != "default"@ {
                call matches Err(error) && error@ == AgentErrorView::InvalidParams(
                    "unsupported Codex session mode: "@ + mode_id@,
                )
            } else if !self@.selected.contains_key(session_id@) {
                call matches Err(error) && error@ == AgentErrorView::InvalidParams(
                    "unknown Codex session id: "@ + session_id@,
                )
            } else {
                call matches Ok(call) && call@ == self@.mode_call(session_id@, mode_id@)
            },
    {
        if !mode_id.eq("plan") && !mode_id.eq("default") {
            return Err(
                AgentError::InvalidParams(concat("unsupported Codex session mode: ", mode_id)),
            );
        }
        let selection = match self.selected_models.get(session_id) {
            Some(selection) => selection,
            None => {
                return Err(
                    AgentError::InvalidParams(concat("unknown Codex session id: ", session_id)),
                );
            },
        };
        let effort = match &selection.effort {
            Some(effort) => Some(effort.as_str()),
            None => None,
        };
        let settings = JsonObject::new().with("model", Json::text(selection.model.as_str())).with(
            "reasoning_effort",
            Json::text_or_null(effort),
        ).with("developer_instructions", Json::Null);
        let collaboration = JsonObject::new().with("mode", Json::text(mode_id)).with(
            "settings",
            Json::Object(settings),
        );
        Ok(
            RpcCall::new(
                "thread/settings/update",
                Json::Object(
                    JsonObject::new().with("threadId", Json::text(session_id)).with(
                        "collaborationMode",
                        Json::Object(collaboration),
                    ),
                ),
            ),
        )
    }

    /// What the pager is shown once a session was put into a mode.
    pub fn set_session_mode(
        session_id: &str,
        mode_id: &str,
        reply: Result<Json, RpcError>,
    ) -> (shown: Result<SessionNotification, AgentError>)
        ensures
            match reply {
                Err(error) => shown matches Err(refusal) && refusal@ == AgentErrorView::Internal(
                    error@.message(),
                ),
                Ok(_) => shown matches Ok(notice) && notice@ == (SessionNotificationView {
                    session_id: session_id@,
                    update: SessionUpdateView::CurrentModeUpdate(mode_id@),
                }),
            },
    {
        match reply {
            Ok(_) => Ok(
                SessionNotification {
                    session_id: session_id.to_owned(),
                    update: SessionUpdate::CurrentModeUpdate(mode_id.to_owned()),
                },
            ),
            Err(error) => Err(call_error(&error)),
        }
    }

    /// The call for a request outside the protocol's own list. Only stored sessions can be listed.
    pub fn begin_ext_method(method: &str, params: &str) -> (call: Result<RpcCall, AgentError>)
        ensures
            if method@ == "x.ai/session/list"@ {
                call matches Ok(call) && call@ == list_threads_spec(params_or_null(params@))
            } else {
                call matches Err(error) && error@ == AgentErrorView::MethodNotFound
            },
    {
        if !method.eq("x.ai/session/list") {
            return Err(AgentError::MethodNotFound);
        }
        Ok(list_threads_call(&read_ext_params(params)))
    }

    /// The JSON text of the stored sessions, once they were listed.
    pub fn ext_method(reply: Result<Json, RpcError>) -> (text: Result<String, AgentError>)
        ensures
            match reply {
                Err(error) => text matches Err(refusal) && refusal@ == AgentErrorView::Internal(
                    error@.message(),
                ),
                Ok(response) => text matches Ok(text) && text@ == rendered(
                    session_list(response@),
                ),
            },
    {
        match reply {
            Ok(response) => Ok(map_sessions(&response).render()),
            Err(error) => Err(call_error(&error)),
        }
    }
}

} // verus!
