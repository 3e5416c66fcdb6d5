use codex_pager::agent::{AgentError, CatalogModel, CodexAgent, CodexModelSelection};
use codex_pager::calls::{
    apply_thread_config, new_thread_params, prompt_to_codex_input, turn_start_params, ContentBlock,
};
use codex_pager::json::{Json, JsonObject};
use codex_pager::models::{ModelInfo, ReasoningEffort, SessionModelState};
use codex_pager::rpc::RpcError;
use codex_pager::sessions::{
    codex_session_modes, notify_session_startup_complete, published_meta, InitializeStage,
    InitializeStep, LoginOutcome, StopReason,
};
use codex_pager::updates::SessionUpdate;

type Agent = CodexAgent<u32, u32>;

fn json(text: &str) -> Json {
    Json::parse(text).expect("JSON text")
}

fn value(text: &str) -> serde_json::Value {
    serde_json::from_str(text).expect("JSON text")
}

fn object(text: &str) -> JsonObject {
    match json(text) {
        Json::Object(object) => object,
        _ => panic!("a JSON object"),
    }
}

fn listed(id: &str, effort: Option<&str>) -> CatalogModel {
    CatalogModel {
        info: ModelInfo {
            model_id: id.to_owned(),
            name: id.to_owned(),
            description: None,
            meta: None,
        },
        effort: effort.map(ReasoningEffort::new),
    }
}

fn stopped(error: AgentError) {
    assert_eq!(error, AgentError::Internal("Codex app-server stopped".to_owned()));
}

#[test]
fn setting_acp_plan_mode_updates_codex_collaboration_mode() {
    let mut agent = Agent::new(false);
    agent.selected_models.insert(
        "thread-1".to_owned(),
        CodexModelSelection {
            model: "gpt-5.6-sol".to_owned(),
            effort: Some(ReasoningEffort::new("ultra")),
        },
    );
    let call = agent
        .begin_set_session_mode("thread-1", "plan")
        .expect("Codex plan mode should be supported");
    assert_eq!(call.method, "thread/settings/update");
    assert_eq!(
        call.params.into_value(),
        value(
            "{
                \"threadId\": \"thread-1\",
                \"collaborationMode\": {
                    \"mode\": \"plan\",
                    \"settings\": {
                        \"model\": \"gpt-5.6-sol\",
                        \"reasoning_effort\": \"ultra\",
                        \"developer_instructions\": null
                    }
                }
            }"
        )
    );
    let shown = Agent::set_session_mode("thread-1", "plan", Ok(json("{}"))).unwrap();
    assert_eq!(shown.session_id, "thread-1");
    assert_eq!(shown.update, SessionUpdate::CurrentModeUpdate("plan".to_owned()));
}

#[test]
fn codex_session_success_notifies_pager_that_startup_is_complete() {
    let notice = notify_session_startup_complete("thread-1");
    assert_eq!(notice.method, "x.ai/mcp_initialized");
    assert_eq!(notice.params.into_value(), value("{\"sessionId\": \"thread-1\"}"));
}

#[test]
fn codex_thread_start_disables_redundant_docs_mcp_discovery() {
    let params = new_thread_params("/workspace", false, None);
    assert_eq!(
        params
            .into_value()
            .pointer("/config/mcp_servers.openaiDeveloperDocs.enabled"),
        Some(&serde_json::Value::Bool(false))
    );
}

#[test]
fn codex_thread_start_can_preserve_docs_mcp() {
    let params = new_thread_params("/workspace", true, None);
    assert!(params.get("config").is_none());
}

#[test]
fn codex_thread_start_uses_requested_model() {
    let params = new_thread_params("/workspace", true, Some("gpt-5.6-terra"));
    assert_eq!(params.get_str("model"), Some("gpt-5.6-terra"));
}

#[test]
fn codex_turn_start_forwards_selected_model_and_effort() {
    let params = turn_start_params(
        "thread-1",
        vec![json("{\"type\": \"text\", \"text\": \"hello\"}")],
        Some("gpt-5.6-sol"),
        Some("ultra"),
        Some("prompt-42"),
    );
    assert_eq!(params.get_str("model"), Some("gpt-5.6-sol"));
    assert_eq!(params.get_str("effort"), Some("ultra"));
    assert_eq!(params.get_str("clientUserMessageId"), Some("prompt-42"));
}

#[test]
fn translates_text_prompt_to_codex_user_input() {
    let input = prompt_to_codex_input(&vec![ContentBlock::Text("hello".to_owned())]);
    assert_eq!(
        input.into_iter().map(Json::into_value).collect::<Vec<_>>(),
        vec![value("{\"type\": \"text\", \"text\": \"hello\"}")]
    );
}

#[test]
fn images_are_handed_on_by_their_address() {
    let image = |uri: Option<&str>| ContentBlock::Image {
        data: "QUJD".to_owned(),
        mime_type: "image/png".to_owned(),
        uri: uri.map(str::to_owned),
    };
    let input = prompt_to_codex_input(&vec![
        image(Some("file:///a.png")),
        ContentBlock::Other,
        ContentBlock::Text("then".to_owned()),
        image(None),
    ]);
    assert_eq!(
        Json::Array(input).into_value(),
        value(
            "[
                {\"type\": \"image\", \"url\": \"file:///a.png\"},
                {\"type\": \"text\", \"text\": \"then\"},
                {\"type\": \"image\", \"url\": \"data:image/png;base64,QUJD\"}
            ]"
        )
    );
}

#[test]
fn a_new_thread_has_its_defaults() {
    assert_eq!(
        new_thread_params("/w", true, None).into_value(),
        value("{\"cwd\": \"/w\", \"approvalPolicy\": \"on-request\", \"sandbox\": \"workspace-write\"}")
    );
    let mut params = object("{\"config\": 1, \"cwd\": \"/w\"}");
    apply_thread_config(&mut params, true);
    assert_eq!(params.get("config"), Some(&Json::Unsigned(1)));
    apply_thread_config(&mut params, false);
    assert_eq!(
        Json::Object(params).into_value(),
        value("{\"config\": {\"mcp_servers.openaiDeveloperDocs.enabled\": false}, \"cwd\": \"/w\"}")
    );
}

#[test]
fn connecting_goes_through_its_stages() {
    let mut agent = Agent::new(false);
    let (call, stage) = match Agent::begin_initialize("1.2.3") {
        InitializeStep::Call(call, stage) => (call, stage),
        step => panic!("a call comes first, not {step:?}"),
    };
    assert_eq!(call.method, "initialize");
    assert_eq!(
        call.params.into_value(),
        value(
            "{
                \"clientInfo\": {\"name\": \"codex_tui\", \"title\": \"Codex TUI\", \"version\": \"1.2.3\"},
                \"capabilities\": {\"experimentalApi\": true}
            }"
        )
    );
    let (notice, stage) = match agent.initialize(stage, Ok(Json::Null), vec![], "1.2.3") {
        InitializeStep::Notify(notice, stage) => (notice, stage),
        step => panic!("a notification comes next, not {step:?}"),
    };
    assert_eq!(notice.method, "initialized");
    assert_eq!(notice.params.into_value(), value("{}"));
    let (call, stage) = match agent.initialize(stage, Ok(Json::Null), vec![], "1.2.3") {
        InitializeStep::Call(call, stage) => (call, stage),
        step => panic!("the catalog comes next, not {step:?}"),
    };
    assert_eq!(call.method, "model/list");
    assert_eq!(call.params.into_value(), value("{\"limit\": 100}"));
    let catalog = json("{\"data\": [{\"id\": \"a\"}, {\"id\": \"b\", \"isDefault\": true}]}");
    let efforts = vec![None, Some(ReasoningEffort::new("max"))];
    let (call, stage) = match agent.initialize(stage, Ok(catalog), efforts, "1.2.3") {
        InitializeStep::Call(call, stage) => (call, stage),
        step => panic!("the account comes next, not {step:?}"),
    };
    assert_eq!(call.method, "account/read");
    assert_eq!(agent.models.len(), 2);
    assert_eq!(agent.models[1].effort, Some(ReasoningEffort::new("max")));
    assert!(!agent.authenticated);
    let response = match agent.initialize(stage, Ok(json("{\"account\": {\"id\": 1}}")), vec![], "1.2.3") {
        InitializeStep::Done(response) => response,
        step => panic!("nothing is left to do, not {step:?}"),
    };
    assert!(agent.authenticated);
    assert_eq!(response.agent_name, "codex");
    assert_eq!(response.agent_title, "Codex");
    assert_eq!(response.agent_version, "1.2.3");
    assert!(response.load_session);
    assert_eq!(response.auth_method.id, "cached_token");
    assert_eq!(response.auth_method.name, "Codex CLI session");
    assert_eq!(response.auth_method.meta, None);
    assert_eq!(
        Json::Object(response.meta.unwrap()).into_value(),
        value(
            "{\"modelState\": {
                \"currentModelId\": \"b\",
                \"availableModels\": [
                    {\"modelId\": \"a\", \"name\": \"a\"},
                    {\"modelId\": \"b\", \"name\": \"b\"}
                ]
            }}"
        )
    );
    assert!(agent.begin_authenticate().is_none());
}

#[test]
fn connecting_offers_a_login_to_the_unknown() {
    for account in ["{}", "{\"account\": null}", "[]"] {
        let mut agent = Agent::new(false);
        let step = agent.initialize(InitializeStage::Reading(None), Ok(json(account)), vec![], "1");
        let response = match step {
            InitializeStep::Done(response) => response,
            step => panic!("nothing is left to do, not {step:?}"),
        };
        assert!(!agent.authenticated);
        assert_eq!(response.auth_method.id, "oidc");
        assert_eq!(response.auth_method.name, "Sign in with ChatGPT");
        assert_eq!(
            response.auth_method.description.as_deref(),
            Some("Use the Codex CLI browser login")
        );
        assert_eq!(
            Json::Object(response.auth_method.meta.unwrap()).into_value(),
            value("{\"external_provider\": true}")
        );
        assert!(response.meta.is_none());
    }
}

#[test]
fn connecting_tells_the_models_to_start_with() {
    let mut described = listed("b", None).info;
    described.name = "B".to_owned();
    described.description = Some("The second".to_owned());
    described.meta = Some(object("{\"reasoningEffort\": \"low\", \"deep\": [1, -2, 2.5, null]}"));
    let state = SessionModelState {
        current_model_id: "b".to_owned(),
        available_models: vec![listed("a", None).info, described],
    };
    assert_eq!(
        Json::Object(published_meta(Some(state)).unwrap()).into_value(),
        value(
            "{\"modelState\": {
                \"currentModelId\": \"b\",
                \"availableModels\": [
                    {\"modelId\": \"a\", \"name\": \"a\"},
                    {
                        \"modelId\": \"b\",
                        \"name\": \"B\",
                        \"description\": \"The second\",
                        \"_meta\": {\"reasoningEffort\": \"low\", \"deep\": [1, -2, 2.5, null]}
                    }
                ]
            }}"
        )
    );
    assert_eq!(published_meta(None), None);
}

#[test]
fn selections_keep_the_strongest_efforts_apart() {
    let mut agent = Agent::new(false);
    for name in ["xhigh", "max", "ultra"] {
        let effort = agent.record_session_selection(name, "m", Some(ReasoningEffort::new(name)));
        assert_eq!(effort.unwrap().as_str(), name);
    }
    for name in ["xhigh", "max", "ultra"] {
        let selection = agent.selected_models.get(name).unwrap();
        assert_eq!(selection.model, "m");
        assert_eq!(selection.effort.as_ref().unwrap().as_str(), name);
        let call = agent.begin_prompt(name, &vec![], None);
        assert_eq!(call.params.get_str("effort"), Some(name));
    }
}

#[test]
fn the_effort_in_use_replaces_that_of_the_catalog() {
    let mut agent = Agent::new(false);
    agent.models = vec![listed("m", Some("low"))];
    agent.models[0].info.meta = Some(object("{\"reasoningEffort\": \"low\", \"kept\": 1}"));
    let state = agent.model_state("m", &Some(ReasoningEffort::new("ultra")));
    let meta = state.available_models.into_iter().next().unwrap().meta.unwrap();
    assert_eq!(
        Json::Object(meta).into_value(),
        value("{\"reasoningEffort\": \"ultra\", \"kept\": 1}")
    );
}

#[test]
fn connecting_stops_at_a_failure() {
    for stage in [
        InitializeStage::Opening,
        InitializeStage::Announcing,
        InitializeStage::Listing,
        InitializeStage::Reading(None),
    ] {
        let mut agent = Agent::new(false);
        match agent.initialize(stage, Err(RpcError::Stopped), vec![], "1") {
            InitializeStep::Fail(error) => stopped(error),
            step => panic!("a failure is reported, not {step:?}"),
        }
        assert!(agent.models.is_empty());
    }
}

#[test]
fn logins_are_started_and_ended() {
    let mut agent = Agent::new(false);
    let call = agent.begin_authenticate().unwrap();
    assert_eq!(call.method, "account/login/start");
    assert_eq!(
        call.params.into_value(),
        value(
            "{
                \"type\": \"chatgpt\",
                \"appBrand\": \"codex\",
                \"codexStreamlinedLogin\": true,
                \"useHostedLoginSuccessPage\": true
            }"
        )
    );
    stopped(agent.authenticate(Err(RpcError::Stopped), 1).unwrap_err());
    assert_eq!(
        agent.authenticate(Ok(json("{\"authUrl\": \"u\"}")), 1),
        Err(AgentError::Internal("Codex login returned no login id".to_owned()))
    );
    assert_eq!(
        agent.authenticate(Ok(json("{\"loginId\": \"l\"}")), 1),
        Err(AgentError::Internal("Codex login returned no browser URL".to_owned()))
    );
    assert!(agent.login_completions.get("l").is_none());
    let url = agent.authenticate(Ok(json("{\"loginId\": \"l\", \"authUrl\": \"https://x\"}")), 7);
    assert_eq!(url, Ok("https://x".to_owned()));
    assert_eq!(agent.login_completions.get("l"), Some(&7));

    let failed = |text: &str| Err(AgentError::Internal(text.to_owned()));
    assert_eq!(
        agent.finish_authenticate(LoginOutcome::BrowserFailed("none".to_owned())),
        failed("failed to open login browser: none")
    );
    assert_eq!(
        agent.finish_authenticate(LoginOutcome::Interrupted),
        failed("Codex login was interrupted")
    );
    assert_eq!(agent.finish_authenticate(LoginOutcome::Failed("no".to_owned())), failed("no"));
    assert!(!agent.authenticated);
    assert_eq!(agent.finish_authenticate(LoginOutcome::Completed), Ok(()));
    assert!(agent.authenticated);
}

#[test]
fn new_sessions_use_the_model_that_is_reported() {
    let mut agent = Agent::new(true);
    agent.models = vec![listed("first", Some("low")), listed("second", Some("high"))];
    let meta = object("{\"modelId\": \"second\"}");
    let call = agent.begin_new_session("/w", Some(&meta));
    assert_eq!(call.method, "thread/start");
    assert_eq!(call.params.get_str("model"), Some("second"));
    assert!(call.params.get("config").is_none());

    let reply = json("{\"thread\": {\"id\": \"t\"}, \"model\": \"second\"}");
    let opened = agent.new_session(Ok(reply), None).unwrap();
    assert_eq!(opened.session_id, "t");
    assert_eq!(opened.startup, notify_session_startup_complete("t"));
    assert_eq!(opened.modes, codex_session_modes("default"));
    assert_eq!(opened.models.current_model_id, "second");
    assert!(opened.models.available_models[0].meta.is_none());
    let meta = opened.models.available_models[1].meta.as_ref().unwrap();
    assert_eq!(meta.get("reasoningEffort").unwrap().as_str(), Some("high"));
    let selection = agent.selected_models.get("t").unwrap();
    assert_eq!(selection.model, "second");
    assert_eq!(selection.effort, Some(ReasoningEffort::new("high")));
}

#[test]
fn new_sessions_fall_back_to_the_first_model() {
    let mut agent = Agent::new(false);
    let reply = || Ok(json("{\"thread\": {\"id\": \"t\"}}"));
    assert_eq!(agent.new_session(reply(), None).unwrap().models.current_model_id, "default");
    agent.models = vec![listed("first", Some("low"))];
    let opened = agent.new_session(reply(), Some(ReasoningEffort::new("max"))).unwrap();
    assert_eq!(opened.models.current_model_id, "first");
    assert_eq!(
        agent.selected_models.get("t").unwrap().effort,
        Some(ReasoningEffort::new("max"))
    );
    let call = agent.begin_new_session("/w", None);
    assert!(call.params.get("model").is_none());
    assert!(call.params.get("config").is_some());
}

#[test]
fn sessions_without_an_id_are_refused() {
    let mut agent = Agent::new(false);
    assert_eq!(
        agent.new_session(Ok(json("{\"thread\": {}}")), None),
        Err(AgentError::Internal("thread/start returned no thread id".to_owned()))
    );
    stopped(agent.new_session(Err(RpcError::Stopped), None).unwrap_err());
}

#[test]
fn stored_sessions_are_loaded_with_their_history() {
    let mut agent = Agent::new(false);
    let call = agent.begin_load_session("t", "/w");
    assert_eq!(call.method, "thread/resume");
    assert_eq!(
        call.params.into_value(),
        value(
            "{
                \"threadId\": \"t\",
                \"cwd\": \"/w\",
                \"config\": {\"mcp_servers.openaiDeveloperDocs.enabled\": false}
            }"
        )
    );
    let reply = json(
        "{\"model\": \"m\", \"thread\": {\"id\": \"stored\", \"turns\": [
            {\"items\": [
                {\"type\": \"userMessage\", \"content\": [{\"text\": \"a\"}, {\"url\": 1}, {\"text\": \"b\"}]},
                {\"type\": \"reasoning\", \"summary\": [], \"content\": [\"x\", 2, \"y\"]},
                {\"type\": \"reasoning\", \"summary\": [\"s\"], \"content\": [\"x\"]},
                {\"type\": \"reasoning\"}
            ]},
            {\"items\": [
                {\"type\": \"agentMessage\", \"text\": \"hi\"},
                {\"type\": \"agentMessage\"},
                {\"type\": \"webSearch\", \"id\": \"w\"},
                {\"type\": \"unknown\", \"id\": \"u\"}
            ]},
            {}
        ]}}",
    );
    let loaded = agent.load_session("t", Ok(reply), Some(ReasoningEffort::new("low"))).unwrap();
    assert!(loaded.replay.iter().all(|shown| shown.session_id == "stored"));
    let updates: Vec<&SessionUpdate> = loaded.replay.iter().map(|shown| &shown.update).collect();
    assert_eq!(updates.len(), 5);
    assert_eq!(updates[0], &SessionUpdate::UserMessageChunk("a\nb".to_owned()));
    assert_eq!(updates[1], &SessionUpdate::AgentThoughtChunk("x\ny".to_owned()));
    assert_eq!(updates[2], &SessionUpdate::AgentThoughtChunk("s".to_owned()));
    assert_eq!(updates[3], &SessionUpdate::AgentMessageChunk("hi".to_owned()));
    assert!(matches!(updates[4], SessionUpdate::ToolCall(tool) if tool.title == "Search the web"));
    assert_eq!(loaded.startup, notify_session_startup_complete("t"));
    assert_eq!(loaded.model, "m");
    assert_eq!(loaded.effort, Some(ReasoningEffort::new("low")));
    agent.models = vec![listed("m", None)];
    let response = agent.finish_load_session(&loaded.model, &loaded.effort);
    assert_eq!(response.modes, codex_session_modes("default"));
    assert_eq!(response.models.current_model_id, "m");
    let meta = response.models.available_models[0].meta.as_ref().unwrap();
    assert_eq!(meta.get("reasoningEffort").unwrap().as_str(), Some("low"));
    assert_eq!(agent.selected_models.get("t").unwrap().model, "m");

    let bare = agent.load_session("bare", Ok(Json::Null), None).unwrap();
    assert!(bare.replay.is_empty());
    assert_eq!(bare.model, "default");
    assert_eq!(bare.effort, None);
    stopped(agent.load_session("t", Err(RpcError::Stopped), None).unwrap_err());
}

#[test]
fn prompts_carry_what_the_session_uses() {
    let mut agent = Agent::new(false);
    let prompt = vec![ContentBlock::Text("hello".to_owned())];
    let meta = object("{\"promptId\": \"p\"}");
    let call = agent.begin_prompt("t", &prompt, None);
    assert_eq!(
        call.params.into_value(),
        value(
            "{
                \"threadId\": \"t\",
                \"input\": [{\"type\": \"text\", \"text\": \"hello\"}],
                \"model\": null,
                \"effort\": null,
                \"clientUserMessageId\": null
            }"
        )
    );
    agent.set_session_model("t", "m", Some(ReasoningEffort::new("ultra")));
    let call = agent.begin_prompt("t", &prompt, Some(&meta));
    assert_eq!(call.method, "turn/start");
    assert_eq!(call.params.get_str("model"), Some("m"));
    assert_eq!(call.params.get_str("effort"), Some("ultra"));
    assert_eq!(call.params.get_str("clientUserMessageId"), Some("p"));
    assert!(agent.begin_prompt("other", &prompt, None).params.get_str("model").is_none());
}

#[test]
fn chosen_models_have_the_effort_of_the_catalog() {
    let mut agent = Agent::new(false);
    agent.models = vec![listed("m", Some("low")), listed("m", Some("max"))];
    agent.set_session_model("t", "m", None);
    assert_eq!(
        agent.selected_models.get("t").unwrap().effort,
        Some(ReasoningEffort::new("low"))
    );
    agent.set_session_model("t", "unlisted", None);
    assert_eq!(agent.selected_models.get("t").unwrap().effort, None);
    let state = agent.model_state("m", &Some(ReasoningEffort::new("ultra")));
    assert_eq!(state.available_models.len(), 2);
    assert!(state.available_models[0].meta.is_some());
    assert!(state.available_models[1].meta.is_none());
    let state = agent.model_state("m", &None);
    assert!(state.available_models[0].meta.is_none());
}

#[test]
fn turns_are_noted_and_cancelled() {
    let mut agent = Agent::new(false);
    assert!(agent.cancel("t").is_none());
    assert_eq!(
        agent.prompt("t", Ok(json("{\"turn\": {}}")), 1),
        Err(AgentError::Internal("turn/start returned no turn id".to_owned()))
    );
    stopped(agent.prompt("t", Err(RpcError::Stopped), 1).unwrap_err());
    assert!(agent.cancel("t").is_none());
    let turn = agent.prompt("t", Ok(json("{\"turn\": {\"id\": \"turn-1\"}}")), 5);
    assert_eq!(turn, Ok("turn-1".to_owned()));
    assert_eq!(agent.completions.get("turn-1"), Some(&5));
    let call = agent.cancel("t").unwrap();
    assert_eq!(call.method, "turn/interrupt");
    assert_eq!(
        call.params.into_value(),
        value("{\"threadId\": \"t\", \"turnId\": \"turn-1\"}")
    );
    assert!(Agent::finish_cancel(Ok(Json::Null)).is_ok());
    stopped(Agent::finish_cancel(Err(RpcError::Stopped)).unwrap_err());
}

#[test]
fn prompt_responses_hand_back_the_prompt_id() {
    let meta = object("{\"promptId\": \"p\", \"other\": 1}");
    let response = Agent::finish_prompt(Some(StopReason::Cancelled), Some(&meta));
    assert_eq!(response.stop_reason, StopReason::Cancelled);
    assert_eq!(
        Json::Object(response.meta.unwrap()).into_value(),
        value("{\"promptId\": \"p\"}")
    );
    let response = Agent::finish_prompt(None, None);
    assert_eq!(response.stop_reason, StopReason::EndTurn);
    assert!(response.meta.is_none());
}

#[test]
fn unknown_modes_and_sessions_are_refused() {
    let mut agent = Agent::new(false);
    assert_eq!(
        agent.begin_set_session_mode("t", "review"),
        Err(AgentError::InvalidParams("unsupported Codex session mode: review".to_owned()))
    );
    assert_eq!(
        agent.begin_set_session_mode("t", "default"),
        Err(AgentError::InvalidParams("unknown Codex session id: t".to_owned()))
    );
    agent.set_session_model("t", "m", None);
    let call = agent.begin_set_session_mode("t", "default").unwrap();
    assert_eq!(
        call.params.into_value().pointer("/collaborationMode/settings/reasoning_effort"),
        Some(&serde_json::Value::Null)
    );
    stopped(Agent::set_session_mode("t", "plan", Err(RpcError::Stopped)).unwrap_err());
}

#[test]
fn sessions_have_two_modes() {
    let modes = codex_session_modes("plan");
    assert_eq!(modes.current_mode_id, "plan");
    assert_eq!(modes.available_modes.len(), 2);
    assert_eq!(modes.available_modes[0].id, "default");
    assert_eq!(modes.available_modes[0].name, "Default");
    assert_eq!(
        modes.available_modes[0].description,
        "Work normally and make changes when requested."
    );
    assert_eq!(modes.available_modes[1].id, "plan");
    assert_eq!(modes.available_modes[1].name, "Plan");
    assert_eq!(
        modes.available_modes[1].description,
        "Investigate and produce a plan without making changes."
    );
}

#[test]
fn stored_sessions_are_listed() {
    assert_eq!(
        Agent::begin_ext_method("x.ai/other", "{}"),
        Err(AgentError::MethodNotFound)
    );
    let call = Agent::begin_ext_method("x.ai/session/list", "{\"cwd\": \"/w\", \"limit\": 5, \"query\": \"q\"}")
        .unwrap();
    assert_eq!(call.method, "thread/list");
    assert_eq!(
        call.params.into_value(),
        value(
            "{
                \"cwd\": \"/w\",
                \"limit\": 5,
                \"searchTerm\": \"q\",
                \"sortKey\": \"updated_at\",
                \"sortDirection\": \"desc\"
            }"
        )
    );
    let call = Agent::begin_ext_method("x.ai/session/list", "broken").unwrap();
    assert_eq!(call.params.get_u64("limit"), Some(30));
    assert!(call.params.get("cwd").unwrap().is_null());
    assert!(call.params.get("searchTerm").unwrap().is_null());

    let reply = json(
        "{\"data\": [
            {\"id\": \"a\", \"preview\": \"first\", \"cwd\": \"/w\", \"createdAt\": 60, \"updatedAt\": 120},
            {\"createdAt\": 60}
        ]}",
    );
    let text = Agent::ext_method(Ok(reply)).unwrap();
    assert_eq!(
        value(&text),
        value(
            "{\"sessions\": [
                {
                    \"sessionId\": \"a\",
                    \"summary\": \"first\",
                    \"firstPrompt\": \"first\",
                    \"cwd\": \"/w\",
                    \"createdAt\": \"1970-01-01T00:01:00+00:00\",
                    \"updatedAt\": \"1970-01-01T00:02:00+00:00\",
                    \"source\": \"codex\"
                },
                {
                    \"sessionId\": null,
                    \"summary\": \"Codex session\",
                    \"firstPrompt\": null,
                    \"cwd\": null,
                    \"createdAt\": \"1970-01-01T00:01:00+00:00\",
                    \"updatedAt\": \"1970-01-01T00:01:00+00:00\",
                    \"source\": \"codex\"
                }
            ]}"
        )
    );
    assert_eq!(value(&Agent::ext_method(Ok(Json::Null)).unwrap()), value("{\"sessions\": []}"));
    stopped(Agent::ext_method(Err(RpcError::Stopped)).unwrap_err());
}
