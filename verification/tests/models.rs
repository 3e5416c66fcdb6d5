use codex_pager::json::{Json, JsonObject};
use codex_pager::models::{
    capitalize, humanize_effort, map_model_state, map_models, model_id, ReasoningEffort,
};

fn json(text: &str) -> Json {
    Json::parse(text).expect("JSON text")
}

fn member<'a>(meta: &'a JsonObject, key: &str) -> &'a Json {
    meta.get(key).expect("member")
}

#[test]
fn maps_codex_default_model_catalog_to_initial_acp_state() {
    let response = json(
        "{\"data\": [
            {\"id\": \"gpt-5.4\", \"displayName\": \"GPT-5.4\", \"isDefault\": false},
            {
                \"model\": \"gpt-5.6-sol\",
                \"name\": \"GPT-5.6 Sol\",
                \"description\": \"Latest frontier agentic coding model.\",
                \"isDefault\": true,
                \"defaultReasoningEffort\": \"low\",
                \"supportedReasoningEfforts\": [
                    {\"reasoningEffort\": \"low\", \"description\": \"Fast\"},
                    {\"reasoningEffort\": \"xhigh\", \"description\": \"Extra high\"},
                    {\"reasoningEffort\": \"max\", \"description\": \"Maximum\"},
                    {\"reasoningEffort\": \"ultra\", \"description\": \"Automatic delegation\"}
                ]
            }
        ]}",
    );
    let model_state = map_model_state(&response, map_models(&response)).unwrap();
    assert_eq!(model_state.current_model_id, "gpt-5.6-sol");
    assert_eq!(model_state.available_models.len(), 2);
    assert_eq!(model_state.available_models[0].model_id, "gpt-5.4");
    let sol = &model_state.available_models[1];
    assert_eq!(sol.name, "GPT-5.6 Sol");
    assert_eq!(sol.description.as_deref(), Some("Latest frontier agentic coding model."));
    let meta = sol.meta.as_ref().unwrap();
    assert_eq!(member(meta, "reasoningEffort").as_str(), Some("low"));
    let efforts = match member(meta, "reasoningEfforts") {
        Json::Array(efforts) => efforts,
        _ => panic!("the efforts are a list"),
    };
    assert_eq!(
        efforts
            .iter()
            .map(|entry| entry.get_str("id").unwrap())
            .collect::<Vec<_>>(),
        vec!["low", "xhigh", "max", "ultra"]
    );
    assert_eq!(efforts[0].get_bool("default"), Some(true));
    assert_eq!(efforts[1].get_bool("default"), Some(false));
    assert_eq!(efforts[1].get_str("label"), Some("Xhigh"));
    assert_eq!(efforts[1].get_str("value"), Some("xhigh"));
    assert_eq!(efforts[1].get_str("description"), Some("Extra high"));
    assert_eq!(member(meta, "supportsReasoningEffort"), &Json::Bool(true));
}

#[test]
fn codex_selection_preserves_max_and_ultra_as_distinct_efforts() {
    assert_eq!(ReasoningEffort::new("xhigh").as_str(), "xhigh");
    assert_eq!(ReasoningEffort::new("max").as_str(), "max");
    assert_eq!(ReasoningEffort::new("ultra").as_str(), "ultra");
}

#[test]
fn labels_start_in_upper_case() {
    assert_eq!(humanize_effort("low"), "Low");
    assert_eq!(humanize_effort(""), "");
    assert_eq!(humanize_effort("Max"), "Max");
    assert_eq!(humanize_effort("7up"), "7up");
    assert_eq!(humanize_effort("\u{e9}lev\u{e9}"), "\u{c9}lev\u{e9}");
    assert_eq!(humanize_effort("\u{df}x"), "SSx");
    assert_eq!(capitalize("SS".to_owned(), "\u{df}x"), "SSx");
}

#[test]
fn ids_and_names_fall_back() {
    assert_eq!(model_id(&json("{\"id\": \"a\", \"model\": \"b\"}")), Some("a"));
    assert_eq!(model_id(&json("{\"model\": \"b\"}")), Some("b"));
    assert_eq!(model_id(&json("{\"id\": 1, \"model\": \"b\"}")), None);
    let models = map_models(&json(
        "{\"data\": [{\"id\": \"a\"}, {\"name\": \"no id\"}, {\"id\": \"c\", \"displayName\": 3, \"name\": \"C\"}]}",
    ));
    assert_eq!(models.len(), 2);
    assert_eq!(models[0].name, "a");
    assert_eq!(models[0].meta, None);
    assert_eq!(models[0].description, None);
    assert_eq!(models[1].name, "c");
}

#[test]
fn a_catalog_without_a_default_starts_with_its_first_model() {
    let response = json("{\"data\": [{\"isDefault\": true}, {\"id\": \"a\"}, {\"id\": \"b\", \"isDefault\": true}]}");
    let state = map_model_state(&response, map_models(&response)).unwrap();
    assert_eq!(state.current_model_id, "a");
    let plain = json("{\"data\": [{\"id\": \"x\"}]}");
    assert_eq!(map_model_state(&plain, map_models(&plain)).unwrap().current_model_id, "x");
    let none = json("{\"data\": []}");
    assert!(map_model_state(&none, map_models(&none)).is_none());
    assert!(map_model_state(&Json::Null, map_models(&Json::Null)).is_none());
}

#[test]
fn modalities_are_passed_on() {
    let models = map_models(&json("{\"data\": [{\"id\": \"a\", \"inputModalities\": [\"text\"]}]}"));
    let meta = models[0].meta.as_ref().unwrap();
    assert_eq!(member(meta, "inputModalities").render(), "[\"text\"]");
    assert!(meta.get("supportsReasoningEffort").is_none());
}
