//! The models that the app-server offers, as the pager lists them.

use vstd::prelude::*;

use crate::json::{text_or_null, value_contents, Json, JsonObject, JsonView};
use crate::text::{optional, views};

verus! {

/// How hard a model is asked to think, by its name in the protocol.
#[derive(Debug, PartialEq)]
pub struct ReasoningEffort {
    name: String,
}

impl View for ReasoningEffort {
    type V = Seq<char>;

    closed spec fn view(&self) -> Seq<char> {
        self.name@
    }
}

impl ReasoningEffort {
    /// The effort with this name.
    pub fn new(name: &str) -> (effort: Self)
        ensures
            effort@ == name@,
    {
        ReasoningEffort { name: name.to_owned() }
    }

    /// The name of the effort.
    pub fn as_str(&self) -> (name: &str)
        ensures
            name@ == self@,
    {
        self.name.as_str()
    }
}

impl Clone for ReasoningEffort {
    fn clone(&self) -> (copy: Self)
        ensures
            copy@ == self@,
    {
        ReasoningEffort { name: self.name.clone() }
    }
}

/// A model as the pager lists it.
#[derive(Debug, PartialEq)]
pub struct ModelInfo {
    pub model_id: String,
    pub name: String,
    pub description: Option<String>,
    pub meta: Option<JsonObject>,
}

#[verifier::ext_equal]
pub struct ModelInfoView {
    pub model_id: Seq<char>,
    pub name: Seq<char>,
    pub description: Option<Seq<char>>,
    pub meta: Option<Map<Seq<char>, JsonView>>,
}

impl View for ModelInfo {
    type V = ModelInfoView;

    open spec fn view(&self) -> ModelInfoView {
        ModelInfoView {
            model_id: self.model_id@,
            name: self.name@,
            description: optional(self.description),
            meta: optional(self.meta),
        }
    }
}

impl Clone for ModelInfo {
    fn clone(&self) -> (copy: Self)
        ensures
            copy@ == self@,
    {
        ModelInfo {
            model_id: self.model_id.clone(),
            name: self.name.clone(),
            description: match &self.description {
                Some(text) => Some(text.clone()),
                None => None,
            },
            meta: match &self.meta {
                Some(meta) => Some(meta.clone()),
                None => None,
            },
        }
    }
}

/// The models of a session and the one in use.
#[derive(Debug, PartialEq)]
pub struct SessionModelState {
    pub current_model_id: String,
    pub available_models: Vec<ModelInfo>,
}

#[verifier::ext_equal]
pub struct SessionModelStateView {
    pub current_model_id: Seq<char>,
    pub available_models: Seq<ModelInfoView>,
}

impl View for SessionModelState {
    type V = SessionModelStateView;

    open spec fn view(&self) -> SessionModelStateView {
        SessionModelStateView {
            current_model_id: self.current_model_id@,
            available_models: views(self.available_models@),
        }
    }
}

/// The protocol's JSON form of a model: what is not known of it is left out.
pub open spec fn model_form(info: ModelInfoView) -> JsonView {
    let named = Map::<Seq<char>, JsonView>::empty().insert(
        "modelId"@,
        JsonView::Text(info.model_id),
    ).insert("name"@, JsonView::Text(info.name));
    let described = match info.description {
        Some(description) => named.insert("description"@, JsonView::Text(description)),
        None => named,
    };
    JsonView::Object(
        match info.meta {
            Some(meta) => described.insert("_meta"@, JsonView::Object(meta)),
            None => described,
        },
    )
}

/// The protocol's JSON form of the models of a session and the one in use.
pub open spec fn model_state_form(state: SessionModelStateView) -> JsonView {
    JsonView::Object(
        Map::<Seq<char>, JsonView>::empty().insert(
            "currentModelId"@,
            JsonView::Text(state.current_model_id),
        ).insert(
            "availableModels"@,
            JsonView::Array(
                state.available_models.map_values(|info: ModelInfoView| model_form(info)),
            ),
        ),
    )
}

/// `serde_json::to_value` of an `agent_client_protocol::SessionModelState` with these models, each
/// an `agent_client_protocol::ModelInfo`. Their `Serialize` writes the fields under the names of
/// the protocol and leaves out a description or metadata that is not there; it never fails.
#[verifier::external_body]
fn protocol_value(state: SessionModelState) -> (value: Option<serde_json::Value>)
    ensures
        value matches Some(value) && value_contents(value) == model_state_form(state@),
{
    let models = state.available_models.into_iter().map(
        |model|
            agent_client_protocol::ModelInfo::new(model.model_id, model.name).description(
                model.description,
            ).meta(model.meta.and_then(|m| Json::Object(m).into_value().as_object().cloned())),
    ).collect();
    serde_json::to_value(
        agent_client_protocol::SessionModelState::new(state.current_model_id, models),
    ).ok()
}

impl SessionModelState {
    /// The protocol's JSON form.
    pub fn into_json(self) -> (json: Json)
        ensures
            json@ == model_state_form(self@),
    {
        Json::from_value(protocol_value(self).unwrap())
    }
}

/// The upper-case form of a character, by Unicode's default mapping: one character or more.
pub uninterp spec fn uppercase(c: char) -> Seq<char>;

/// The upper-case form of a character: of ASCII, the letters in lower case change and nothing
/// else does.
pub open spec fn upper_form(c: char) -> Seq<char> {
    if 'a' <= c <= 'z' {
        seq![(c as int - 32) as char]
    } else if c <= '\u{7f}' {
        seq![c]
    } else {
        uppercase(c)
    }
}

/// `char::to_uppercase`, its characters collected. An ASCII letter in lower case becomes that
/// letter in upper case; every other ASCII character stays.
#[verifier::external_body]
fn upper(c: char) -> (text: String)
    ensures
        text@ == uppercase(c),
        text@ == upper_form(c),
{
    c.to_uppercase().collect()
}

/// The name with its first character in upper case.
pub open spec fn humanized(name: Seq<char>) -> Seq<char> {
    if name.len() == 0 {
        Seq::empty()
    } else {
        upper_form(name[0]) + name.skip(1)
    }
}

/// The text with `first`, the upper-case form of its first character, in that character's place.
pub fn capitalize(first: String, name: &str) -> (label: String)
    requires
        name@.len() > 0,
    ensures
        label@ == first@ + name@.skip(1),
{
    let mut label = first;
    label.append(name.substring_char(1, name.unicode_len()));
    assert(name@.subrange(1, name@.len() as int) =~= name@.skip(1));
    label
}

/// The label of an effort: its name with the first character in upper case.
pub fn humanize_effort(effort: &str) -> (label: String)
    ensures
        label@ == humanized(effort@),
{
    if effort.is_empty() {
        return String::new();
    }
    capitalize(upper(effort.get_char(0)), effort)
}

/// The id of a catalog entry: the text under `id`, or under `model` where there is no `id`.
pub open spec fn entry_id(model: JsonView) -> Option<Seq<char>> {
    match model.get("id"@) {
        Some(id) => id.text(),
        None => model.text_at("model"@),
    }
}

/// The name of a catalog entry: the text under `displayName`, or under `name` where there is no
/// `displayName`.
pub open spec fn entry_name(model: JsonView) -> Option<Seq<char>> {
    match model.get("displayName"@) {
        Some(name) => name.text(),
        None => model.text_at("name"@),
    }
}

/// An effort that a model supports, as the pager lists it.
pub open spec fn effort_option(option: JsonView, default_effort: Option<Seq<char>>) -> Option<
    JsonView,
> {
    match option.text_at("reasoningEffort"@) {
        Some(effort) => Some(
            JsonView::Object(
                Map::<Seq<char>, JsonView>::empty().insert("id"@, JsonView::Text(effort)).insert(
                    "value"@,
                    JsonView::Text(effort),
                ).insert("label"@, JsonView::Text(humanized(effort))).insert(
                    "description"@,
                    text_or_null(option.text_at("description"@)),
                ).insert("default"@, JsonView::Bool(default_effort == Some(effort))),
            ),
        ),
        None => None,
    }
}

/// The efforts that a catalog entry supports, as the pager lists them.
pub open spec fn effort_options(model: JsonView) -> Seq<JsonView> {
    model.items_at("supportedReasoningEfforts"@).filter_map(
        |option: JsonView| effort_option(option, model.text_at("defaultReasoningEffort"@)),
    )
}

/// What is known of a catalog entry beside its id, name and description.
pub open spec fn entry_meta(model: JsonView) -> Map<Seq<char>, JsonView> {
    let efforts = if effort_options(model).len() > 0 {
        Map::<Seq<char>, JsonView>::empty().insert(
            "supportsReasoningEffort"@,
            JsonView::Bool(true),
        ).insert("reasoningEfforts"@, JsonView::Array(effort_options(model)))
    } else {
        Map::<Seq<char>, JsonView>::empty()
    };
    let chosen = match model.text_at("defaultReasoningEffort"@) {
        Some(effort) => efforts.insert("reasoningEffort"@, JsonView::Text(effort)),
        None => efforts,
    };
    match model.get("inputModalities"@) {
        Some(modalities) => chosen.insert("inputModalities"@, modalities),
        None => chosen,
    }
}

/// The model that a catalog entry describes: none where the entry has no id.
pub open spec fn entry_model(model: JsonView) -> Option<ModelInfoView> {
    match entry_id(model) {
        Some(id) => Some(
            ModelInfoView {
                model_id: id,
                name: match entry_name(model) {
                    Some(name) => name,
                    None => id,
                },
                description: model.text_at("description"@),
                meta: if entry_meta(model) == Map::<Seq<char>, JsonView>::empty() {
                    None
                } else {
                    Some(entry_meta(model))
                },
            },
        ),
        None => None,
    }
}

/// The models of a catalog, in its order.
pub open spec fn catalog_models(response: JsonView) -> Seq<ModelInfoView> {
    response.items_at("data"@).filter_map(|model: JsonView| entry_model(model))
}

/// The first entry that is marked as the default.
pub open spec fn default_entry(entries: Seq<JsonView>) -> Option<JsonView>
    decreases entries.len(),
{
    if entries.len() == 0 {
        None
    } else if entries[0].flag_at("isDefault"@) == Some(true) {
        Some(entries[0])
    } else {
        default_entry(entries.skip(1))
    }
}

/// The model that a new session starts with: the default of the catalog, or else the first of
/// `models`.
pub open spec fn initial_model(response: JsonView, models: Seq<ModelInfoView>) -> Option<
    Seq<char>,
> {
    let marked = match default_entry(response.items_at("data"@)) {
        Some(model) => entry_id(model),
        None => None,
    };
    match marked {
        Some(id) => Some(id),
        None => if models.len() > 0 {
            Some(models[0].model_id)
        } else {
            None
        },
    }
}

/// The id of a catalog entry.
pub fn model_id(model: &Json) -> (id: Option<&str>)
    ensures
        optional(id) == entry_id(model@),
{
    match model.get("id") {
        Some(id) => id.as_str(),
        None => model.get_str("model"),
    }
}

fn map_effort_option(option: &Json, default_effort: Option<&str>) -> (entry: Option<Json>)
    ensures
        optional(entry) == effort_option(option@, optional(default_effort)),
{
    let effort = match option.get_str("reasoningEffort") {
        Some(effort) => effort,
        None => {
            return None;
        },
    };
    let is_default = match default_effort {
        Some(default_effort) => default_effort.eq(effort),
        None => false,
    };
    Some(
        Json::Object(
            JsonObject::new().with("id", Json::text(effort)).with("value", Json::text(effort)).with(
                "label",
                Json::Text(humanize_effort(effort)),
            ).with("description", Json::text_or_null(option.get_str("description"))).with(
                "default",
                Json::Bool(is_default),
            ),
        ),
    )
}

fn map_effort_options(model: &Json) -> (entries: Vec<Json>)
    ensures
        views(entries@) == effort_options(model@),
{
    let default_effort = model.get_str("defaultReasoningEffort");
    let ghost pick = |option: JsonView|
        effort_option(option, model@.text_at("defaultReasoningEffort"@));
    let mut entries: Vec<Json> = Vec::new();
    let options = match model.get_items("supportedReasoningEfforts") {
        Some(options) => options,
        None => {
            assert(views(entries@) =~= effort_options(model@));
            return entries;
        },
    };
    assert(views(entries@) =~= views(options@).take(0).filter_map(pick));
    for i in 0..options.len()
        invariant
            pick == (|option: JsonView|
                effort_option(option, model@.text_at("defaultReasoningEffort"@))),
            optional(default_effort) == model@.text_at("defaultReasoningEffort"@),
            views(entries@) == views(options@).take(i as int).filter_map(pick),
    {
        proof {
            views(options@).lemma_filter_map_take_succ(pick, i as int);
        }
        let ghost before = entries@;
        if let Some(entry) = map_effort_option(&options[i], default_effort) {
            entries.push(entry);
            assert(views(entries@) =~= views(before) + seq![entry@]);
        }
    }
    assert(views(options@).take(options.len() as int) =~= views(options@));
    entries
}

/// The model that a catalog entry describes: none where the entry has no id.
pub fn map_model(model: &Json) -> (info: Option<ModelInfo>)
    ensures
        optional(info) == entry_model(model@),
{
    let id = match model_id(model) {
        Some(id) => id,
        None => {
            return None;
        },
    };
    let name = match model.get("displayName") {
        Some(name) => name.as_str(),
        None => model.get_str("name"),
    };
    let mut meta = JsonObject::new();
    let mut is_empty = true;
    let efforts = map_effort_options(model);
    if efforts.len() > 0 {
        is_empty = false;
        meta.insert("supportsReasoningEffort", Json::Bool(true));
        proof {
            crate::json::lemma_array_view(efforts);
        }
        meta.insert("reasoningEfforts", Json::Array(efforts));
    }
    if let Some(effort) = model.get_str("defaultReasoningEffort") {
        is_empty = false;
        meta.insert("reasoningEffort", Json::text(effort));
    }
    if let Some(modalities) = model.get("inputModalities") {
        is_empty = false;
        meta.insert("inputModalities", modalities.clone());
    }
    proof {
        assert(meta@ == entry_meta(model@));
        if !is_empty {
            assert(meta@.contains_key("reasoningEfforts"@) || meta@.contains_key(
                "reasoningEffort"@,
            ) || meta@.contains_key("inputModalities"@));
            assert(meta@ != Map::<Seq<char>, JsonView>::empty());
        }
    }
    Some(
        ModelInfo {
            model_id: id.to_owned(),
            name: name.unwrap_or(id).to_owned(),
            description: match model.get_str("description") {
                Some(text) => Some(text.to_owned()),
                None => None,
            },
            meta: if is_empty {
                None
            } else {
                Some(meta)
            },
        },
    )
}

/// The models of a catalog, in its order.
pub fn map_models(response: &Json) -> (models: Vec<ModelInfo>)
    ensures
        views(models@) == catalog_models(response@),
{
    let ghost pick = |model: JsonView| entry_model(model);
    let mut models: Vec<ModelInfo> = Vec::new();
    let entries = match response.get_items("data") {
        Some(entries) => entries,
        None => {
            assert(views(models@) =~= catalog_models(response@));
            return models;
        },
    };
    assert(views(models@) =~= views(entries@).take(0).filter_map(pick));
    for i in 0..entries.len()
        invariant
            pick == (|model: JsonView| entry_model(model)),
            views(models@) == views(entries@).take(i as int).filter_map(pick),
    {
        proof {
            views(entries@).lemma_filter_map_take_succ(pick, i as int);
        }
        let ghost before = models@;
        if let Some(info) = map_model(&entries[i]) {
            models.push(info);
            assert(views(models@) =~= views(before) + seq![info@]);
        }
    }
    assert(views(entries@).take(entries.len() as int) =~= views(entries@));
    models
}

/// The first entry that is marked as the default.
fn find_default(entries: &Vec<Json>) -> (entry: Option<&Json>)
    ensures
        optional(entry) == default_entry(views(entries@)),
{
    let mut i: usize = 0;
    assert(views(entries@).skip(0) =~= views(entries@));
    while i < entries.len()
        invariant
            i <= entries.len(),
            default_entry(views(entries@)) == default_entry(views(entries@).skip(i as int)),
        decreases entries.len() - i,
    {
        proof {
            assert(views(entries@).skip(i as int)[0] == entries@[i as int]@);
            assert(views(entries@).skip(i as int).skip(1) =~= views(entries@).skip(i + 1));
        }
        if let Some(marked) = entries[i].get_bool("isDefault") {
            if marked {
                return Some(&entries[i]);
            }
        }
        i = i + 1;
    }
    None
}

/// The state that a session's model list starts in: none where no model is known.
pub fn map_model_state(response: &Json, models: Vec<ModelInfo>) -> (state: Option<
    SessionModelState,
>)
    ensures
        match (state, initial_model(response@, views(models@))) {
            (Some(state), Some(current)) => state@ == (SessionModelStateView {
                current_model_id: current,
                available_models: views(models@),
            }),
            (None, None) => true,
            _ => false,
        },
{
    let entry = match response.get_items("data") {
        Some(entries) => find_default(entries),
        None => None,
    };
    let marked = match entry {
        Some(entry) => model_id(entry),
        None => None,
    };
    let current = match marked {
        Some(id) => id.to_owned(),
        None => {
            if models.len() == 0 {
                return None;
            }
            models[0].model_id.clone()
        },
    };
    Some(SessionModelState { current_model_id: current, available_models: models })
}

} // verus!
