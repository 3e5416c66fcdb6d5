//! The models that the app-server offers, and what sessions use of them.

use vstd::prelude::*;

use crate::agent::{
    copy_effort, default_effort_for_model, first_listed, listed_effort, reported_effort,
    session_models, CatalogModel, CodexAgent,
};
use crate::json::{Json, JsonObject, JsonView};
use crate::models::{
    capitalize, catalog_models, default_entry, effort_option, effort_options, entry_model,
    humanize_effort, humanized, map_model, map_model_state, map_models, model_id, uppercase,
    ModelInfo, ReasoningEffort, SessionModelState,
};
use crate::text::{optional, views};

use super::lemma_picked_in_order;
use super::values::holds_only;

verus! {

/// A catalog entry has this id: the text under `id`, or under `model` where there is no `id`.
pub open spec fn has_id(entry: JsonView, id: Seq<char>) -> bool {
    ||| entry.get("id"@) == Some(JsonView::Text(id))
    ||| entry.get("id"@) is None && entry.get("model"@) == Some(JsonView::Text(id))
}

/// What a model's metadata holds under `key`.
pub open spec fn told(meta: Option<JsonObject>, key: Seq<char>) -> Option<JsonView> {
    match meta {
        Some(meta) => JsonView::Object(meta@).get(key),
        None => None,
    }
}

/// The id of a catalog entry is found where it stands.
pub proof fn ids_are_found(entry: &Json, found: Option<&str>, id: Seq<char>)
    requires
        call_ensures(model_id, (entry,), found),
    ensures
        has_id(entry@, id) <==> (found matches Some(text) && text@ == id),
{
}

/// An entry with an id is listed under that id, with its display name; without one by its name;
/// and without either by its id. Its description is listed as it stands. An entry without an id is
/// not listed.
pub proof fn entries_are_listed_by_name(
    entry: &Json,
    listed: Option<ModelInfo>,
    id: Seq<char>,
)
    requires
        call_ensures(map_model, (entry,), listed),
    ensures
        listed matches Some(info) ==> has_id(entry@, info.model_id@),
        has_id(entry@, id) ==> (listed matches Some(info) && info.model_id@ == id && match (
            entry@.get("displayName"@),
            entry@.get("name"@),
        ) {
            (Some(JsonView::Text(shown)), _) => info.name@ == shown,
            (None, Some(JsonView::Text(name))) => info.name@ == name,
            _ => info.name@ == id,
        } && match entry@.get("description"@) {
            Some(JsonView::Text(text)) => info.description matches Some(shown) && shown@ == text,
            _ => info.description is None,
        }),
        listed is None ==> !has_id(entry@, id),
{
}

/// The metadata of a listed model holds the effort that its entry names as the default, the
/// modalities as they stand, and the efforts that it supports, where there are any; and nothing
/// else.
pub proof fn entries_are_listed_with_their_metadata(
    entry: &Json,
    listed: Option<ModelInfo>,
    key: Seq<char>,
)
    requires
        call_ensures(map_model, (entry,), listed),
    ensures
        listed matches Some(info) ==> {
            &&& told(info.meta, "reasoningEffort"@) == match entry@.get("defaultReasoningEffort"@) {
                Some(JsonView::Text(effort)) => Some(JsonView::Text(effort)),
                _ => None,
            }
            &&& told(info.meta, "inputModalities"@) == entry@.get("inputModalities"@)
            &&& effort_options(entry@).len() > 0 ==> told(info.meta, "reasoningEfforts"@) == Some(
                JsonView::Array(effort_options(entry@)),
            ) && told(info.meta, "supportsReasoningEffort"@) == Some(JsonView::Bool(true))
            &&& effort_options(entry@).len() == 0 ==> told(info.meta, "reasoningEfforts"@) is None
                && told(info.meta, "supportsReasoningEffort"@) is None
            &&& told(info.meta, key) is Some ==> key == "reasoningEffort"@ || key
                == "inputModalities"@ || key == "reasoningEfforts"@ || key
                == "supportsReasoningEffort"@
            &&& info.meta is None <==> told(info.meta, "reasoningEffort"@) is None && told(
                info.meta,
                "inputModalities"@,
            ) is None && told(info.meta, "reasoningEfforts"@) is None
        },
{
    reveal_strlit("reasoningEffort");
    reveal_strlit("inputModalities");
    reveal_strlit("reasoningEfforts");
    reveal_strlit("supportsReasoningEffort");
    assert("reasoningEffort"@.len() == 15 && "inputModalities"@.len() == 15);
    assert("reasoningEfforts"@.len() == 16 && "supportsReasoningEffort"@.len() == 23);
    assert("reasoningEffort"@[0] != "inputModalities"@[0]);
    if listed is Some {
        let meta = crate::models::entry_meta(entry@);
        if meta =~= Map::<Seq<char>, JsonView>::empty() {
            assert(!meta.contains_key("reasoningEffort"@) && !meta.contains_key(
                "inputModalities"@,
            ) && !meta.contains_key("reasoningEfforts"@));
        } else {
            let held = choose|key: Seq<char>| meta.contains_key(key);
            assert(meta.contains_key(held));
        }
    }
}

/// An effort is listed by its name, which is also its value, under a label of its own and with the
/// description that is given; as the default exactly where it is the model's. What names no effort
/// is not listed.
pub proof fn efforts_are_listed_by_name(
    option: JsonView,
    default_effort: Option<Seq<char>>,
    name: Seq<char>,
)
    ensures
        option.get("reasoningEffort"@) == Some(JsonView::Text(name)) ==> (
        effort_option(option, default_effort) matches Some(listed) && listed.get("id"@) == Some(
            JsonView::Text(name),
        ) && listed.get("value"@) == Some(JsonView::Text(name)) && listed.get("label"@) == Some(
            JsonView::Text(humanized(name)),
        ) && listed.get("description"@) == Some(
            match option.get("description"@) {
                Some(JsonView::Text(text)) => JsonView::Text(text),
                _ => JsonView::Null,
            },
        ) && listed.get("default"@) == Some(JsonView::Bool(default_effort == Some(name)))
            && holds_only(
            listed,
            set!["id"@, "value"@, "label"@, "description"@, "default"@],
        )),
        !(option.get("reasoningEffort"@) matches Some(JsonView::Text(_))) ==> effort_option(
            option,
            default_effort,
        ) is None,
{
    reveal_strlit("id");
    reveal_strlit("value");
    reveal_strlit("label");
    reveal_strlit("description");
    reveal_strlit("default");
    assert("id"@.len() == 2 && "value"@.len() == 5 && "label"@.len() == 5);
    assert("description"@.len() == 11 && "default"@.len() == 7);
    assert("value"@[0] != "label"@[0]);
}

/// Where every option of a model names an effort, the model is listed with all of them, in its
/// order: the i-th by its own name, under its own label, and as the default exactly where it is the
/// model's.
pub proof fn models_offer_their_efforts(
    entry: &Json,
    listed: Option<ModelInfo>,
    i: int,
    name: &str,
    label: String,
)
    requires
        call_ensures(map_model, (entry,), listed),
        listed is Some,
        forall|k: int|
            0 <= k < entry@.items_at("supportedReasoningEfforts"@).len() ==> (
            #[trigger] entry@.items_at("supportedReasoningEfforts"@)[k]).text_at(
                "reasoningEffort"@,
            ) is Some,
        0 <= i < entry@.items_at("supportedReasoningEfforts"@).len(),
        entry@.items_at("supportedReasoningEfforts"@)[i].get("reasoningEffort"@) == Some(
            JsonView::Text(name@),
        ),
        call_ensures(humanize_effort, (name,), label),
    ensures
        told(listed->0.meta, "reasoningEfforts"@) matches Some(JsonView::Array(offered)) && {
            &&& offered.len() == entry@.items_at("supportedReasoningEfforts"@).len()
            &&& offered[i].get("id"@) == Some(JsonView::Text(name@))
            &&& offered[i].get("value"@) == Some(JsonView::Text(name@))
            &&& offered[i].get("label"@) == Some(JsonView::Text(label@))
            &&& offered[i].get("description"@) == Some(
                match entry@.items_at("supportedReasoningEfforts"@)[i].get("description"@) {
                    Some(JsonView::Text(text)) => JsonView::Text(text),
                    _ => JsonView::Null,
                },
            )
            &&& offered[i].get("default"@) == Some(
                JsonView::Bool(
                    entry@.get("defaultReasoningEffort"@) == Some(JsonView::Text(name@)),
                ),
            )
        },
{
    reveal_strlit("id");
    reveal_strlit("value");
    reveal_strlit("label");
    reveal_strlit("description");
    reveal_strlit("default");
    assert("id"@.len() == 2 && "value"@.len() == 5 && "label"@.len() == 5);
    assert("description"@.len() == 11 && "default"@.len() == 7);
    assert("value"@[0] != "label"@[0]);
    let options = entry@.items_at("supportedReasoningEfforts"@);
    let pick = |option: JsonView|
        effort_option(option, entry@.text_at("defaultReasoningEffort"@));
    lemma_all_picked(options, pick);
    assert(effort_options(entry@) == options.filter_map(pick));
    assert(Some(effort_options(entry@)[i]) == pick(options[i]));
    entries_are_listed_with_their_metadata(entry, listed, "reasoningEfforts"@);
}

proof fn lemma_all_picked<A, B>(items: Seq<A>, pick: spec_fn(A) -> Option<B>)
    requires
        forall|k: int| 0 <= k < items.len() ==> pick(#[trigger] items[k]) is Some,
    ensures
        items.filter_map(pick).len() == items.len(),
        forall|k: int|
            0 <= k < items.len() ==> Some(#[trigger] items.filter_map(pick)[k]) == pick(items[k]),
    decreases items.len(),
{
    if items.len() > 0 {
        let earlier = items.drop_last();
        assert forall|k: int| 0 <= k < earlier.len() implies pick(
            #[trigger] earlier[k],
        ) is Some by {
            assert(earlier[k] == items[k]);
        }
        lemma_all_picked(earlier, pick);
        assert(pick(items[items.len() - 1]) is Some);
        assert(items.filter_map(pick) == earlier.filter_map(pick).push(pick(items.last())->0));
    }
}

/// The efforts of a model are listed in its order, each by itself, against the model's default.
pub proof fn efforts_keep_their_order(
    entry: Map<Seq<char>, JsonView>,
    first: Seq<JsonView>,
    second: Seq<JsonView>,
    option: JsonView,
)
    ensures
        ({
            let listed = |options: Seq<JsonView>|
                effort_options(
                    JsonView::Object(
                        entry.insert("supportedReasoningEfforts"@, JsonView::Array(options)),
                    ),
                );
            let default_effort = JsonView::Object(entry).text_at("defaultReasoningEffort"@);
            &&& listed(first + second) == listed(first) + listed(second)
            &&& listed(seq![option]) == match effort_option(option, default_effort) {
                Some(one) => seq![one],
                None => Seq::empty(),
            }
        }),
        !entry.contains_key("supportedReasoningEfforts"@) ==> effort_options(
            JsonView::Object(entry),
        ).len() == 0,
{
    reveal_strlit("supportedReasoningEfforts");
    reveal_strlit("defaultReasoningEffort");
    assert("supportedReasoningEfforts"@.len() == 25 && "defaultReasoningEffort"@.len() == 22);
    let default_effort = JsonView::Object(entry).text_at("defaultReasoningEffort"@);
    let pick = |option: JsonView| effort_option(option, default_effort);
    lemma_picked_in_order(first, second, pick);
    Seq::<JsonView>::lemma_filter_map_singleton(option, pick);
    let of = |options: Seq<JsonView>|
        JsonView::Object(entry.insert("supportedReasoningEfforts"@, JsonView::Array(options)));
    assert forall|options: Seq<JsonView>| #[trigger] effort_options(of(options))
        == options.filter_map(pick) by {
        assert(of(options).items_at("supportedReasoningEfforts"@) == options);
        assert(of(options).text_at("defaultReasoningEffort"@) == default_effort);
    }
    assert(effort_options(of(first + second)) == effort_options(of(first)) + effort_options(
        of(second),
    ));
    assert(effort_options(of(seq![option])) == seq![option].filter_map(pick));
}

/// The catalog of one entry lists that entry and nothing else; one without entries lists nothing.
pub proof fn single_entries_are_listed_alone(
    response: &Json,
    models: Vec<ModelInfo>,
    entry: &Json,
    listed: Option<ModelInfo>,
)
    requires
        call_ensures(map_models, (response,), models),
        call_ensures(map_model, (entry,), listed),
    ensures
        response@.get("data"@) == Some(JsonView::Array(seq![entry@])) ==> match listed {
            Some(info) => models@.len() == 1 && models@[0]@ == info@,
            None => models@.len() == 0,
        },
        !(response@.get("data"@) matches Some(JsonView::Array(_))) ==> models@.len() == 0,
{
    Seq::<JsonView>::lemma_filter_map_singleton(entry@, |model: JsonView| entry_model(model));
    assert(views(models@).len() == models@.len());
    if models@.len() == 1 {
        assert(views(models@)[0] == models@[0]@);
    }
}

/// The first character's place is taken by what is given for it, and the rest stays.
pub proof fn labels_keep_the_rest(first: String, name: &str, label: String, i: int)
    requires
        call_ensures(capitalize, (first, name), label),
        name@.len() > 0,
    ensures
        label@.len() == first@.len() + name@.len() - 1,
        0 <= i < first@.len() ==> label@[i] == first@[i],
        1 <= i < name@.len() ==> label@[first@.len() + i - 1] == name@[i],
{
}

/// Entries that follow one another are listed one after the other.
pub proof fn catalogs_are_listed_in_order(
    first: &Json,
    second: &Json,
    both: &Json,
    first_models: Vec<ModelInfo>,
    second_models: Vec<ModelInfo>,
    models: Vec<ModelInfo>,
)
    requires
        call_ensures(map_models, (first,), first_models),
        call_ensures(map_models, (second,), second_models),
        call_ensures(map_models, (both,), models),
        both@.items_at("data"@) == first@.items_at("data"@) + second@.items_at("data"@),
    ensures
        views(models@) == views(first_models@) + views(second_models@),
{
    lemma_picked_in_order(
        first@.items_at("data"@),
        second@.items_at("data"@),
        |model: JsonView| entry_model(model),
    );
}

/// A label is the name with nothing but its first character changed: to upper case where it is a
/// lower-case letter of ASCII, not at all where it is any other character of ASCII, else by
/// Unicode's mapping.
pub proof fn labels_change_the_first_character(effort: &str, label: String)
    requires
        call_ensures(humanize_effort, (effort,), label),
    ensures
        effort@.len() == 0 ==> label@.len() == 0,
        effort@.len() > 0 && effort@[0] <= '\u{7f}' ==> label@.len() == effort@.len() && (
        forall|i: int| 0 < i < label@.len() ==> label@[i] == effort@[i]),
        effort@.len() > 0 && 'a' <= effort@[0] <= 'z' ==> label@[0] as int == effort@[0] as int
            - 'a' as int + 'A' as int,
        effort@.len() > 0 && effort@[0] <= '\u{7f}' && !('a' <= effort@[0] <= 'z') ==> label@[0]
            == effort@[0],
        effort@.len() > 0 && effort@[0] > '\u{7f}' ==> label@ == uppercase(effort@[0])
            + effort@.subrange(1, effort@.len() as int),
{
    if effort@.len() > 0 {
        assert(effort@.skip(1) =~= effort@.subrange(1, effort@.len() as int));
    }
}

proof fn lemma_default_first(entries: Seq<JsonView>, at: int)
    requires
        0 <= at < entries.len(),
        entries[at].flag_at("isDefault"@) == Some(true),
        forall|j: int| 0 <= j < at ==> (#[trigger] entries[j]).flag_at("isDefault"@) != Some(true),
    ensures
        default_entry(entries) == Some(entries[at]),
    decreases entries.len(),
{
    if at > 0 {
        assert(entries[0].flag_at("isDefault"@) != Some(true));
        assert forall|j: int| 0 <= j < at - 1 implies (#[trigger] entries.skip(1)[j]).flag_at(
            "isDefault"@,
        ) != Some(true) by {
            assert(entries.skip(1)[j] == entries[j + 1]);
        }
        lemma_default_first(entries.skip(1), at - 1);
    }
}

proof fn lemma_default_none(entries: Seq<JsonView>)
    requires
        forall|j: int|
            0 <= j < entries.len() ==> (#[trigger] entries[j]).flag_at("isDefault"@) != Some(true),
    ensures
        default_entry(entries) is None,
    decreases entries.len(),
{
    if entries.len() > 0 {
        assert forall|j: int| 0 <= j < entries.skip(1).len() implies (
        #[trigger] entries.skip(1)[j]).flag_at("isDefault"@) != Some(true) by {
            assert(entries.skip(1)[j] == entries[j + 1]);
        }
        lemma_default_none(entries.skip(1));
    }
}

/// Sessions start with the first entry that is marked as the default, where it has an id; else with
/// the first model that is listed; and where none is listed there is nothing to start with. The
/// models are handed on as they are.
pub proof fn sessions_start_with_the_default(
    response: &Json,
    models: Vec<ModelInfo>,
    state: Option<SessionModelState>,
    at: int,
    id: Seq<char>,
)
    requires
        call_ensures(map_model_state, (response, models), state),
    ensures
        ({
            let entries = response@.items_at("data"@);
            let marked = |i: int| entries[i].get("isDefault"@) == Some(JsonView::Bool(true));
            let first = 0 <= at < entries.len() && marked(at) && forall|j: int|
                0 <= j < at ==> #[trigger] entries[j].get("isDefault"@) != Some(
                    JsonView::Bool(true),
                );
            let none = forall|j: int|
                0 <= j < entries.len() ==> #[trigger] entries[j].get("isDefault"@) != Some(
                    JsonView::Bool(true),
                );
            &&& first && has_id(entries[at], id) ==> (state matches Some(state)
                && state.current_model_id@ == id)
            &&& none && models@.len() > 0 ==> (state matches Some(state) && state.current_model_id@
                == models@[0].model_id@)
            &&& none && models@.len() == 0 ==> state is None
            &&& first && entry_model(entries[at]) is None && models@.len() > 0 ==> (
            state matches Some(state) && state.current_model_id@ == models@[0].model_id@)
        }),
        models@.len() > 0 ==> state is Some,
        state matches Some(state) ==> state.available_models@.len() == models@.len() && (
        forall|i: int|
            0 <= i < models@.len() ==> (#[trigger] state.available_models@[i])@ == models@[i]@),
{
    let entries = response@.items_at("data"@);
    assert(views(models@).len() == models@.len());
    if models@.len() > 0 {
        assert(views(models@)[0] == models@[0]@);
    }
    if state is Some {
        let listed = state->0.available_models@;
        assert(views(listed) == views(models@));
        assert(views(listed).len() == listed.len());
        assert forall|i: int| 0 <= i < models@.len() implies (#[trigger] listed[i])@
            == models@[i]@ by {
            assert(views(listed)[i] == listed[i]@);
            assert(views(models@)[i] == models@[i]@);
        }
    }
    if 0 <= at < entries.len() && entries[at].get("isDefault"@) == Some(JsonView::Bool(true)) && (
    forall|j: int|
        0 <= j < at ==> #[trigger] entries[j].get("isDefault"@) != Some(JsonView::Bool(true))) {
        assert forall|j: int| 0 <= j < at implies (#[trigger] entries[j]).flag_at("isDefault"@)
            != Some(true) by {
            assert(entries[j].get("isDefault"@) != Some(JsonView::Bool(true)));
        }
        lemma_default_first(entries, at);
    }
    if forall|j: int|
        0 <= j < entries.len() ==> #[trigger] entries[j].get("isDefault"@) != Some(
            JsonView::Bool(true),
        ) {
        assert forall|j: int| 0 <= j < entries.len() implies (#[trigger] entries[j]).flag_at(
            "isDefault"@,
        ) != Some(true) by {
            assert(entries[j].get("isDefault"@) != Some(JsonView::Bool(true)));
        }
        lemma_default_none(entries);
    }
}

/// The protocol's form of a model list names the model in use and lists the models in order, each
/// by its id and its name, and by its description and metadata where it has them.
pub proof fn model_lists_have_their_form(state: SessionModelState, form: Json, i: int)
    requires
        call_ensures(SessionModelState::into_json, (state,), form),
    ensures
        form@.get("currentModelId"@) == Some(JsonView::Text(state.current_model_id@)),
        form@.items_at("availableModels"@).len() == state.available_models@.len(),
        holds_only(form@, set!["currentModelId"@, "availableModels"@]),
        0 <= i < state.available_models@.len() ==> {
            let listed = form@.items_at("availableModels"@)[i];
            let model = state.available_models@[i];
            &&& listed.get("modelId"@) == Some(JsonView::Text(model.model_id@))
            &&& listed.get("name"@) == Some(JsonView::Text(model.name@))
            &&& listed.get("description"@) == match model.description {
                Some(text) => Some(JsonView::Text(text@)),
                None => None,
            }
            &&& listed.get("_meta"@) == match model.meta {
                Some(meta) => Some(JsonView::Object(meta@)),
                None => None,
            }
            &&& holds_only(listed, set!["modelId"@, "name"@, "description"@, "_meta"@])
        },
{
    reveal_strlit("currentModelId");
    reveal_strlit("availableModels");
    assert("currentModelId"@.len() == 14 && "availableModels"@.len() == 15);
    reveal_strlit("modelId");
    reveal_strlit("name");
    reveal_strlit("description");
    reveal_strlit("_meta");
    assert("modelId"@.len() == 7 && "name"@.len() == 4 && "description"@.len() == 11);
    assert("_meta"@.len() == 5);
    if 0 <= i < state.available_models@.len() {
        assert(views(state.available_models@)[i] == state.available_models@[i]@);
    }
}

/// An effort keeps its name, also in a copy; and the effort that a reply names is read as it
/// stands.
pub proof fn efforts_keep_their_name(
    name: &str,
    effort: ReasoningEffort,
    shown: &str,
    copied: Option<ReasoningEffort>,
    response: &Json,
    reported: Option<&str>,
)
    requires
        call_ensures(ReasoningEffort::new, (name,), effort),
        call_ensures(ReasoningEffort::as_str, (&effort,), shown),
        call_ensures(copy_effort, (&Some(effort),), copied),
        call_ensures(reported_effort, (response,), reported),
    ensures
        shown@ == name@,
        copied matches Some(copied) && copied@ == name@,
        match response@.get("reasoningEffort"@) {
            Some(JsonView::Text(text)) => reported matches Some(found) && found@ == text,
            _ => reported is None,
        },
{
}

/// The catalog lists this model first at this place.
pub open spec fn leads(models: Seq<CatalogModel>, model: Seq<char>, at: int) -> bool {
    &&& 0 <= at < models.len()
    &&& models[at].info.model_id@ == model
    &&& forall|j: int| 0 <= j < at ==> (#[trigger] models[j]).info.model_id@ != model
}

/// The catalog does not list this model.
pub open spec fn unlisted(models: Seq<CatalogModel>, model: Seq<char>) -> bool {
    forall|j: int| 0 <= j < models.len() ==> (#[trigger] models[j]).info.model_id@ != model
}

/// The effort listed for a model is that of the first entry with its id, none where there is none.
pub proof fn lemma_leads(models: Seq<CatalogModel>, model: Seq<char>, at: int)
    ensures
        leads(models, model, at) ==> listed_effort(views(models), model) == optional(
            models[at].effort,
        ) && first_listed(views(models), model, at),
        unlisted(models, model) ==> listed_effort(views(models), model) is None,
{
    assert forall|j: int| 0 <= j < models.len() implies #[trigger] views(models)[j]
        == models[j]@ by {}
    if leads(models, model, at) {
        assert forall|j: int| 0 <= j < at implies (#[trigger] views(models)[j]).info.model_id
            != model by {
            assert(models[j].info.model_id@ != model);
        }
        assert(first_listed(views(models), model, at));
        let found = choose|i: int| first_listed(views(models), model, i);
        if found < at {
            assert(views(models)[found].info.model_id != model);
        }
        if at < found {
            assert(views(models)[at].info.model_id != model);
        }
    }
    if unlisted(models, model) {
        assert forall|i: int| !first_listed(views(models), model, i) by {
            if 0 <= i < models.len() {
                assert(models[i].info.model_id@ != model);
            }
        }
    }
}

/// The effort of a model is that of its first entry in the catalog; a model that is not listed has
/// none.
pub proof fn listed_models_have_their_effort(
    models: &Vec<CatalogModel>,
    model: &str,
    effort: Option<ReasoningEffort>,
    at: int,
)
    requires
        call_ensures(default_effort_for_model, (models, model), effort),
    ensures
        leads(models@, model@, at) ==> match (effort, models@[at].effort) {
            (Some(found), Some(listed)) => found@ == listed@,
            (None, None) => true,
            _ => false,
        },
        unlisted(models@, model@) ==> effort is None,
{
    lemma_leads(models@, model@, at);
}

/// What is noted for a session is the model it was given, with the effort that was reported or,
/// where none was, that of the catalog; and nothing else of the agent changes.
pub proof fn reported_selections_are_noted<C, L>(
    agent: &mut CodexAgent<C, L>,
    session: &str,
    model: &str,
    reported: Option<ReasoningEffort>,
    effort: Option<ReasoningEffort>,
    at: int,
    other: Seq<char>,
)
    requires
        call_ensures(
            CodexAgent::<C, L>::record_session_selection,
            (agent, session, model, reported),
            effort,
        ),
    ensures
        final(agent)@.selected.contains_key(session@),
        final(agent)@.selected[session@].model == model@,
        final(agent)@.selected[session@].effort == optional(effort),
        reported matches Some(reported) ==> (effort matches Some(noted) && noted@ == reported@),
        reported is None && leads(old(agent).models@, model@, at) ==> optional(effort) == optional(
            old(agent).models@[at].effort,
        ),
        reported is None && unlisted(old(agent).models@, model@) ==> effort is None,
        other != session@ ==> (final(agent)@.selected.contains_key(other) <==> old(
            agent,
        )@.selected.contains_key(other)) && (old(agent)@.selected.contains_key(other)
            ==> final(agent)@.selected[other] == old(agent)@.selected[other]),
        final(agent)@ == (crate::agent::AgentState {
            selected: final(agent)@.selected,
            ..old(agent)@
        }),
{
    lemma_leads(old(agent).models@, model@, at);
}

/// The model that the user chooses for a session is noted as a reported one is: with the effort
/// that was asked for or, where none was, that of the catalog.
pub proof fn chosen_models_are_noted<C, L>(
    agent: &mut CodexAgent<C, L>,
    session: &str,
    model: &str,
    requested: Option<ReasoningEffort>,
    at: int,
    other: Seq<char>,
)
    requires
        call_ensures(
            CodexAgent::<C, L>::set_session_model,
            (agent, session, model, requested),
            (),
        ),
    ensures
        final(agent)@.selected.contains_key(session@),
        final(agent)@.selected[session@].model == model@,
        requested matches Some(requested) ==> final(agent)@.selected[session@].effort == Some(
            requested@,
        ),
        requested is None && leads(old(agent).models@, model@, at)
            ==> final(agent)@.selected[session@].effort == optional(old(agent).models@[at].effort),
        requested is None && unlisted(old(agent).models@, model@)
            ==> final(agent)@.selected[session@].effort is None,
        other != session@ ==> (final(agent)@.selected.contains_key(other) <==> old(
            agent,
        )@.selected.contains_key(other)) && (old(agent)@.selected.contains_key(other)
            ==> final(agent)@.selected[other] == old(agent)@.selected[other]),
        final(agent)@ == (crate::agent::AgentState {
            selected: final(agent)@.selected,
            ..old(agent)@
        }),
{
    lemma_leads(old(agent).models@, model@, at);
}

/// A session's model list names the model in use and lists the catalog in order. Where an effort
/// is given, the first entry of the model in use holds it, with whatever else it held; every other
/// entry is listed as it is.
pub proof fn model_lists_show_the_effort_in_use<C, L>(
    agent: &CodexAgent<C, L>,
    current: &str,
    effort: &Option<ReasoningEffort>,
    state: SessionModelState,
    i: int,
    key: Seq<char>,
)
    requires
        call_ensures(CodexAgent::<C, L>::model_state, (agent, current, effort), state),
        0 <= i < agent.models@.len(),
    ensures
        state.current_model_id@ == current@,
        state.available_models@.len() == agent.models@.len(),
        state.available_models@[i].model_id@ == agent.models@[i].info.model_id@,
        state.available_models@[i].name@ == agent.models@[i].info.name@,
        optional(state.available_models@[i].description) == optional(
            agent.models@[i].info.description,
        ),
        leads(agent.models@, current@, i) ==> match *effort {
            Some(used) => told(state.available_models@[i].meta, "reasoningEffort"@) == Some(
                JsonView::Text(used@),
            ),
            None => true,
        },
        *effort is Some && leads(agent.models@, current@, i) && key != "reasoningEffort"@ ==> told(
            state.available_models@[i].meta,
            key,
        ) == told(agent.models@[i].info.meta, key),
        *effort is None || !leads(agent.models@, current@, i) ==> state.available_models@[i]@
            == agent.models@[i].info@,
{
    lemma_leads(agent.models@, current@, i);
    let models = agent.models@;
    let listed = state.available_models@;
    assert(views(listed) == session_models(views(models), current@, optional(*effort)));
    assert(views(listed).len() == listed.len());
    assert(views(listed)[i] == listed[i]@);
    assert(views(models)[i] == models[i]@);
    if !leads(models, current@, i) {
        assert(!first_listed(views(models), current@, i)) by {
            if first_listed(views(models), current@, i) {
                assert forall|j: int| 0 <= j < i implies (#[trigger] models[j]).info.model_id@
                    != current@ by {
                    assert(views(models)[j].info.model_id != current@);
                }
            }
        }
    }
}

/// The catalog that the agent knows after a refresh is the one that was sent, in its order, each
/// model with the effort read for it; and what new sessions start with is what the catalog says.
pub proof fn refreshed_catalogs_are_the_ones_sent<C, L>(
    agent: &mut CodexAgent<C, L>,
    response: &Json,
    efforts: Vec<Option<ReasoningEffort>>,
    start: Option<SessionModelState>,
    listed: Vec<ModelInfo>,
    said: Option<SessionModelState>,
    i: int,
)
    requires
        call_ensures(CodexAgent::<C, L>::refresh_models, (agent, response, efforts), start),
        call_ensures(map_models, (response,), listed),
        call_ensures(map_model_state, (response, listed), said),
    ensures
        final(agent)@.models.len() == listed@.len(),
        0 <= i < listed@.len() ==> final(agent)@.models[i].info == listed@[i]@,
        0 <= i < listed@.len() && i < efforts@.len() ==> final(agent)@.models[i].effort == optional(
            efforts@[i],
        ),
        0 <= i < listed@.len() && i >= efforts@.len() ==> final(agent)@.models[i].effort is None,
        match (start, said) {
            (Some(start), Some(said)) => start@ == said@,
            (None, None) => true,
            _ => false,
        },
        final(agent)@ == (crate::agent::AgentState {
            models: final(agent)@.models,
            ..old(agent)@
        }),
{
    assert(views(listed@) == catalog_models(response@));
    assert(views(listed@).len() == listed@.len());
    if 0 <= i < listed@.len() {
        assert(views(listed@)[i] == listed@[i]@);
    }
}

/// The agent's state shows what its fields hold.
pub proof fn states_show_the_fields<C, L>(agent: CodexAgent<C, L>, i: int, key: Seq<char>)
    ensures
        agent@.models.len() == agent.models@.len(),
        0 <= i < agent.models@.len() ==> agent@.models[i].info == agent.models@[i].info@
            && agent@.models[i].effort == optional(agent.models@[i].effort),
        agent@.selected.contains_key(key) <==> agent.selected_models@.contains_key(key),
        agent@.selected.contains_key(key) ==> agent@.selected[key].model
            == agent.selected_models@[key].model@ && agent@.selected[key].effort == optional(
            agent.selected_models@[key].effort,
        ),
        agent@.active_turns.contains_key(key) <==> agent.active_turns@.contains_key(key),
        agent@.active_turns.contains_key(key) ==> agent@.active_turns[key]
            == agent.active_turns@[key]@,
        agent@.completions == agent.completions@,
        agent@.logins == agent.login_completions@,
        agent@.authenticated == agent.authenticated,
        agent@.openai_docs_mcp == agent.openai_docs_mcp,
{
}

/// Two lists of models that count as the same list the same, model by model and part by part.
pub proof fn same_lists_list_the_same(one: SessionModelState, other: SessionModelState, i: int)
    requires
        one@ == other@,
    ensures
        one.current_model_id@ == other.current_model_id@,
        one.available_models@.len() == other.available_models@.len(),
        0 <= i < one.available_models@.len() ==> ({
            let first = one.available_models@[i];
            let second = other.available_models@[i];
            &&& first.model_id@ == second.model_id@
            &&& first.name@ == second.name@
            &&& optional(first.description) == optional(second.description)
            &&& optional(first.meta) == optional(second.meta)
        }),
{
    assert(views(one.available_models@).len() == one.available_models@.len());
    assert(views(other.available_models@).len() == other.available_models@.len());
    if 0 <= i < one.available_models@.len() {
        assert(views(one.available_models@)[i] == one.available_models@[i]@);
        assert(views(other.available_models@)[i] == other.available_models@[i]@);
    }
}

} // verus!
