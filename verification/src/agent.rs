//! The agent's state: the models it knows, what each session uses, who waits for what.

use vstd::prelude::*;

use crate::json::{Json, JsonObject, JsonView};
use crate::models::{
    catalog_models, initial_model, map_model_state, map_models, ModelInfo, ModelInfoView,
    ReasoningEffort, SessionModelState, SessionModelStateView,
};
use crate::string_map::StringMap;
use crate::text::{optional, views};

verus! {

/// A model of the catalog and the effort that it is used with unless another is asked for.
#[derive(Debug, PartialEq)]
pub struct CatalogModel {
    pub info: ModelInfo,
    pub effort: Option<ReasoningEffort>,
}

#[verifier::ext_equal]
pub struct CatalogModelView {
    pub info: ModelInfoView,
    pub effort: Option<Seq<char>>,
}

impl View for CatalogModel {
    type V = CatalogModelView;

    open spec fn view(&self) -> CatalogModelView {
        CatalogModelView { info: self.info@, effort: optional(self.effort) }
    }
}

/// The model and the effort that a session uses.
#[derive(Debug, PartialEq)]
pub struct CodexModelSelection {
    pub model: String,
    pub effort: Option<ReasoningEffort>,
}

#[verifier::ext_equal]
pub struct SelectionView {
    pub model: Seq<char>,
    pub effort: Option<Seq<char>>,
}

impl View for CodexModelSelection {
    type V = SelectionView;

    open spec fn view(&self) -> SelectionView {
        SelectionView { model: self.model@, effort: optional(self.effort) }
    }
}

/// Why the agent refuses a request of the pager.
#[derive(Debug, PartialEq)]
pub enum AgentError {
    /// Something failed on the agent's side.
    Internal(String),
    /// The request names something that there is not.
    InvalidParams(String),
    /// There is no such method.
    MethodNotFound,
}

#[verifier::ext_equal]
pub enum AgentErrorView {
    Internal(Seq<char>),
    InvalidParams(Seq<char>),
    MethodNotFound,
}

impl View for AgentError {
    type V = AgentErrorView;

    open spec fn view(&self) -> AgentErrorView {
        match self {
            AgentError::Internal(text) => AgentErrorView::Internal(text@),
            AgentError::InvalidParams(text) => AgentErrorView::InvalidParams(text@),
            AgentError::MethodNotFound => AgentErrorView::MethodNotFound,
        }
    }
}

/// The error with which the agent reports a failure of its own.
pub fn acp_error(text: &str) -> (error: AgentError)
    ensures
        error@ == AgentErrorView::Internal(text@),
{
    AgentError::Internal(text.to_owned())
}

/// The agent's state. `C` is what a prompt waits with for the end of its turn, `L` what a login
/// waits with for its end.
pub struct CodexAgent<C, L> {
    pub models: Vec<CatalogModel>,
    pub selected_models: StringMap<CodexModelSelection>,
    pub active_turns: StringMap<String>,
    pub completions: StringMap<C>,
    pub login_completions: StringMap<L>,
    pub authenticated: bool,
    pub openai_docs_mcp: bool,
}

/// The agent's state: the catalog, what each session uses, which turn each session is in, who
/// waits for which turn and which login, whether a user is logged in, and whether sessions may
/// use the documentation server.
#[verifier::ext_equal]
pub ghost struct AgentState<C, L> {
    pub models: Seq<CatalogModelView>,
    pub selected: Map<Seq<char>, SelectionView>,
    pub active_turns: Map<Seq<char>, Seq<char>>,
    pub completions: Map<Seq<char>, C>,
    pub logins: Map<Seq<char>, L>,
    pub authenticated: bool,
    pub openai_docs_mcp: bool,
}

impl<C, L> View for CodexAgent<C, L> {
    type V = AgentState<C, L>;

    open spec fn view(&self) -> AgentState<C, L> {
        AgentState {
            models: views(self.models@),
            selected: self.selected_models@.map_values(|selection: CodexModelSelection| selection@),
            active_turns: self.active_turns@.map_values(|turn: String| turn@),
            completions: self.completions@,
            logins: self.login_completions@,
            authenticated: self.authenticated,
            openai_docs_mcp: self.openai_docs_mcp,
        }
    }
}

/// The position of the first model with this id.
pub open spec fn first_listed(models: Seq<CatalogModelView>, model: Seq<char>, i: int) -> bool {
    &&& 0 <= i < models.len()
    &&& models[i].info.model_id == model
    &&& forall|j: int| 0 <= j < i ==> (#[trigger] models[j]).info.model_id != model
}

/// The effort that the catalog gives for a model: that of its first entry.
pub open spec fn listed_effort(models: Seq<CatalogModelView>, model: Seq<char>) -> Option<
    Seq<char>,
> {
    if exists|i: int| first_listed(models, model, i) {
        models[choose|i: int| first_listed(models, model, i)].effort
    } else {
        None
    }
}

/// The model as it is listed where it is used with this effort.
pub open spec fn with_effort(info: ModelInfoView, effort: Seq<char>) -> ModelInfoView {
    ModelInfoView {
        meta: Some(
            match info.meta {
                Some(meta) => meta,
                None => Map::empty(),
            }.insert("reasoningEffort"@, JsonView::Text(effort)),
        ),
        ..info
    }
}

/// The catalog as a session lists it: where an effort is given, the first entry of the current
/// model names it.
pub open spec fn session_models(
    models: Seq<CatalogModelView>,
    current: Seq<char>,
    effort: Option<Seq<char>>,
) -> Seq<ModelInfoView> {
    Seq::new(
        models.len(),
        |i: int|
            match effort {
                Some(effort) => if first_listed(models, current, i) {
                    with_effort(models[i].info, effort)
                } else {
                    models[i].info
                },
                None => models[i].info,
            },
    )
}

/// The effort asked for, or else that of the catalog.
pub open spec fn effective_effort(
    asked: Option<Seq<char>>,
    models: Seq<CatalogModelView>,
    model: Seq<char>,
) -> Option<Seq<char>> {
    match asked {
        Some(effort) => Some(effort),
        None => listed_effort(models, model),
    }
}

impl<C, L> AgentState<C, L> {
    /// Someone waits for the end of every turn that a session is in.
    pub open spec fn turns_awaited(self) -> bool {
        forall|session: Seq<char>| #[trigger]
            self.active_turns.contains_key(session) ==> self.completions.contains_key(
                self.active_turns[session],
            )
    }

    /// The state once a session uses this model, with the effort asked for or else that of the
    /// catalog.
    pub open spec fn select(
        self,
        session: Seq<char>,
        model: Seq<char>,
        asked: Option<Seq<char>>,
    ) -> Self {
        AgentState {
            selected: self.selected.insert(
                session,
                SelectionView { model, effort: effective_effort(asked, self.models, model) },
            ),
            ..self
        }
    }

    /// The state once a new catalog was taken over, with the effort of each model in turn.
    pub open spec fn refreshed(
        self,
        response: JsonView,
        efforts: Seq<Option<ReasoningEffort>>,
    ) -> Self {
        AgentState {
            models: Seq::new(
                catalog_models(response).len(),
                |i: int|
                    CatalogModelView {
                        info: catalog_models(response)[i],
                        effort: if i < efforts.len() {
                            optional(efforts[i])
                        } else {
                            None
                        },
                    },
            ),
            ..self
        }
    }

    /// The model list of a session that uses this model.
    pub open spec fn model_state(self, current: Seq<char>, effort: Option<Seq<char>>) ->
        SessionModelStateView {
        SessionModelStateView {
            current_model_id: current,
            available_models: session_models(self.models, current, effort),
        }
    }
}

/// The first entry of this id.
fn find_listed(models: &Vec<CatalogModel>, model: &str) -> (found: Option<usize>)
    ensures
        match found {
            Some(i) => first_listed(views(models@), model@, i as int),
            None => forall|i: int| !first_listed(views(models@), model@, i),
        },
{
    let mut i: usize = 0;
    while i < models.len()
        invariant
            i <= models.len(),
            forall|j: int| 0 <= j < i ==> (#[trigger] views(models@)[j]).info.model_id != model@,
        decreases models.len() - i,
    {
        assert(views(models@)[i as int] == models@[i as int]@);
        if models[i].info.model_id.as_str().eq(model) {
            return Some(i);
        }
        i = i + 1;
    }
    None
}

/// A copy of an effort, if there is one.
pub fn copy_effort(effort: &Option<ReasoningEffort>) -> (copy: Option<ReasoningEffort>)
    ensures
        optional(copy) == optional(*effort),
{
    match effort {
        Some(effort) => Some(effort.clone()),
        None => None,
    }
}

/// The effort that the catalog gives for a model.
pub fn default_effort_for_model(models: &Vec<CatalogModel>, model: &str) -> (effort: Option<
    ReasoningEffort,
>)
    ensures
        optional(effort) == listed_effort(views(models@), model@),
{
    match find_listed(models, model) {
        Some(i) => {
            proof {
                let chosen = choose|j: int| first_listed(views(models@), model@, j);
                assert(first_listed(views(models@), model@, i as int));
                assert(chosen == i);
                assert(views(models@)[i as int] == models@[i as int]@);
            }
            copy_effort(&models[i].effort)
        },
        None => None,
    }
}

/// The text of the effort that a reply of the app-server reports.
pub fn reported_effort(response: &Json) -> (effort: Option<&str>)
    ensures
        optional(effort) == response@.text_at("reasoningEffort"@),
{
    response.get_str("reasoningEffort")
}

impl<C, L> CodexAgent<C, L> {
    /// The agent before it knows of any model, session or user.
    pub fn new(openai_docs_mcp: bool) -> (agent: Self)
        ensures
            agent@ == (AgentState {
                models: Seq::<CatalogModelView>::empty(),
                selected: Map::<Seq<char>, SelectionView>::empty(),
                active_turns: Map::<Seq<char>, Seq<char>>::empty(),
                completions: Map::<Seq<char>, C>::empty(),
                logins: Map::<Seq<char>, L>::empty(),
                authenticated: false,
                openai_docs_mcp,
            }),
            agent@.turns_awaited(),
    {
        let agent = CodexAgent {
            models: Vec::new(),
            selected_models: StringMap::new(),
            active_turns: StringMap::new(),
            completions: StringMap::new(),
            login_completions: StringMap::new(),
            authenticated: false,
            openai_docs_mcp,
        };
        proof {
            assert(agent@.models =~= Seq::<CatalogModelView>::empty());
            assert(agent@.selected =~= Map::<Seq<char>, SelectionView>::empty());
            assert(agent@.active_turns =~= Map::<Seq<char>, Seq<char>>::empty());
        }
        agent
    }

    /// Takes over a new catalog, and says what a new session starts with. `efforts` holds the
    /// effort of each model in turn.
    pub fn refresh_models(
        &mut self,
        response: &Json,
        efforts: Vec<Option<ReasoningEffort>>,
    ) -> (state: Option<SessionModelState>)
        ensures
            final(self)@ == old(self)@.refreshed(response@, efforts@),
            match (state, initial_model(response@, catalog_models(response@))) {
                (Some(state), Some(current)) => state@ == (SessionModelStateView {
                    current_model_id: current,
                    available_models: catalog_models(response@),
                }),
                (None, None) => true,
                _ => false,
            },
    {
        let listed = map_models(response);
        let mut models: Vec<CatalogModel> = Vec::new();
        for i in 0..listed.len()
            invariant
                models@.len() == i,
                forall|j: int|
                    0 <= j < i ==> (#[trigger] models@[j])@ == (CatalogModelView {
                        info: listed@[j]@,
                        effort: if j < efforts@.len() {
                            optional(efforts@[j])
                        } else {
                            None
                        },
                    }),
        {
            let effort = if i < efforts.len() {
                copy_effort(&efforts[i])
            } else {
                None
            };
            models.push(CatalogModel { info: listed[i].clone(), effort });
        }
        self.models = models;
        proof {
            assert(self@.models =~= old(self)@.refreshed(response@, efforts@).models);
        }
        map_model_state(response, listed)
    }

    /// The model list of a session that uses this model with this effort.
    pub fn model_state(&self, current: &str, effort: &Option<ReasoningEffort>) -> (state:
        SessionModelState)
        ensures
            state@ == self@.model_state(current@, optional(*effort)),
    {
        let marked = match effort {
            Some(_) => find_listed(&self.models, current),
            None => None,
        };
        let mut available_models: Vec<ModelInfo> = Vec::new();
        let ghost listed = views(self.models@);
        for i in 0..self.models.len()
            invariant
                listed == views(self.models@),
                match marked {
                    Some(at) => effort is Some && first_listed(listed, current@, at as int),
                    None => effort is Some ==> forall|j: int| !first_listed(listed, current@, j),
                },
                available_models@.len() == i,
                forall|j: int|
                    0 <= j < i ==> (#[trigger] available_models@[j])@ == session_models(
                        listed,
                        current@,
                        optional(*effort),
                    )[j],
        {
            let mut info = self.models[i].info.clone();
            assert(listed[i as int] == self.models@[i as int]@);
            let here = match marked {
                Some(at) => at == i,
                None => false,
            };
            if here {
                if let Some(effort) = effort {
                    let mut meta = match info.meta {
                        Some(meta) => meta,
                        None => JsonObject::new(),
                    };
                    meta.insert("reasoningEffort", Json::text(effort.as_str()));
                    info.meta = Some(meta);
                }
            }
            available_models.push(info);
        }
        proof {
            assert(views(available_models@) =~= session_models(
                listed,
                current@,
                optional(*effort),
            ));
        }
        SessionModelState { current_model_id: current.to_owned(), available_models }
    }

    /// Notes the model that a session uses, with the effort reported or else that of the catalog.
    pub fn record_session_selection(
        &mut self,
        session_id: &str,
        model: &str,
        reported: Option<ReasoningEffort>,
    ) -> (effort: Option<ReasoningEffort>)
        ensures
            final(self)@ == old(self)@.select(session_id@, model@, optional(reported)),
            optional(effort) == effective_effort(optional(reported), old(self)@.models, model@),
    {
        let effort = match reported {
            Some(effort) => Some(effort),
            None => default_effort_for_model(&self.models, model),
        };
        let selection = CodexModelSelection {
            model: model.to_owned(),
            effort: copy_effort(&effort),
        };
        let ghost before = self.selected_models@;
        self.selected_models.insert(session_id.to_owned(), selection);
        proof {
            let shown = |selection: CodexModelSelection| selection@;
            assert(self.selected_models@.map_values(shown) =~= before.map_values(shown).insert(
                session_id@,
                selection@,
            ));
        }
        effort
    }

    /// Notes the model that the user chose for a session.
    pub fn set_session_model(
        &mut self,
        session_id: &str,
        model: &str,
        requested: Option<ReasoningEffort>,
    )
        ensures
            final(self)@ == old(self)@.select(session_id@, model@, optional(requested)),
    {
        self.record_session_selection(session_id, model, requested);
    }
}

} // verus!
