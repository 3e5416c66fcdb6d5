//! Questions that the app-server asks the user, and the answers it gets.

use vstd::prelude::*;

use crate::json::{lemma_array_view, Json, JsonObject, JsonView};
use crate::rpc::{error_message, respond, respond_error, result_message};
use crate::string_map::{distinct_keys, entry_map, lemma_push, position, StringMap};
use crate::text::{blank, concat, is_blank, optional, views};
use crate::updates::{ExtNotification, ExtNotificationView};

verus! {

/// An answer that a question offers.
#[derive(Debug, PartialEq)]
pub struct CodexRequestUserInputOption {
    pub label: String,
    pub description: String,
}

#[verifier::ext_equal]
pub struct OptionView {
    pub label: Seq<char>,
    pub description: Seq<char>,
}

impl View for CodexRequestUserInputOption {
    type V = OptionView;

    open spec fn view(&self) -> OptionView {
        OptionView { label: self.label@, description: self.description@ }
    }
}

/// A question of the app-server.
#[derive(Debug, PartialEq)]
pub struct CodexRequestUserInputQuestion {
    pub id: String,
    pub header: String,
    pub question: String,
    pub options: Option<Vec<CodexRequestUserInputOption>>,
    pub is_other: bool,
    pub is_secret: bool,
}

#[verifier::ext_equal]
pub struct AskedView {
    pub id: Seq<char>,
    pub header: Seq<char>,
    pub question: Seq<char>,
    pub options: Option<Seq<OptionView>>,
    pub is_other: bool,
    pub is_secret: bool,
}

impl View for CodexRequestUserInputQuestion {
    type V = AskedView;

    open spec fn view(&self) -> AskedView {
        AskedView {
            id: self.id@,
            header: self.header@,
            question: self.question@,
            options: match self.options {
                Some(options) => Some(views(options@)),
                None => None,
            },
            is_other: self.is_other,
            is_secret: self.is_secret,
        }
    }
}

/// A request of the app-server to ask the user.
#[derive(Debug, PartialEq)]
pub struct CodexRequestUserInputParams {
    pub thread_id: String,
    pub turn_id: String,
    pub item_id: String,
    pub questions: Vec<CodexRequestUserInputQuestion>,
    pub auto_resolution_ms: Option<u64>,
}

#[verifier::ext_equal]
pub struct UserInputView {
    pub thread_id: Seq<char>,
    pub turn_id: Seq<char>,
    pub item_id: Seq<char>,
    pub questions: Seq<AskedView>,
    pub auto_resolution_ms: Option<u64>,
}

impl View for CodexRequestUserInputParams {
    type V = UserInputView;

    open spec fn view(&self) -> UserInputView {
        UserInputView {
            thread_id: self.thread_id@,
            turn_id: self.turn_id@,
            item_id: self.item_id@,
            questions: views(self.questions@),
            auto_resolution_ms: self.auto_resolution_ms,
        }
    }
}

/// Why a request to ask the user is refused.
#[derive(Clone, Copy, Debug, PartialEq, Eq, Structural)]
pub enum UserInputError {
    EmptyRoutingId,
    NoQuestions,
    SecretQuestion,
    NoFreeForm,
    NoOptions,
}

impl UserInputError {
    /// The text that says so.
    pub open spec fn text(self) -> Seq<char> {
        match self {
            UserInputError::EmptyRoutingId =>
                "Codex request_user_input contained an empty routing id"@,
            UserInputError::NoQuestions => "Codex request_user_input contained no questions"@,
            UserInputError::SecretQuestion =>
                "secret request_user_input questions are not supported by Codex TUI"@,
            UserInputError::NoFreeForm =>
                "request_user_input without the free-form Other option is not supported"@,
            UserInputError::NoOptions =>
                "Codex request_user_input requires options for every question"@,
        }
    }

    /// The text that says so.
    pub fn message(&self) -> (text: &'static str)
        ensures
            text@ == self.text(),
    {
        match self {
            UserInputError::EmptyRoutingId =>
                "Codex request_user_input contained an empty routing id",
            UserInputError::NoQuestions => "Codex request_user_input contained no questions",
            UserInputError::SecretQuestion =>
                "secret request_user_input questions are not supported by Codex TUI",
            UserInputError::NoFreeForm =>
                "request_user_input without the free-form Other option is not supported",
            UserInputError::NoOptions =>
                "Codex request_user_input requires options for every question",
        }
    }
}

impl AskedView {
    /// The question offers an answer to choose.
    pub open spec fn has_options(self) -> bool {
        self.options matches Some(options) && options.len() > 0
    }
}

impl UserInputView {
    /// What is wrong with the request: the first of the rules that it breaks.
    pub open spec fn fault(self) -> Option<UserInputError> {
        if blank(self.thread_id) || blank(self.turn_id) || blank(self.item_id) {
            Some(UserInputError::EmptyRoutingId)
        } else if self.questions.len() == 0 {
            Some(UserInputError::NoQuestions)
        } else if self.questions.any(|question: AskedView| question.is_secret) {
            Some(UserInputError::SecretQuestion)
        } else if self.questions.any(|question: AskedView| !question.is_other) {
            Some(UserInputError::NoFreeForm)
        } else if self.questions.any(|question: AskedView| !question.has_options()) {
            Some(UserInputError::NoOptions)
        } else {
            None
        }
    }
}

/// Checks that the request can be put to the user.
pub fn validate_codex_user_input(request: &CodexRequestUserInputParams) -> (result: Result<
    (),
    UserInputError,
>)
    ensures
        result == match request@.fault() {
            Some(error) => Err(error),
            None => Ok(()),
        },
{
    if is_blank(request.thread_id.as_str()) || is_blank(request.turn_id.as_str()) || is_blank(
        request.item_id.as_str(),
    ) {
        return Err(UserInputError::EmptyRoutingId);
    }
    if request.questions.len() == 0 {
        return Err(UserInputError::NoQuestions);
    }
    let mut secret = false;
    let mut closed_form = false;
    let mut without_options = false;
    let ghost asked = request@.questions;
    for i in 0..request.questions.len()
        invariant
            asked == request@.questions,
            secret == exists|j: int| 0 <= j < i && (#[trigger] asked[j]).is_secret,
            closed_form == exists|j: int| 0 <= j < i && !(#[trigger] asked[j]).is_other,
            without_options == exists|j: int| 0 <= j < i && !(#[trigger] asked[j]).has_options(),
    {
        let question = &request.questions[i];
        assert(asked[i as int] == question@);
        if question.is_secret {
            secret = true;
        }
        if !question.is_other {
            closed_form = true;
        }
        let offers = match &question.options {
            Some(options) => options.len() > 0,
            None => false,
        };
        if !offers {
            without_options = true;
        }
    }
    proof {
        let is_secret = |question: AskedView| question.is_secret;
        let is_closed = |question: AskedView| !question.is_other;
        let offers_none = |question: AskedView| !question.has_options();
        assert(asked.any(is_secret) == secret) by {
            if secret {
                let j = choose|j: int| 0 <= j < asked.len() && (#[trigger] asked[j]).is_secret;
                assert(is_secret(asked[j]));
            }
        }
        assert(asked.any(is_closed) == closed_form) by {
            if closed_form {
                let j = choose|j: int| 0 <= j < asked.len() && !(#[trigger] asked[j]).is_other;
                assert(is_closed(asked[j]));
            }
        }
        assert(asked.any(offers_none) == without_options) by {
            if without_options {
                let j = choose|j: int| 0 <= j < asked.len() && !(#[trigger] asked[j]).has_options();
                assert(offers_none(asked[j]));
            }
        }
    }
    if secret {
        return Err(UserInputError::SecretQuestion);
    }
    if closed_form {
        return Err(UserInputError::NoFreeForm);
    }
    if without_options {
        return Err(UserInputError::NoOptions);
    }
    Ok(())
}

/// The text a question is shown with: its header above it, where it has one.
pub open spec fn display_text(question: AskedView) -> Seq<char> {
    if blank(question.header) {
        question.question
    } else {
        question.header + "\n\n"@ + question.question
    }
}

/// The text a question is shown with.
pub fn codex_question_display_text(question: &CodexRequestUserInputQuestion) -> (text: String)
    ensures
        text@ == display_text(question@),
{
    if is_blank(question.header.as_str()) {
        question.question.clone()
    } else {
        let mut text = question.header.clone();
        text.append("\n\n");
        text.append(question.question.as_str());
        text
    }
}

/// An answer as the pager offers it.
#[derive(Debug, PartialEq)]
pub struct QuestionOption {
    pub label: String,
    pub description: String,
    pub preview: Option<String>,
    pub id: Option<String>,
}

#[verifier::ext_equal]
pub struct QuestionOptionView {
    pub label: Seq<char>,
    pub description: Seq<char>,
    pub preview: Option<Seq<char>>,
    pub id: Option<Seq<char>>,
}

impl View for QuestionOption {
    type V = QuestionOptionView;

    open spec fn view(&self) -> QuestionOptionView {
        QuestionOptionView {
            label: self.label@,
            description: self.description@,
            preview: optional(self.preview),
            id: optional(self.id),
        }
    }
}

/// A question as the pager puts it.
#[derive(Debug, PartialEq)]
pub struct Question {
    pub question: String,
    pub options: Vec<QuestionOption>,
    pub multi_select: Option<bool>,
    pub id: Option<String>,
}

#[verifier::ext_equal]
pub struct QuestionView {
    pub question: Seq<char>,
    pub options: Seq<QuestionOptionView>,
    pub multi_select: Option<bool>,
    pub id: Option<Seq<char>>,
}

impl View for Question {
    type V = QuestionView;

    open spec fn view(&self) -> QuestionView {
        QuestionView {
            question: self.question@,
            options: views(self.options@),
            multi_select: self.multi_select,
            id: optional(self.id),
        }
    }
}

/// The frame in which the pager asks.
#[derive(Clone, Copy, Debug, PartialEq, Eq, Structural)]
pub enum AskUserQuestionMode {
    Default,
}

/// What the pager is asked to put to the user.
#[derive(Debug, PartialEq)]
pub struct AskUserQuestionExtRequest {
    pub session_id: String,
    pub tool_call_id: String,
    pub questions: Vec<Question>,
    pub mode: AskUserQuestionMode,
}

#[verifier::ext_equal]
pub struct AskView {
    pub session_id: Seq<char>,
    pub tool_call_id: Seq<char>,
    pub questions: Seq<QuestionView>,
    pub mode: AskUserQuestionMode,
}

impl View for AskUserQuestionExtRequest {
    type V = AskView;

    open spec fn view(&self) -> AskView {
        AskView {
            session_id: self.session_id@,
            tool_call_id: self.tool_call_id@,
            questions: views(self.questions@),
            mode: self.mode,
        }
    }
}

/// An answer of the app-server's question, as the pager offers it.
pub open spec fn offered(option: OptionView) -> QuestionOptionView {
    QuestionOptionView {
        label: option.label,
        description: option.description,
        preview: None,
        id: None,
    }
}

/// A question of the app-server, as the pager puts it: one answer may be chosen.
pub open spec fn put(question: AskedView) -> QuestionView {
    QuestionView {
        question: display_text(question),
        options: match question.options {
            Some(options) => options.map_values(|option: OptionView| offered(option)),
            None => Seq::empty(),
        },
        multi_select: Some(false),
        id: Some(question.id),
    }
}

/// What the pager is asked for a request of the app-server.
pub open spec fn asked_of_pager(request: UserInputView) -> AskView {
    AskView {
        session_id: request.thread_id,
        tool_call_id: request.item_id,
        questions: request.questions.map_values(|question: AskedView| put(question)),
        mode: AskUserQuestionMode::Default,
    }
}

fn offer_options(options: &Vec<CodexRequestUserInputOption>) -> (offers: Vec<QuestionOption>)
    ensures
        views(offers@) == views(options@).map_values(|option: OptionView| offered(option)),
{
    let mut offers: Vec<QuestionOption> = Vec::new();
    for i in 0..options.len()
        invariant
            offers@.len() == i,
            forall|j: int| 0 <= j < i ==> (#[trigger] offers@[j])@ == offered(options@[j]@),
    {
        let option = &options[i];
        offers.push(
            QuestionOption {
                label: option.label.clone(),
                description: option.description.clone(),
                preview: None,
                id: None,
            },
        );
    }
    assert(views(offers@) =~= views(options@).map_values(|option: OptionView| offered(option)));
    offers
}

/// What the pager is asked for a request of the app-server.
pub fn codex_question_ext_request(request: &CodexRequestUserInputParams) -> (ask:
    AskUserQuestionExtRequest)
    ensures
        ask@ == asked_of_pager(request@),
{
    let mut questions: Vec<Question> = Vec::new();
    for i in 0..request.questions.len()
        invariant
            questions@.len() == i,
            forall|j: int|
                0 <= j < i ==> (#[trigger] questions@[j])@ == put(request.questions@[j]@),
    {
        let question = &request.questions[i];
        let options = match &question.options {
            Some(options) => offer_options(options),
            None => Vec::new(),
        };
        proof {
            assert(views(options@) =~= put(question@).options);
        }
        questions.push(
            Question {
                question: codex_question_display_text(question),
                options,
                multi_select: Some(false),
                id: Some(question.id.clone()),
            },
        );
    }
    assert(views(questions@) =~= asked_of_pager(request@).questions);
    AskUserQuestionExtRequest {
        session_id: request.thread_id.clone(),
        tool_call_id: request.item_id.clone(),
        questions,
        mode: AskUserQuestionMode::Default,
    }
}

/// What the user added to an answer.
pub struct Annotation {
    pub notes: Option<String>,
}

/// What the pager reports of the user's answers.
pub enum AskUserQuestionExtResponse {
    Accepted {
        answers: StringMap<Vec<String>>,
        annotations: Option<StringMap<Annotation>>,
    },
    /// The user gave no answers.
    Declined,
}

#[verifier::ext_equal]
pub ghost enum AskReplyView {
    Accepted {
        answers: Map<Seq<char>, Seq<Seq<char>>>,
        notes: Map<Seq<char>, Seq<char>>,
    },
    Declined,
}

/// The notes that the annotations hold, by the key they are filed under.
pub open spec fn filed_notes(annotations: Option<StringMap<Annotation>>) -> Map<
    Seq<char>,
    Seq<char>,
> {
    match annotations {
        Some(all) => Map::new(
            |key: Seq<char>| all@.contains_key(key) && all@[key].notes is Some,
            |key: Seq<char>| all@[key].notes->0@,
        ),
        None => Map::empty(),
    }
}

impl View for AskUserQuestionExtResponse {
    type V = AskReplyView;

    open spec fn view(&self) -> AskReplyView {
        match self {
            AskUserQuestionExtResponse::Accepted { answers, annotations } => {
                AskReplyView::Accepted {
                    answers: answers@.map_values(|chosen: Vec<String>| views(chosen@)),
                    notes: filed_notes(*annotations),
                }
            },
            AskUserQuestionExtResponse::Declined => AskReplyView::Declined,
        }
    }
}

/// The answers to one question.
#[derive(Debug, PartialEq)]
pub struct CodexRequestUserInputAnswer {
    pub answers: Vec<String>,
}

impl View for CodexRequestUserInputAnswer {
    type V = Seq<Seq<char>>;

    open spec fn view(&self) -> Seq<Seq<char>> {
        views(self.answers@)
    }
}

/// The answers to a request, by the id of the question.
pub struct CodexRequestUserInputResponse {
    pub answers: StringMap<CodexRequestUserInputAnswer>,
}

impl View for CodexRequestUserInputResponse {
    type V = Map<Seq<char>, Seq<Seq<char>>>;

    open spec fn view(&self) -> Map<Seq<char>, Seq<Seq<char>>> {
        self.answers@.map_values(|answer: CodexRequestUserInputAnswer| answer@)
    }
}

/// The key that the answers to a question stand under: its id, else its text, else the text it
/// was shown with.
pub open spec fn answer_key(
    question: AskedView,
    answers: Map<Seq<char>, Seq<Seq<char>>>,
) -> Option<Seq<char>> {
    if answers.contains_key(question.id) {
        Some(question.id)
    } else if answers.contains_key(question.question) {
        Some(question.question)
    } else if answers.contains_key(display_text(question)) {
        Some(display_text(question))
    } else {
        None
    }
}

/// The chosen answers with the user's note: it takes the place of the first `Other`, or follows
/// the answers where there is none. A blank note counts as none.
pub open spec fn annotated(chosen: Seq<Seq<char>>, note: Option<Seq<char>>) -> Seq<Seq<char>> {
    match note {
        Some(note) => if blank(note) {
            chosen
        } else {
            match chosen.index_of_first("Other"@) {
                Some(i) => chosen.update(i, note),
                None => chosen.push(note),
            }
        },
        None => chosen,
    }
}

/// The answers to the questions, in their order: those of a later question with the same id
/// replace those of an earlier one.
pub open spec fn collected(
    questions: Seq<AskedView>,
    answers: Map<Seq<char>, Seq<Seq<char>>>,
    notes: Map<Seq<char>, Seq<char>>,
) -> Map<Seq<char>, Seq<Seq<char>>>
    decreases questions.len(),
{
    if questions.len() == 0 {
        Map::empty()
    } else {
        let earlier = collected(questions.drop_last(), answers, notes);
        match answer_key(questions.last(), answers) {
            Some(key) => earlier.insert(
                questions.last().id,
                annotated(
                    answers[key],
                    if notes.contains_key(key) {
                        Some(notes[key])
                    } else {
                        None
                    },
                ),
            ),
            None => earlier,
        }
    }
}

/// The answers that the app-server gets.
pub open spec fn user_input_answers(request: UserInputView, response: AskReplyView) -> Map<
    Seq<char>,
    Seq<Seq<char>>,
> {
    match response {
        AskReplyView::Accepted { answers, notes } => collected(request.questions, answers, notes),
        AskReplyView::Declined => Map::empty(),
    }
}

fn copy_texts(texts: &Vec<String>) -> (copies: Vec<String>)
    ensures
        views(copies@) == views(texts@),
{
    let mut copies: Vec<String> = Vec::new();
    for i in 0..texts.len()
        invariant
            copies@.len() == i,
            forall|j: int| 0 <= j < i ==> (#[trigger] copies@[j])@ == texts@[j]@,
    {
        copies.push(texts[i].clone());
    }
    assert(views(copies@) =~= views(texts@));
    copies
}

/// The chosen answers with the user's note.
pub fn annotate(chosen: &Vec<String>, note: Option<&str>) -> (values: Vec<String>)
    ensures
        views(values@) == annotated(views(chosen@), optional(note)),
{
    let mut values = copy_texts(chosen);
    let text = match note {
        Some(text) => text,
        None => {
            return values;
        },
    };
    if is_blank(text) {
        return values;
    }
    let ghost before = views(chosen@);
    let mut i: usize = 0;
    while i < values.len()
        invariant
            i <= values.len(),
            before == views(chosen@),
            views(values@) == before,
            note == Some(text),
            !blank(text@),
            forall|j: int| 0 <= j < i ==> before[j] != "Other"@,
        decreases values.len() - i,
    {
        assert(before[i as int] == values@[i as int]@);
        if values[i].as_str().eq("Other") {
            values.set(i, text.to_owned());
            proof {
                assert(before.contains("Other"@));
                before.index_of_first_ensures("Other"@);
                let first = before.index_of_first("Other"@)->0;
                assert(before[first] == "Other"@);
                assert(first == i);
                assert(views(values@) =~= before.update(i as int, text@));
            }
            return values;
        }
        i = i + 1;
    }
    values.push(text.to_owned());
    proof {
        before.index_of_first_ensures("Other"@);
        assert(views(values@) =~= before.push(text@));
    }
    values
}

/// The answers that the app-server gets.
pub fn codex_user_input_result(
    request: &CodexRequestUserInputParams,
    response: AskUserQuestionExtResponse,
) -> (result: CodexRequestUserInputResponse)
    ensures
        result@ == user_input_answers(request@, response@),
{
    let mut collected_answers: StringMap<CodexRequestUserInputAnswer> = StringMap::new();
    let ghost shown = |answer: CodexRequestUserInputAnswer| answer@;
    let (answers, annotations) = match response {
        AskUserQuestionExtResponse::Accepted { answers, annotations } => (answers, annotations),
        AskUserQuestionExtResponse::Declined => {
            assert(collected_answers@.map_values(shown) =~= Map::empty());
            return CodexRequestUserInputResponse { answers: collected_answers };
        },
    };
    let ghost chosen = answers@.map_values(|chosen: Vec<String>| views(chosen@));
    let ghost notes = filed_notes(annotations);
    let ghost asked = request@.questions;
    assert(collected_answers@.map_values(shown) =~= collected(asked.take(0), chosen, notes));
    for i in 0..request.questions.len()
        invariant
            asked == request@.questions,
            shown == (|answer: CodexRequestUserInputAnswer| answer@),
            chosen == answers@.map_values(|chosen: Vec<String>| views(chosen@)),
            notes == filed_notes(annotations),
            collected_answers@.map_values(shown) == collected(
                asked.take(i as int),
                chosen,
                notes,
            ),
    {
        let question = &request.questions[i];
        proof {
            assert(asked.take(i + 1).drop_last() =~= asked.take(i as int));
            assert(asked.take(i + 1).last() == question@);
        }
        let display = codex_question_display_text(question);
        let key = if answers.get(question.id.as_str()).is_some() {
            Some(question.id.as_str())
        } else if answers.get(question.question.as_str()).is_some() {
            Some(question.question.as_str())
        } else if answers.get(display.as_str()).is_some() {
            Some(display.as_str())
        } else {
            None
        };
        assert(optional(key) == answer_key(question@, chosen));
        if let Some(key) = key {
            if let Some(selected) = answers.get(key) {
                let note = match &annotations {
                    Some(all) => match all.get(key) {
                        Some(annotation) => match &annotation.notes {
                            Some(note) => Some(note.as_str()),
                            None => None,
                        },
                        None => None,
                    },
                    None => None,
                };
                let ghost before = collected_answers@;
                let answer = CodexRequestUserInputAnswer { answers: annotate(selected, note) };
                collected_answers.insert(question.id.clone(), answer);
                assert(collected_answers@.map_values(shown) =~= before.map_values(shown).insert(
                    question.id@,
                    answer@,
                ));
            }
        }
    }
    assert(asked.take(asked.len() as int) =~= asked);
    CodexRequestUserInputResponse { answers: collected_answers }
}

/// The JSON form of answers: an object with the answers of each question under its id.
pub open spec fn answers_json(answers: Map<Seq<char>, Seq<Seq<char>>>) -> JsonView {
    JsonView::Object(
        Map::<Seq<char>, JsonView>::empty().insert(
            "answers"@,
            JsonView::Object(answers.map_values(|values: Seq<Seq<char>>| answer_json(values))),
        ),
    )
}

/// The JSON form of the answers to one question.
pub open spec fn answer_json(values: Seq<Seq<char>>) -> JsonView {
    JsonView::Object(
        Map::<Seq<char>, JsonView>::empty().insert(
            "answers"@,
            JsonView::Array(values.map_values(|value: Seq<char>| JsonView::Text(value))),
        ),
    )
}

impl CodexRequestUserInputAnswer {
    /// The JSON form of the answers to one question.
    pub fn to_json(&self) -> (json: Json)
        ensures
            json@ == answer_json(self@),
    {
        let mut values: Vec<Json> = Vec::new();
        for i in 0..self.answers.len()
            invariant
                values@.len() == i,
                forall|j: int|
                    0 <= j < i ==> (#[trigger] values@[j])@ == JsonView::Text(self.answers@[j]@),
        {
            values.push(Json::Text(self.answers[i].clone()));
        }
        proof {
            lemma_array_view(values);
            assert(views(values@) =~= self@.map_values(|value: Seq<char>| JsonView::Text(value)));
        }
        Json::Object(JsonObject::new().with("answers", Json::Array(values)))
    }
}

impl CodexRequestUserInputResponse {
    /// The JSON form of the answers.
    pub fn to_json(&self) -> (json: Json)
        ensures
            json@ == answers_json(self@),
    {
        let entries = self.answers.entries();
        let ghost shown = |answer: CodexRequestUserInputAnswer| answer_json(answer@);
        let mut object = JsonObject::new();
        assert(object@ =~= entry_map(entries@.take(0)).map_values(shown));
        for i in 0..entries.len()
            invariant
                distinct_keys(entries@),
                shown == (|answer: CodexRequestUserInputAnswer| answer_json(answer@)),
                object@ == entry_map(entries@.take(i as int)).map_values(shown),
        {
            proof {
                let earlier = entries@.take(i as int);
                let (key, answer) = entries@[i as int];
                if entry_map(earlier).contains_key(key@) {
                    let j = choose|j: int| position(earlier, key@, j);
                    assert(entries@[j].0@ == entries@[i as int].0@);
                }
                lemma_push(earlier, key, answer);
                assert(entries@.take(i + 1) =~= earlier.push((key, answer)));
                assert(entry_map(earlier).insert(key@, answer).map_values(shown) =~= entry_map(
                    earlier,
                ).map_values(shown).insert(key@, answer_json(answer@)));
            }
            object.insert(entries[i].0.as_str(), entries[i].1.to_json());
        }
        proof {
            assert(entries@.take(entries.len() as int) =~= entries@);
            assert(object@ =~= self@.map_values(|values: Seq<Seq<char>>| answer_json(values)));
        }
        Json::Object(JsonObject::new().with("answers", Json::Object(object)))
    }
}

/// The notification of a change to the interaction that a request opened.
pub open spec fn interaction_notice(
    request: UserInputView,
    update: Map<Seq<char>, JsonView>,
) -> ExtNotificationView {
    ExtNotificationView {
        method: "x.ai/session_notification"@,
        params: JsonView::Object(
            Map::<Seq<char>, JsonView>::empty().insert(
                "sessionId"@,
                JsonView::Text(request.thread_id),
            ).insert("update"@, JsonView::Object(update)),
        ),
    }
}

/// The notification that a question waits for the user.
pub open spec fn pending_notice(request: UserInputView) -> ExtNotificationView {
    interaction_notice(
        request,
        Map::<Seq<char>, JsonView>::empty().insert(
            "sessionUpdate"@,
            JsonView::Text("pending_interaction"@),
        ).insert("tool_call_id"@, JsonView::Text(request.item_id)).insert(
            "kind"@,
            JsonView::Text("question"@),
        ),
    )
}

/// The notification that a question no longer waits.
pub open spec fn resolved_notice(request: UserInputView) -> ExtNotificationView {
    interaction_notice(
        request,
        Map::<Seq<char>, JsonView>::empty().insert(
            "sessionUpdate"@,
            JsonView::Text("interaction_resolved"@),
        ).insert("tool_call_id"@, JsonView::Text(request.item_id)),
    )
}

/// The notification that a question waits for the user.
pub fn notify_codex_question_pending(request: &CodexRequestUserInputParams) -> (notice:
    ExtNotification)
    ensures
        notice@ == pending_notice(request@),
{
    let update = JsonObject::new().with("sessionUpdate", Json::text("pending_interaction")).with(
        "tool_call_id",
        Json::text(request.item_id.as_str()),
    ).with("kind", Json::text("question"));
    ExtNotification {
        method: "x.ai/session_notification".to_owned(),
        params: Json::Object(
            JsonObject::new().with("sessionId", Json::text(request.thread_id.as_str())).with(
                "update",
                Json::Object(update),
            ),
        ),
    }
}

/// The notification that a question no longer waits.
pub fn notify_codex_question_resolved(request: &CodexRequestUserInputParams) -> (notice:
    ExtNotification)
    ensures
        notice@ == resolved_notice(request@),
{
    let update = JsonObject::new().with("sessionUpdate", Json::text("interaction_resolved")).with(
        "tool_call_id",
        Json::text(request.item_id.as_str()),
    );
    ExtNotification {
        method: "x.ai/session_notification".to_owned(),
        params: Json::Object(
            JsonObject::new().with("sessionId", Json::text(request.thread_id.as_str())).with(
                "update",
                Json::Object(update),
            ),
        ),
    }
}

/// What to do with a request of the app-server to ask the user.
#[derive(Debug, PartialEq)]
pub enum UserInputStep {
    /// Send this answer: the request cannot be put to the user.
    Refuse(Json),
    /// Put the request to the user.
    Ask(CodexRequestUserInputParams),
}

#[verifier::ext_equal]
pub ghost enum UserInputStepView {
    Refuse(JsonView),
    Ask(UserInputView),
}

impl View for UserInputStep {
    type V = UserInputStepView;

    open spec fn view(&self) -> UserInputStepView {
        match self {
            UserInputStep::Refuse(message) => UserInputStepView::Refuse(message@),
            UserInputStep::Ask(request) => UserInputStepView::Ask(request@),
        }
    }
}

/// What to do with the request `id`, of which `params` is what was read or why it could not be.
pub open spec fn first_step(id: JsonView, params: Result<UserInputView, Seq<char>>) ->
    UserInputStepView {
    match params {
        Ok(request) => match request.fault() {
            Some(error) => UserInputStepView::Refuse(error_message(id, -32602, error.text())),
            None => UserInputStepView::Ask(request),
        },
        Err(error) => UserInputStepView::Refuse(
            error_message(id, -32602, "invalid Codex request_user_input params: "@ + error),
        ),
    }
}

/// What was read of a request, or why it could not be read.
pub open spec fn read_params(params: Result<CodexRequestUserInputParams, String>) -> Result<
    UserInputView,
    Seq<char>,
> {
    match params {
        Ok(request) => Ok(request@),
        Err(error) => Err(error@),
    }
}

/// Decides what to do with the request `id`: answer it with an error where it could not be read
/// or breaks a rule, else ask.
pub fn begin_user_input(
    id: &Json,
    params: Result<CodexRequestUserInputParams, String>,
) -> (step: UserInputStep)
    ensures
        step@ == first_step(id@, read_params(params)),
{
    match params {
        Ok(request) => match validate_codex_user_input(&request) {
            Err(error) => UserInputStep::Refuse(respond_error(id.clone(), -32602, error.message())),
            Ok(_) => UserInputStep::Ask(request),
        },
        Err(error) => {
            let text = concat("invalid Codex request_user_input params: ", error.as_str());
            UserInputStep::Refuse(respond_error(id.clone(), -32602, text.as_str()))
        },
    }
}

/// A question as it goes to the pager: under which method, what is asked, and how long it may wait.
#[derive(Debug, PartialEq)]
pub struct PutQuestion {
    pub method: String,
    pub ask: AskUserQuestionExtRequest,
    pub timeout_ms: Option<u64>,
}

#[verifier::ext_equal]
pub struct PutQuestionView {
    pub method: Seq<char>,
    pub ask: AskView,
    pub timeout_ms: Option<u64>,
}

impl View for PutQuestion {
    type V = PutQuestionView;

    open spec fn view(&self) -> PutQuestionView {
        PutQuestionView {
            method: self.method@,
            ask: self.ask@,
            timeout_ms: self.timeout_ms,
        }
    }
}

/// The question of a request, as it goes to the pager.
pub open spec fn question_of(request: UserInputView) -> PutQuestionView {
    PutQuestionView {
        method: "x.ai/ask_user_question"@,
        ask: asked_of_pager(request),
        timeout_ms: request.auto_resolution_ms,
    }
}

/// The question of a request, as it goes to the pager.
pub fn put_question(request: &CodexRequestUserInputParams) -> (question: PutQuestion)
    ensures
        question@ == question_of(request@),
{
    PutQuestion {
        method: "x.ai/ask_user_question".to_owned(),
        ask: codex_question_ext_request(request),
        timeout_ms: request.auto_resolution_ms,
    }
}

/// How a question ended.
pub enum AskOutcome {
    /// The time for an answer ran out.
    TimedOut,
    /// The pager failed, for this reason.
    Failed(String),
    /// The pager's reply could not be read.
    Unreadable,
    /// The pager replied.
    Replied(AskUserQuestionExtResponse),
}

#[verifier::ext_equal]
pub ghost enum AskOutcomeView {
    TimedOut,
    Failed(Seq<char>),
    Unreadable,
    Replied(AskReplyView),
}

impl View for AskOutcome {
    type V = AskOutcomeView;

    open spec fn view(&self) -> AskOutcomeView {
        match self {
            AskOutcome::TimedOut => AskOutcomeView::TimedOut,
            AskOutcome::Failed(error) => AskOutcomeView::Failed(error@),
            AskOutcome::Unreadable => AskOutcomeView::Unreadable,
            AskOutcome::Replied(response) => AskOutcomeView::Replied(response@),
        }
    }
}

/// The answer to the request `id`, once its question ended: no answers where the time ran out.
pub open spec fn user_input_answer(
    id: JsonView,
    request: UserInputView,
    outcome: AskOutcomeView,
) -> JsonView {
    match outcome {
        AskOutcomeView::TimedOut => result_message(id, answers_json(Map::empty())),
        AskOutcomeView::Failed(error) => error_message(id, -32603, error),
        AskOutcomeView::Unreadable => error_message(
            id,
            -32603,
            "pager returned an invalid ask_user_question response"@,
        ),
        AskOutcomeView::Replied(response) => result_message(
            id,
            answers_json(user_input_answers(request, response)),
        ),
    }
}

/// What the end of a question comes to: first the notice, then the answer.
#[derive(Debug, PartialEq)]
pub struct QuestionEnd {
    pub resolved: ExtNotification,
    pub answer: Json,
}

/// Answers the request `id`, once its question ended.
pub fn finish_user_input(
    id: Json,
    request: &CodexRequestUserInputParams,
    outcome: AskOutcome,
) -> (end: QuestionEnd)
    ensures
        end.resolved@ == resolved_notice(request@),
        end.answer@ == user_input_answer(id@, request@, outcome@),
{
    let resolved = notify_codex_question_resolved(request);
    let answer = match outcome {
        AskOutcome::TimedOut => {
            let none = CodexRequestUserInputResponse { answers: StringMap::new() };
            assert(none@ =~= Map::empty());
            respond(id, none.to_json())
        },
        AskOutcome::Failed(error) => respond_error(id, -32603, error.as_str()),
        AskOutcome::Unreadable => respond_error(
            id,
            -32603,
            "pager returned an invalid ask_user_question response",
        ),
        AskOutcome::Replied(response) => respond(
            id,
            codex_user_input_result(request, response).to_json(),
        ),
    };
    QuestionEnd { resolved, answer }
}

} // verus!
