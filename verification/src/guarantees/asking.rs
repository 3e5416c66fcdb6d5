//! Questions to the user: what is refused, what is put, and what comes back.

use vstd::prelude::*;

use crate::dialog::{Dialog, DialogAction, DialogEvent, DialogStage};
use crate::json::{Json, JsonView};
use crate::questions::{
    annotate, answer_json, asked_of_pager, begin_user_input, codex_question_display_text,
    codex_question_ext_request, codex_user_input_result, filed_notes, finish_user_input,
    notify_codex_question_pending, notify_codex_question_resolved, put_question,
    validate_codex_user_input, Annotation, AskOutcome, AskUserQuestionExtRequest,
    AskUserQuestionExtResponse, AskUserQuestionMode, AskedView, CodexRequestUserInputAnswer,
    CodexRequestUserInputParams, CodexRequestUserInputQuestion, CodexRequestUserInputResponse,
    PutQuestion, QuestionEnd, UserInputError, UserInputStep,
};
use crate::string_map::StringMap;
use crate::text::{blank, optional, views};
use crate::updates::ExtNotification;

use super::values::holds_only;
use super::{lemma_collected_answer, lemma_collected_keys};

verus! {

/// The text that a question is shown with: its own, under its own header and an empty line where
/// the header says anything.
pub open spec fn shown_with(question: CodexRequestUserInputQuestion, text: Seq<char>) -> bool {
    if forall|i: int|
        0 <= i < question.header@.len() ==> crate::text::white_space(
            #[trigger] question.header@[i],
        ) {
        text == question.question@
    } else {
        text == question.header@ + seq!['\n', '\n'] + question.question@
    }
}

/// A question is shown with its own text, under its own header.
pub proof fn questions_are_shown_under_their_header(
    question: &CodexRequestUserInputQuestion,
    text: String,
)
    requires
        call_ensures(codex_question_display_text, (question,), text),
    ensures
        shown_with(*question, text@),
{
    reveal_strlit("\n\n");
    assert("\n\n"@ =~= seq!['\n', '\n']);
}

/// What is asked of the pager is what the request asks: for its session and its item, every
/// question in order and each once, the i-th with its own text under its own header, its own id,
/// and its own options in their order, of which one may be chosen.
pub open spec fn puts(
    request: CodexRequestUserInputParams,
    ask: AskUserQuestionExtRequest,
    i: int,
    j: int,
) -> bool {
    &&& ask.session_id@ == request.thread_id@
    &&& ask.tool_call_id@ == request.item_id@
    &&& ask.mode == AskUserQuestionMode::Default
    &&& ask.questions@.len() == request.questions@.len()
    &&& 0 <= i < request.questions@.len() ==> {
        let asked = request.questions@[i];
        let put = ask.questions@[i];
        &&& shown_with(asked, put.question@)
        &&& optional(put.id) == Some(asked.id@)
        &&& put.multi_select == Some(false)
        &&& match asked.options {
            Some(options) => put.options@.len() == options@.len() && (0 <= j < options@.len()
                ==> put.options@[j].label@ == options@[j].label@ && put.options@[j].description@
                == options@[j].description@ && put.options@[j].preview is None
                && put.options@[j].id is None),
            None => put.options@.len() == 0,
        }
    }
}

proof fn lemma_puts(
    request: CodexRequestUserInputParams,
    ask: AskUserQuestionExtRequest,
    i: int,
    j: int,
)
    requires
        ask@ == asked_of_pager(request@),
    ensures
        puts(request, ask, i, j),
{
    reveal_strlit("\n\n");
    assert("\n\n"@ =~= seq!['\n', '\n']);
    assert(views(ask.questions@).len() == ask.questions@.len());
    assert(request@.questions.len() == request.questions@.len());
    if 0 <= i < request.questions@.len() {
        let asked = request.questions@[i];
        let put = ask.questions@[i];
        assert(views(ask.questions@)[i] == put@);
        assert(request@.questions[i] == asked@);
        assert(put@.options.len() == put.options@.len());
        if asked.options is Some && 0 <= j < asked.options->0@.len() {
            assert(put@.options[j] == put.options@[j]@);
            assert(asked@.options->0[j] == asked.options->0@[j]@);
        }
    }
}

/// The pager is asked every question of the request, in order and each once: with the question's
/// own text under its own header, its own id, and its own options in their order, of which one may
/// be chosen; for the session and the item that the request names.
pub proof fn every_question_is_put(
    request: &CodexRequestUserInputParams,
    ask: AskUserQuestionExtRequest,
    i: int,
    j: int,
)
    requires
        call_ensures(codex_question_ext_request, (request,), ask),
    ensures
        puts(*request, ask, i, j),
{
    lemma_puts(*request, ask, i, j);
}

/// A question goes to the pager's question method, with what the request asks and as long as the
/// request allows.
pub proof fn questions_go_to_the_pager(
    request: &CodexRequestUserInputParams,
    question: PutQuestion,
    i: int,
    j: int,
)
    requires
        call_ensures(put_question, (request,), question),
    ensures
        question.method@ == "x.ai/ask_user_question"@,
        puts(*request, question.ask, i, j),
        question.timeout_ms == request.auto_resolution_ms,
{
    lemma_puts(*request, question.ask, i, j);
}

/// The first of the rules that a request breaks is the one it is refused for: ids that say
/// nothing, no questions, a secret, no room for a free answer, no options.
pub proof fn broken_rules_are_named(
    request: &CodexRequestUserInputParams,
    result: Result<(), UserInputError>,
)
    requires
        call_ensures(validate_codex_user_input, (request,), result),
    ensures
        ({
            let questions = request.questions@;
            let named = !blank(request.thread_id@) && !blank(request.turn_id@) && !blank(
                request.item_id@,
            );
            let open = forall|k: int|
                0 <= k < questions.len() ==> !(#[trigger] questions[k]).is_secret;
            let free = forall|k: int|
                0 <= k < questions.len() ==> (#[trigger] questions[k]).is_other;
            let offering = forall|k: int|
                0 <= k < questions.len() ==> ((#[trigger] questions[k]).options matches Some(
                    options,
                ) && options@.len() > 0);
            &&& !named <==> result == Err::<(), UserInputError>(UserInputError::EmptyRoutingId)
            &&& named && questions.len() == 0 <==> result == Err::<(), UserInputError>(
                UserInputError::NoQuestions,
            )
            &&& named && questions.len() > 0 && !open <==> result == Err::<(), UserInputError>(
                UserInputError::SecretQuestion,
            )
            &&& named && questions.len() > 0 && open && !free <==> result == Err::<
                (),
                UserInputError,
            >(UserInputError::NoFreeForm)
            &&& named && questions.len() > 0 && open && free && !offering <==> result == Err::<
                (),
                UserInputError,
            >(UserInputError::NoOptions)
            &&& named && questions.len() > 0 && open && free && offering <==> result is Ok
        }),
{
    let questions = request.questions@;
    let asked = request@.questions;
    let is_secret = |question: AskedView| question.is_secret;
    let is_closed = |question: AskedView| !question.is_other;
    let offers_none = |question: AskedView| !question.has_options();
    assert(asked.len() == questions.len());
    assert forall|k: int| 0 <= k < questions.len() implies #[trigger] asked[k]
        == questions[k]@ by {}
    if asked.any(is_secret) {
        let k = choose|k: int| 0 <= k < asked.len() && is_secret(#[trigger] asked[k]);
        assert(questions[k].is_secret);
    } else {
        assert forall|k: int| 0 <= k < questions.len() implies !(
        #[trigger] questions[k]).is_secret by {
            assert(!is_secret(asked[k]));
        }
    }
    if asked.any(is_closed) {
        let k = choose|k: int| 0 <= k < asked.len() && is_closed(#[trigger] asked[k]);
        assert(!questions[k].is_other);
    } else {
        assert forall|k: int| 0 <= k < questions.len() implies (
        #[trigger] questions[k]).is_other by {
            assert(!is_closed(asked[k]));
        }
    }
    if asked.any(offers_none) {
        let k = choose|k: int| 0 <= k < asked.len() && offers_none(#[trigger] asked[k]);
        assert(!(questions[k].options matches Some(options) && options@.len() > 0));
    } else {
        assert forall|k: int| 0 <= k < questions.len() implies ((
        #[trigger] questions[k]).options matches Some(options) && options@.len() > 0) by {
            assert(!offers_none(asked[k]));
        }
    }
}

/// Every refusal has its words.
pub proof fn refusals_have_their_words(error: UserInputError, text: &'static str)
    requires
        call_ensures(UserInputError::message, (&error,), text),
    ensures
        match error {
            UserInputError::EmptyRoutingId => text@
                == "Codex request_user_input contained an empty routing id"@,
            UserInputError::NoQuestions => text@
                == "Codex request_user_input contained no questions"@,
            UserInputError::SecretQuestion => text@
                == "secret request_user_input questions are not supported by Codex TUI"@,
            UserInputError::NoFreeForm => text@
                == "request_user_input without the free-form Other option is not supported"@,
            UserInputError::NoOptions => text@
                == "Codex request_user_input requires options for every question"@,
        },
{
}

/// A request that could not be read is answered under its id with the reason; one that breaks a
/// rule with that rule's words; and any other is put to the user as it is.
pub proof fn unreadable_and_unsound_requests_are_refused(
    id: &Json,
    request: CodexRequestUserInputParams,
    reason: String,
    unread: UserInputStep,
    step: UserInputStep,
    result: Result<(), UserInputError>,
    words: &'static str,
)
    requires
        call_ensures(
            begin_user_input,
            (id, Err::<CodexRequestUserInputParams, String>(reason)),
            unread,
        ),
        call_ensures(
            begin_user_input,
            (id, Ok::<CodexRequestUserInputParams, String>(request)),
            step,
        ),
        call_ensures(validate_codex_user_input, (&request,), result),
        result matches Err(broken) ==> call_ensures(UserInputError::message, (&broken,), words),
    ensures
        unread matches UserInputStep::Refuse(answer) && answer@.get("id"@) == Some(id@)
            && answer@.get("result"@) is None && (answer@.get("error"@) matches Some(error)
            && error.get("code"@) == Some(JsonView::Integer(-32602)) && error.get("message"@)
            == Some(JsonView::Text("invalid Codex request_user_input params: "@ + reason@))),
        match result {
            Err(_) => step matches UserInputStep::Refuse(answer) && answer@.get("id"@) == Some(
                id@,
            ) && answer@.get("result"@) is None && (answer@.get("error"@) matches Some(error)
                && error.get("code"@) == Some(JsonView::Integer(-32602)) && error.get("message"@)
                == Some(JsonView::Text(words@))),
            Ok(_) => step matches UserInputStep::Ask(asked) && asked@ == request@,
        },
{
    reveal_strlit("id");
    reveal_strlit("error");
    reveal_strlit("result");
    assert("id"@.len() == 2 && "error"@.len() == 5 && "result"@.len() == 6);
    reveal_strlit("code");
    reveal_strlit("message");
    assert("code"@.len() == 4 && "message"@.len() == 7);
}

/// The user's note, where it says anything, takes the place of the first `Other` and of nothing
/// else; where there is none, it comes after the answers; and otherwise the answers stay as they
/// were chosen.
pub proof fn notes_find_their_place(
    chosen: &Vec<String>,
    note: Option<&str>,
    values: Vec<String>,
    at: int,
    i: int,
)
    requires
        call_ensures(annotate, (chosen, note), values),
    ensures
        note is None || (note matches Some(text) && blank(text@)) ==> values@.len() == chosen@.len()
            && (0 <= i < chosen@.len() ==> values@[i]@ == chosen@[i]@),
        (note matches Some(text) && !blank(text@)) && 0 <= at < chosen@.len() && chosen@[at]@
            == "Other"@ && (forall|k: int| 0 <= k < at ==> (#[trigger] chosen@[k])@ != "Other"@)
            ==> values@.len() == chosen@.len() && values@[at]@ == note->0@ && (0 <= i
            < chosen@.len() && i != at ==> values@[i]@ == chosen@[i]@),
        (note matches Some(text) && !blank(text@)) && (forall|k: int|
            0 <= k < chosen@.len() ==> (#[trigger] chosen@[k])@ != "Other"@) ==> values@.len()
            == chosen@.len() + 1 && values@.last()@ == note->0@ && (0 <= i < chosen@.len()
            ==> values@[i]@ == chosen@[i]@),
{
    let before = views(chosen@);
    let after = views(values@);
    assert(before.len() == chosen@.len() && after.len() == values@.len());
    assert forall|k: int| 0 <= k < chosen@.len() implies #[trigger] before[k] == chosen@[k]@ by {}
    assert forall|k: int| 0 <= k < values@.len() implies #[trigger] after[k] == values@[k]@ by {}
    before.index_of_first_ensures("Other"@);
    if note is Some && !blank(note->0@) {
        match before.index_of_first("Other"@) {
            Some(found) => {
                assert(before[found] == "Other"@);
                assert(chosen@[found]@ == "Other"@);
                if 0 <= at < chosen@.len() && chosen@[at]@ == "Other"@ && (forall|k: int|
                    0 <= k < at ==> (#[trigger] chosen@[k])@ != "Other"@) {
                    if at < found {
                        assert(before[at] == "Other"@);
                    }
                    assert(at == found);
                    assert(after == before.update(at, note->0@));
                    assert(after[at] == values@[at]@);
                }
            },
            None => {
                if 0 <= at < chosen@.len() && chosen@[at]@ == "Other"@ {
                    assert(before[at] == "Other"@);
                    assert(before.contains("Other"@));
                }
                assert(after == before.push(note->0@));
                assert(after[chosen@.len() as int] == values@[chosen@.len() as int]@);
            },
        }
    }
    if 0 <= i < chosen@.len() {
        assert(before[i] == chosen@[i]@);
        assert(after[i] == values@[i]@);
    }
}

/// The answers that the user gave to a question stand under this key: the question's id; where
/// there are none, its text; and where there are none either, the text it was shown with.
pub open spec fn filed_under(
    question: CodexRequestUserInputQuestion,
    answers: Map<Seq<char>, Vec<String>>,
    key: Seq<char>,
) -> bool {
    &&& answers.contains_key(key)
    &&& {
        ||| key == question.id@
        ||| !answers.contains_key(question.id@) && key == question.question@
        ||| !answers.contains_key(question.id@) && !answers.contains_key(question.question@)
            && shown_with(question, key)
    }
}

/// The app-server gets, under the id of each question, what the user answered to that question,
/// with the user's note to it; where two questions share an id, what was answered to the later.
pub proof fn answers_go_under_their_question(
    request: &CodexRequestUserInputParams,
    answers: StringMap<Vec<String>>,
    annotations: Option<StringMap<Annotation>>,
    result: CodexRequestUserInputResponse,
    i: int,
    key: Seq<char>,
    values: Vec<String>,
    note: Option<&str>,
)
    requires
        call_ensures(
            codex_user_input_result,
            (request, AskUserQuestionExtResponse::Accepted { answers, annotations }),
            result,
        ),
        0 <= i < request.questions@.len(),
        forall|j: int|
            i < j < request.questions@.len() ==> (#[trigger] request.questions@[j]).id@
                != request.questions@[i].id@,
        filed_under(request.questions@[i], answers@, key),
        note is Some <==> (annotations matches Some(all) && all@.contains_key(key)
            && all@[key].notes is Some),
        note matches Some(text) ==> annotations->0@[key].notes->0@ == text@,
        call_ensures(annotate, (&answers@[key], note), values),
    ensures
        result.answers@.contains_key(request.questions@[i].id@),
        result.answers@[request.questions@[i].id@].answers@.len() == values@.len(),
        forall|k: int|
            0 <= k < values@.len() ==> (
            #[trigger] result.answers@[request.questions@[i].id@].answers@[k])@ == values@[k]@,
{
    reveal_strlit("\n\n");
    assert("\n\n"@ =~= seq!['\n', '\n']);
    let question = request.questions@[i];
    let chosen = answers@.map_values(|chosen: Vec<String>| views(chosen@));
    let notes = filed_notes(annotations);
    let asked = request@.questions;
    assert(asked[i] == question@);
    assert forall|j: int| i < j < asked.len() implies (#[trigger] asked[j]).id != asked[i].id by {
        assert(asked[j] == request.questions@[j]@);
        assert(request.questions@[j].id@ != question.id@);
    }
    assert(crate::questions::answer_key(question@, chosen) == Some(key));
    lemma_collected_answer(asked, chosen, notes, i);
    lemma_collected_keys(asked, chosen, notes, question.id@);
    assert(result@.contains_key(question.id@));
    let got = result.answers@[question.id@].answers@;
    assert(result@[question.id@] == views(got));
    assert(notes.contains_key(key) <==> note is Some);
    assert(views(got) == views(values@));
    assert(views(got).len() == got.len());
    assert forall|k: int| 0 <= k < values@.len() implies (#[trigger] got[k])@ == values@[k]@ by {
        assert(views(got)[k] == got[k]@);
        assert(views(values@)[k] == values@[k]@);
    }
}

/// Nothing comes back under an id that no question has, nor for questions without an answer, nor
/// where the user declined.
pub proof fn only_given_answers_come_back(
    request: &CodexRequestUserInputParams,
    answers: StringMap<Vec<String>>,
    annotations: Option<StringMap<Annotation>>,
    result: CodexRequestUserInputResponse,
    declined: CodexRequestUserInputResponse,
    id: Seq<char>,
)
    requires
        call_ensures(
            codex_user_input_result,
            (request, AskUserQuestionExtResponse::Accepted { answers, annotations }),
            result,
        ),
        call_ensures(
            codex_user_input_result,
            (request, AskUserQuestionExtResponse::Declined),
            declined,
        ),
    ensures
        result.answers@.contains_key(id) ==> exists|i: int, key: Seq<char>|
            0 <= i < request.questions@.len() && request.questions@[i].id@ == id
                && #[trigger] filed_under(request.questions@[i], answers@, key),
        !declined.answers@.contains_key(id),
{
    reveal_strlit("\n\n");
    assert("\n\n"@ =~= seq!['\n', '\n']);
    let chosen = answers@.map_values(|chosen: Vec<String>| views(chosen@));
    let notes = filed_notes(annotations);
    let asked = request@.questions;
    lemma_collected_keys(asked, chosen, notes, id);
    assert(result@.contains_key(id) <==> result.answers@.contains_key(id));
    assert(declined@.contains_key(id) <==> declined.answers@.contains_key(id));
    if result.answers@.contains_key(id) {
        let i = choose|i: int|
            0 <= i < asked.len() && (#[trigger] asked[i]).id == id
                && crate::questions::answer_key(asked[i], chosen) is Some;
        assert(asked[i] == request.questions@[i]@);
        let key = crate::questions::answer_key(asked[i], chosen)->0;
        assert(filed_under(request.questions@[i], answers@, key));
    }
}

/// The JSON form of answers holds, under `answers`, each question's answers by its id, and these
/// again under `answers`, in their order.
pub proof fn answers_have_their_form(
    response: &CodexRequestUserInputResponse,
    form: Json,
    id: Seq<char>,
    k: int,
)
    requires
        call_ensures(CodexRequestUserInputResponse::to_json, (response,), form),
    ensures
        holds_only(form@, set!["answers"@]),
        form@.get("answers"@) matches Some(all) && all is Object && {
            &&& all.get(id) is Some <==> response.answers@.contains_key(id)
            &&& response.answers@.contains_key(id) ==> {
                let given = response.answers@[id].answers@;
                let listed = all.get(id)->0.items_at("answers"@);
                &&& holds_only(all.get(id)->0, set!["answers"@])
                &&& listed.len() == given.len()
                &&& 0 <= k < given.len() ==> listed[k] == JsonView::Text(given[k]@)
            }
        },
{
    if response.answers@.contains_key(id) {
        let given = response.answers@[id].answers@;
        assert(response@[id] == views(given));
        assert(views(given).len() == given.len());
        if 0 <= k < given.len() {
            assert(views(given)[k] == given[k]@);
        }
    }
}

/// The answers to one question have the same form by themselves.
pub proof fn single_answers_have_their_form(
    answer: &CodexRequestUserInputAnswer,
    form: Json,
    k: int,
)
    requires
        call_ensures(CodexRequestUserInputAnswer::to_json, (answer,), form),
    ensures
        holds_only(form@, set!["answers"@]),
        form@.items_at("answers"@).len() == answer.answers@.len(),
        0 <= k < answer.answers@.len() ==> form@.items_at("answers"@)[k] == JsonView::Text(
            answer.answers@[k]@,
        ),
{
    assert(views(answer.answers@).len() == answer.answers@.len());
    if 0 <= k < answer.answers@.len() {
        assert(views(answer.answers@)[k] == answer.answers@[k]@);
    }
}

/// The notices name the session and the item of the request, and say of it that a question waits,
/// or that it waits no longer.
pub proof fn notices_name_the_interaction(
    request: &CodexRequestUserInputParams,
    pending: ExtNotification,
    resolved: ExtNotification,
)
    requires
        call_ensures(notify_codex_question_pending, (request,), pending),
        call_ensures(notify_codex_question_resolved, (request,), resolved),
    ensures
        pending.method@ == "x.ai/session_notification"@,
        resolved.method@ == "x.ai/session_notification"@,
        pending.params@.get("sessionId"@) == Some(JsonView::Text(request.thread_id@)),
        resolved.params@.get("sessionId"@) == Some(JsonView::Text(request.thread_id@)),
        pending.params@.text_within("update"@, "tool_call_id"@) == Some(request.item_id@),
        resolved.params@.text_within("update"@, "tool_call_id"@) == Some(request.item_id@),
        pending.params@.text_within("update"@, "sessionUpdate"@) == Some("pending_interaction"@),
        resolved.params@.text_within("update"@, "sessionUpdate"@) == Some("interaction_resolved"@),
        pending.params@.text_within("update"@, "kind"@) == Some("question"@),
        holds_only(pending.params@, set!["sessionId"@, "update"@]),
        holds_only(resolved.params@, set!["sessionId"@, "update"@]),
        holds_only(
            pending.params@.get_or_null("update"@),
            set!["sessionUpdate"@, "tool_call_id"@, "kind"@],
        ),
        holds_only(
            resolved.params@.get_or_null("update"@),
            set!["sessionUpdate"@, "tool_call_id"@],
        ),
{
    reveal_strlit("sessionId");
    reveal_strlit("update");
    reveal_strlit("sessionUpdate");
    reveal_strlit("tool_call_id");
    reveal_strlit("kind");
    assert("sessionId"@.len() == 9 && "update"@.len() == 6 && "sessionUpdate"@.len() == 13);
    assert("tool_call_id"@.len() == 12 && "kind"@.len() == 4);
}

/// The end of a question is answered under the request's id: with no answers where the time ran
/// out, with the pager's failure where it failed, and with the answers it gave, in their JSON form,
/// where it replied. The notice that it waits no longer is the request's.
pub proof fn ends_are_answered(
    id: Json,
    request: &CodexRequestUserInputParams,
    reason: String,
    reply: AskUserQuestionExtResponse,
    timed_out: QuestionEnd,
    failed: QuestionEnd,
    unreadable: QuestionEnd,
    replied: QuestionEnd,
    given: CodexRequestUserInputResponse,
    form: Json,
    resolved: ExtNotification,
)
    requires
        call_ensures(finish_user_input, (id, request, AskOutcome::TimedOut), timed_out),
        call_ensures(finish_user_input, (id, request, AskOutcome::Failed(reason)), failed),
        call_ensures(finish_user_input, (id, request, AskOutcome::Unreadable), unreadable),
        call_ensures(finish_user_input, (id, request, AskOutcome::Replied(reply)), replied),
        call_ensures(codex_user_input_result, (request, reply), given),
        call_ensures(CodexRequestUserInputResponse::to_json, (&given,), form),
        call_ensures(notify_codex_question_resolved, (request,), resolved),
    ensures
        timed_out.answer@.get("id"@) == Some(id@),
        timed_out.answer@.get("error"@) is None,
        timed_out.answer@.get("result"@) matches Some(result) && result.get("answers"@) == Some(
            JsonView::Object(Map::<Seq<char>, JsonView>::empty()),
        ) && holds_only(result, set!["answers"@]),
        failed.answer@.get("id"@) == Some(id@),
        failed.answer@.get("result"@) is None,
        failed.answer@.get("error"@) matches Some(error) && error.get("code"@) == Some(
            JsonView::Integer(-32603),
        ) && error.get("message"@) == Some(JsonView::Text(reason@)),
        unreadable.answer@.get("id"@) == Some(id@),
        unreadable.answer@.get("result"@) is None,
        unreadable.answer@.get("error"@) matches Some(error) && error.get("code"@) == Some(
            JsonView::Integer(-32603),
        ) && error.get("message"@) == Some(
            JsonView::Text("pager returned an invalid ask_user_question response"@),
        ),
        replied.answer@.get("id"@) == Some(id@),
        replied.answer@.get("error"@) is None,
        replied.answer@.get("result"@) == Some(form@),
        timed_out.resolved@ == resolved@,
        failed.resolved@ == resolved@,
        unreadable.resolved@ == resolved@,
        replied.resolved@ == resolved@,
{
    reveal_strlit("id");
    reveal_strlit("error");
    reveal_strlit("result");
    assert("id"@.len() == 2 && "error"@.len() == 5 && "result"@.len() == 6);
    reveal_strlit("code");
    reveal_strlit("message");
    assert("code"@.len() == 4 && "message"@.len() == 7);
    let none = Map::<Seq<char>, Seq<Seq<char>>>::empty();
    assert(none.map_values(|values: Seq<Seq<char>>| answer_json(values)) =~= Map::<
        Seq<char>,
        JsonView,
    >::empty());
}

/// What a dialog hands out at each point is the request's own: the notice that it waits, the
/// question, the notice that it waits no longer, and the answer to how it ended.
pub proof fn dialogs_hand_out_their_own(
    dialog: &mut Dialog,
    event: DialogEvent,
    action: DialogAction,
    pending: ExtNotification,
    resolved: ExtNotification,
    i: int,
    j: int,
)
    requires
        call_ensures(Dialog::advance, (dialog, event), action),
        call_ensures(notify_codex_question_pending, (&old(dialog).request,), pending),
        call_ensures(notify_codex_question_resolved, (&old(dialog).request,), resolved),
    ensures
        final(dialog)@.id == old(dialog)@.id,
        final(dialog)@.request == old(dialog)@.request,
        action matches DialogAction::Announce(notice) ==> notice@ == pending@
            && old(dialog).stage is Fresh && event is Begin,
        action matches DialogAction::Ask(asked) ==> asked.method@ == "x.ai/ask_user_question"@
            && puts(old(dialog).request, asked.ask, i, j) && asked.timeout_ms
            == old(dialog).request.auto_resolution_ms && old(dialog).stage is Announced
            && event is Sent,
        action matches DialogAction::Resolve(notice) ==> notice@ == resolved@,
        old(dialog).stage is Announced && event is Sent ==> action is Ask
            && final(dialog)@.stage is Asked,
        (old(dialog).stage is Announced || old(dialog).stage is Asked) && event is Dropped
            ==> action is Resolve && final(dialog)@.stage is Closed,
        old(dialog).stage is Asked && event is Ended ==> action is Resolve
            && final(dialog)@.stage is Resolved,
        (old(dialog).stage matches DialogStage::Resolved(answer) && event is Sent && (
        action matches DialogAction::Answer(given) && given@ == answer@)) || !(
        old(dialog).stage is Resolved && event is Sent),
        old(dialog).stage is Resolved && event is Sent ==> final(dialog)@.stage is Closed,
        old(dialog).stage is Closed ==> action is Rest && final(dialog)@.stage is Closed,
        event is Dropped ==> final(dialog)@.stage is Closed,
{
    if action is Ask {
        lemma_puts(old(dialog).request, action->Ask_0.ask, i, j);
    }
}

/// An event that the dialog does not wait for calls for nothing and changes nothing, but that one
/// which is dropped is over.
pub proof fn dialogs_wait_for_their_event(
    dialog: &mut Dialog,
    event: DialogEvent,
    action: DialogAction,
)
    requires
        call_ensures(Dialog::advance, (dialog, event), action),
        match old(dialog).stage {
            DialogStage::Fresh => !(event is Begin),
            DialogStage::Announced => !(event is Sent) && !(event is Dropped),
            DialogStage::Asked => !(event is Ended) && !(event is Dropped),
            DialogStage::Resolved(_) => !(event is Sent),
            DialogStage::Closed => true,
        },
    ensures
        action is Rest,
        event is Dropped ==> final(dialog)@.stage is Closed,
        !(event is Dropped) ==> final(dialog)@ == old(dialog)@,
{
}

/// A dialog begins with the request as it is, and with nothing said of it.
pub proof fn dialogs_begin_fresh(id: Json, request: CodexRequestUserInputParams, dialog: Dialog)
    requires
        call_ensures(Dialog::new, (id, request), dialog),
    ensures
        dialog.id@ == id@,
        dialog.request@ == request@,
        dialog.stage is Fresh,
{
}

/// The answer that a dialog keeps for a question that ended is the one for how it ended.
pub proof fn dialogs_keep_the_answer(
    dialog: &mut Dialog,
    outcome: AskOutcome,
    action: DialogAction,
    end: QuestionEnd,
)
    requires
        old(dialog).stage is Asked,
        call_ensures(Dialog::advance, (dialog, DialogEvent::Ended(outcome)), action),
        call_ensures(finish_user_input, (old(dialog).id, &old(dialog).request, outcome), end),
    ensures
        final(dialog)@.stage == crate::dialog::DialogStageView::Resolved(end.answer@),
{
}

/// A dialog begins with the notice where the request is sound; else it answers at once with the
/// rule that is broken, and is over.
pub proof fn dialogs_begin_with_a_check(
    dialog: &mut Dialog,
    action: DialogAction,
    result: Result<(), UserInputError>,
    words: &'static str,
)
    requires
        old(dialog).stage is Fresh,
        call_ensures(Dialog::advance, (dialog, DialogEvent::Begin), action),
        call_ensures(validate_codex_user_input, (&old(dialog).request,), result),
        result matches Err(broken) ==> call_ensures(UserInputError::message, (&broken,), words),
    ensures
        match result {
            Ok(_) => action is Announce && final(dialog)@.stage is Announced,
            Err(_) => final(dialog)@.stage is Closed && (
            action matches DialogAction::Answer(answer) && answer@.get("id"@) == Some(
                old(dialog).id@,
            ) && answer@.get("result"@) is None && (answer@.get("error"@) matches Some(error)
                && error.get("code"@) == Some(
                JsonView::Integer(-32603),
            ) && error.get("message"@) == Some(JsonView::Text(words@)))),
        },
{
    reveal_strlit("id");
    reveal_strlit("error");
    reveal_strlit("result");
    assert("id"@.len() == 2 && "error"@.len() == 5 && "result"@.len() == 6);
    reveal_strlit("code");
    reveal_strlit("message");
    assert("code"@.len() == 4 && "message"@.len() == 7);
}

/// Two requests that count as the same ask the same, question by question and option by option.
pub proof fn same_requests_ask_the_same(
    one: CodexRequestUserInputParams,
    other: CodexRequestUserInputParams,
    i: int,
    j: int,
)
    requires
        one@ == other@,
    ensures
        one.thread_id@ == other.thread_id@,
        one.turn_id@ == other.turn_id@,
        one.item_id@ == other.item_id@,
        one.auto_resolution_ms == other.auto_resolution_ms,
        one.questions@.len() == other.questions@.len(),
        0 <= i < one.questions@.len() ==> ({
            let first = one.questions@[i];
            let second = other.questions@[i];
            &&& first.id@ == second.id@
            &&& first.header@ == second.header@
            &&& first.question@ == second.question@
            &&& first.is_other == second.is_other
            &&& first.is_secret == second.is_secret
            &&& match (first.options, second.options) {
                (Some(first), Some(second)) => first@.len() == second@.len() && (0 <= j
                    < first@.len() ==> first@[j].label@ == second@[j].label@
                    && first@[j].description@ == second@[j].description@),
                (None, None) => true,
                _ => false,
            }
        }),
{
    assert(views(one.questions@).len() == one.questions@.len());
    assert(views(other.questions@).len() == other.questions@.len());
    if 0 <= i < one.questions@.len() {
        let first = one.questions@[i];
        let second = other.questions@[i];
        assert(views(one.questions@)[i] == first@);
        assert(views(other.questions@)[i] == second@);
        if first.options is Some && second.options is Some {
            let (offered, again) = (first.options->0@, second.options->0@);
            assert(views(offered) == views(again));
            assert(views(offered).len() == offered.len() && views(again).len() == again.len());
            if 0 <= j < offered.len() {
                assert(views(offered)[j] == offered[j]@);
                assert(views(again)[j] == again[j]@);
            }
        }
    }
}

} // verus!
