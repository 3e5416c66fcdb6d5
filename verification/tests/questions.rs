use codex_pager::agent::CodexAgent;
use codex_pager::dialog::{Dialog, DialogAction, DialogEvent};
use codex_pager::events::EventAction;
use codex_pager::json::Json;
use codex_pager::questions::{
    annotate, begin_user_input, codex_question_display_text, codex_question_ext_request,
    codex_user_input_result, finish_user_input, notify_codex_question_pending,
    notify_codex_question_resolved, put_question, validate_codex_user_input, Annotation, AskOutcome, AskUserQuestionExtResponse, AskUserQuestionMode, CodexRequestUserInputOption,
    CodexRequestUserInputParams, CodexRequestUserInputQuestion, UserInputError, UserInputStep,
};
use codex_pager::string_map::StringMap;
use codex_pager::updates::ExtNotification;

fn json(text: &str) -> Json {
    Json::parse(text).expect("JSON text")
}

fn value(text: &str) -> serde_json::Value {
    serde_json::from_str(text).expect("JSON text")
}

fn option(label: &str, description: &str) -> CodexRequestUserInputOption {
    CodexRequestUserInputOption {
        label: label.to_owned(),
        description: description.to_owned(),
    }
}

fn question(
    id: &str,
    header: &str,
    text: &str,
    options: Vec<CodexRequestUserInputOption>,
) -> CodexRequestUserInputQuestion {
    CodexRequestUserInputQuestion {
        id: id.to_owned(),
        header: header.to_owned(),
        question: text.to_owned(),
        options: Some(options),
        is_other: true,
        is_secret: false,
    }
}

fn request(
    thread: &str,
    item: &str,
    questions: Vec<CodexRequestUserInputQuestion>,
) -> CodexRequestUserInputParams {
    CodexRequestUserInputParams {
        thread_id: thread.to_owned(),
        turn_id: "turn-1".to_owned(),
        item_id: item.to_owned(),
        questions,
        auto_resolution_ms: None,
    }
}

fn approach() -> CodexRequestUserInputParams {
    request(
        "thread-1",
        "item-1",
        vec![question(
            "approach",
            "Approach",
            "How should we proceed?",
            vec![option("Small", "Small change")],
        )],
    )
}

fn accepted(answers: Vec<(&str, Vec<&str>)>, notes: Vec<(&str, &str)>) -> AskUserQuestionExtResponse {
    let mut chosen = StringMap::new();
    for (key, values) in answers {
        chosen.insert(
            key.to_owned(),
            values.into_iter().map(|value| value.to_owned()).collect(),
        );
    }
    let mut annotations = StringMap::new();
    for (key, note) in &notes {
        annotations.insert(
            (*key).to_owned(),
            Annotation {
                notes: Some((*note).to_owned()),
            },
        );
    }
    AskUserQuestionExtResponse::Accepted {
        answers: chosen,
        annotations: if notes.is_empty() { None } else { Some(annotations) },
    }
}

fn announced(dialog: &mut Dialog) -> ExtNotification {
    match dialog.advance(DialogEvent::Begin) {
        DialogAction::Announce(notice) => notice,
        action => panic!("question must be marked pending first, not {action:?}"),
    }
}

fn resolved(dialog: &mut Dialog, event: DialogEvent) -> ExtNotification {
    match dialog.advance(event) {
        DialogAction::Resolve(notice) => notice,
        action => panic!("question must be resolved, not {action:?}"),
    }
}

fn answered(dialog: &mut Dialog) -> Json {
    match dialog.advance(DialogEvent::Sent) {
        DialogAction::Answer(answer) => answer,
        action => panic!("the app-server must be answered, not {action:?}"),
    }
}

#[test]
fn codex_request_user_input_maps_other_text_to_the_question_id() {
    let response = accepted(
        vec![("approach", vec!["Other"])],
        vec![("approach", "Use a feature flag")],
    );
    assert_eq!(
        codex_user_input_result(&approach(), response).to_json().into_value(),
        value("{\"answers\": {\"approach\": {\"answers\": [\"Use a feature flag\"]}}}")
    );
}

#[test]
fn cancelling_codex_request_user_input_returns_empty_answers() {
    assert_eq!(
        codex_user_input_result(&approach(), AskUserQuestionExtResponse::Declined)
            .to_json()
            .into_value(),
        value("{\"answers\": {}}")
    );
}

#[test]
fn codex_request_user_input_round_trips_through_the_pager() {
    let message = json(
        "{
            \"id\": 41,
            \"method\": \"item/tool/requestUserInput\",
            \"params\": {\"threadId\": \"thread-1\", \"turnId\": \"turn-1\", \"itemId\": \"item-1\"}
        }",
    );
    let mut agent: CodexAgent<(), ()> = CodexAgent::new(false);
    let id = match agent.handle_event(&message) {
        EventAction::AskUser { id, params } => {
            assert_eq!(params.get_str("itemId"), Some("item-1"));
            id
        }
        _ => panic!("the user is to be asked"),
    };
    let read = request(
        "thread-1",
        "item-1",
        vec![question(
            "speed",
            "Strategy",
            "Which approach?",
            vec![
                option("Fast", "Ship the smallest fix"),
                option("Thorough", "Cover every edge case"),
            ],
        )],
    );
    let asked = match begin_user_input(&id, Ok(read)) {
        UserInputStep::Ask(asked) => asked,
        UserInputStep::Refuse(_) => panic!("the request is sound"),
    };
    let mut dialog = Dialog::new(id, asked);
    let pending = announced(&mut dialog);
    assert_eq!(pending.method, "x.ai/session_notification");
    assert_eq!(
        pending.params.into_value(),
        value(
            "{
                \"sessionId\": \"thread-1\",
                \"update\": {
                    \"sessionUpdate\": \"pending_interaction\",
                    \"tool_call_id\": \"item-1\",
                    \"kind\": \"question\"
                }
            }"
        )
    );
    let put = match dialog.advance(DialogEvent::Sent) {
        DialogAction::Ask(put) => put,
        action => panic!("pager should receive a question request, not {action:?}"),
    };
    assert_eq!(put.timeout_ms, None);
    assert_eq!(put.method, "x.ai/ask_user_question");
    assert_eq!(put.ask.session_id, "thread-1");
    assert_eq!(put.ask.tool_call_id, "item-1");
    assert_eq!(put.ask.questions[0].question, "Strategy\n\nWhich approach?");
    assert_eq!(put.ask.questions[0].id.as_deref(), Some("speed"));

    let reply = accepted(vec![("speed", vec!["Fast"])], vec![]);
    let notice = resolved(&mut dialog, DialogEvent::Ended(AskOutcome::Replied(reply)));
    assert_eq!(notice.method, "x.ai/session_notification");
    assert_eq!(
        notice.params.into_value(),
        value(
            "{
                \"sessionId\": \"thread-1\",
                \"update\": {
                    \"sessionUpdate\": \"interaction_resolved\",
                    \"tool_call_id\": \"item-1\"
                }
            }"
        )
    );
    let answer = answered(&mut dialog);
    assert_eq!(answer.get_u64("id"), Some(41));
    assert_eq!(
        answer.get("result").unwrap().clone().into_value(),
        value("{\"answers\": {\"speed\": {\"answers\": [\"Fast\"]}}}")
    );
    assert_eq!(dialog.advance(DialogEvent::Sent), DialogAction::Rest);
}

#[test]
fn codex_questions_for_two_sessions_are_dispatched_concurrently() {
    let mut agent: CodexAgent<(), ()> = CodexAgent::new(false);
    let mut open = Vec::new();
    for (id, thread, item) in [
        (51, "thread-foreground", "item-foreground"),
        (52, "thread-background", "item-background"),
    ] {
        let message = json(&format!(
            "{{\"id\": {id}, \"method\": \"item/tool/requestUserInput\", \"params\": {{\"threadId\": \"{thread}\"}}}}"
        ));
        let id = match agent.handle_event(&message) {
            EventAction::AskUser { id, .. } => id,
            _ => panic!("the user is to be asked"),
        };
        let asked = request(
            thread,
            item,
            vec![question("choice", "Choice", "Pick one", vec![option("One", "Choose one")])],
        );
        let mut dialog = Dialog::new(id, asked);
        let pending = announced(&mut dialog);
        assert_eq!(
            pending.params.get_str_within("update", "sessionUpdate"),
            Some("pending_interaction")
        );
        assert_eq!(pending.params.get_str("sessionId"), Some(thread));
        assert!(matches!(dialog.advance(DialogEvent::Sent), DialogAction::Ask(_)));
        open.push(dialog);
    }
    let mut ids = Vec::new();
    let mut resolved_sessions = Vec::new();
    for mut dialog in open {
        let notice = resolved(
            &mut dialog,
            DialogEvent::Ended(AskOutcome::Replied(AskUserQuestionExtResponse::Declined)),
        );
        assert_eq!(
            notice.params.get_str_within("update", "sessionUpdate"),
            Some("interaction_resolved")
        );
        resolved_sessions.push(notice.params.get_str("sessionId").unwrap().to_owned());
        ids.push(answered(&mut dialog).get_u64("id").unwrap());
    }
    resolved_sessions.sort();
    assert_eq!(resolved_sessions, vec!["thread-background", "thread-foreground"]);
    ids.sort_unstable();
    assert_eq!(ids, vec![51, 52]);
}

#[test]
fn codex_request_user_input_auto_resolves_and_retracts_the_modal() {
    let mut asked = approach();
    asked.auto_resolution_ms = Some(1);
    let mut dialog = Dialog::new(Json::Unsigned(44), asked);
    assert_eq!(
        announced(&mut dialog).params.get_str_within("update", "sessionUpdate"),
        Some("pending_interaction")
    );
    match dialog.advance(DialogEvent::Sent) {
        DialogAction::Ask(put) => assert_eq!(put.timeout_ms, Some(1)),
        action => panic!("the question is put, not {action:?}"),
    }
    let notice = resolved(&mut dialog, DialogEvent::Ended(AskOutcome::TimedOut));
    assert_eq!(notice.method, "x.ai/session_notification");
    assert_eq!(notice.params.get_str("sessionId"), Some("thread-1"));
    assert_eq!(
        notice.params.get("update").unwrap().clone().into_value(),
        value("{\"sessionUpdate\": \"interaction_resolved\", \"tool_call_id\": \"item-1\"}")
    );
    let answer = answered(&mut dialog);
    assert_eq!(answer.get_u64("id"), Some(44));
    assert_eq!(
        answer.get("result").unwrap().clone().into_value(),
        value("{\"answers\": {}}")
    );
    assert_eq!(dialog.advance(DialogEvent::Sent), DialogAction::Rest);
}

#[test]
fn dropped_questions_are_resolved_and_not_answered() {
    let mut dialog = Dialog::new(Json::Unsigned(1), approach());
    announced(&mut dialog);
    assert_eq!(
        resolved(&mut dialog, DialogEvent::Dropped),
        notify_codex_question_resolved(&approach())
    );
    assert_eq!(dialog.advance(DialogEvent::Sent), DialogAction::Rest);
    assert_eq!(dialog.advance(DialogEvent::Dropped), DialogAction::Rest);

    let mut dialog = Dialog::new(Json::Unsigned(2), approach());
    announced(&mut dialog);
    assert_eq!(
        dialog.advance(DialogEvent::Sent),
        DialogAction::Ask(put_question(&approach()))
    );
    assert_eq!(
        resolved(&mut dialog, DialogEvent::Dropped),
        notify_codex_question_resolved(&approach())
    );
    assert_eq!(
        dialog.advance(DialogEvent::Ended(AskOutcome::TimedOut)),
        DialogAction::Rest
    );

    let mut dialog = Dialog::new(Json::Unsigned(3), approach());
    assert_eq!(dialog.advance(DialogEvent::Dropped), DialogAction::Rest);
    assert_eq!(dialog.advance(DialogEvent::Begin), DialogAction::Rest);
}

#[test]
fn questions_go_on_only_as_they_are_carried_out() {
    let mut dialog = Dialog::new(Json::Unsigned(4), approach());
    assert_eq!(dialog.advance(DialogEvent::Sent), DialogAction::Rest);
    assert_eq!(
        dialog.advance(DialogEvent::Ended(AskOutcome::TimedOut)),
        DialogAction::Rest
    );
    announced(&mut dialog);
    assert_eq!(dialog.advance(DialogEvent::Begin), DialogAction::Rest);
    assert_eq!(
        dialog.advance(DialogEvent::Ended(AskOutcome::TimedOut)),
        DialogAction::Rest
    );
    assert!(matches!(dialog.advance(DialogEvent::Sent), DialogAction::Ask(_)));
    assert_eq!(dialog.advance(DialogEvent::Sent), DialogAction::Rest);
}

#[test]
fn unsound_requests_are_answered_without_being_put() {
    let mut request = approach();
    request.questions.clear();
    let mut dialog = Dialog::new(Json::Unsigned(5), request);
    match dialog.advance(DialogEvent::Begin) {
        DialogAction::Answer(answer) => assert_eq!(
            answer.into_value(),
            value(
                "{\"id\": 5, \"error\": {\"code\": -32603, \"message\": \"Codex request_user_input contained no questions\"}}"
            )
        ),
        action => panic!("the request is refused, not {action:?}"),
    }
    assert_eq!(dialog.advance(DialogEvent::Dropped), DialogAction::Rest);
}

#[test]
fn malformed_codex_request_user_input_receives_an_error_response() {
    let step = begin_user_input(&Json::Unsigned(42), Err("missing field `turnId`".to_owned()));
    let response = match step {
        UserInputStep::Refuse(response) => response,
        UserInputStep::Ask(_) => panic!("the request cannot be read"),
    };
    assert_eq!(response.get_u64("id"), Some(42));
    let error = response.get("error").unwrap();
    assert_eq!(error.get_i64("code"), Some(-32602));
    assert_eq!(
        error.get_str("message"),
        Some("invalid Codex request_user_input params: missing field `turnId`")
    );
}

#[test]
fn secret_codex_request_user_input_fails_closed() {
    let mut asked = request(
        "thread-1",
        "item-1",
        vec![question("token", "Token", "Enter a token", vec![option("Enter", "Provide the token")])],
    );
    asked.questions[0].is_secret = true;
    assert_eq!(validate_codex_user_input(&asked), Err(UserInputError::SecretQuestion));
    let response = match begin_user_input(&Json::Unsigned(43), Ok(asked)) {
        UserInputStep::Refuse(response) => response,
        UserInputStep::Ask(_) => panic!("secrets are not asked for"),
    };
    assert_eq!(response.get_u64("id"), Some(43));
    let error = response.get("error").unwrap();
    assert_eq!(error.get_i64("code"), Some(-32602));
    assert!(error.get_str("message").unwrap().contains("secret"));
}

#[test]
fn each_rule_has_its_refusal() {
    assert_eq!(validate_codex_user_input(&approach()), Ok(()));

    for blanked in 0..3 {
        let mut asked = approach();
        let id = match blanked {
            0 => &mut asked.thread_id,
            1 => &mut asked.turn_id,
            _ => &mut asked.item_id,
        };
        *id = " \t".to_owned();
        asked.questions.clear();
        assert_eq!(validate_codex_user_input(&asked), Err(UserInputError::EmptyRoutingId));
    }
    let mut asked = approach();
    asked.questions.clear();
    assert_eq!(validate_codex_user_input(&asked), Err(UserInputError::NoQuestions));

    let mut asked = approach();
    asked.questions[0].is_other = false;
    asked.questions[0].options = None;
    assert_eq!(validate_codex_user_input(&asked), Err(UserInputError::NoFreeForm));
    asked.questions[0].is_secret = true;
    assert_eq!(validate_codex_user_input(&asked), Err(UserInputError::SecretQuestion));

    let mut asked = approach();
    asked.questions[0].options = None;
    assert_eq!(validate_codex_user_input(&asked), Err(UserInputError::NoOptions));
    asked.questions[0].options = Some(vec![]);
    assert_eq!(validate_codex_user_input(&asked), Err(UserInputError::NoOptions));

    assert_eq!(
        UserInputError::EmptyRoutingId.message(),
        "Codex request_user_input contained an empty routing id"
    );
    assert_eq!(
        UserInputError::NoQuestions.message(),
        "Codex request_user_input contained no questions"
    );
    assert_eq!(
        UserInputError::NoFreeForm.message(),
        "request_user_input without the free-form Other option is not supported"
    );
    assert_eq!(
        UserInputError::NoOptions.message(),
        "Codex request_user_input requires options for every question"
    );
}

#[test]
fn questions_are_shown_under_their_header() {
    let mut asked = question("a", " ", "Really?", vec![]);
    assert_eq!(codex_question_display_text(&asked), "Really?");
    asked.header = "Sure".to_owned();
    assert_eq!(codex_question_display_text(&asked), "Sure\n\nReally?");
}

#[test]
fn the_pager_is_asked_for_one_choice_each() {
    let mut asked = approach();
    asked.questions.push(question("second", "", "And then?", vec![]));
    asked.questions[1].options = None;
    let ask = codex_question_ext_request(&asked);
    assert_eq!(ask.mode, AskUserQuestionMode::Default);
    assert_eq!(ask.questions.len(), 2);
    assert_eq!(ask.questions[0].multi_select, Some(false));
    assert_eq!(ask.questions[0].options[0].label, "Small");
    assert_eq!(ask.questions[0].options[0].description, "Small change");
    assert_eq!(ask.questions[0].options[0].preview, None);
    assert_eq!(ask.questions[0].options[0].id, None);
    assert!(ask.questions[1].options.is_empty());
    assert_eq!(ask.questions[1].id.as_deref(), Some("second"));
}

#[test]
fn answers_are_found_by_id_text_or_display_text() {
    let asked = approach();
    for key in ["approach", "How should we proceed?", "Approach\n\nHow should we proceed?"] {
        let result = codex_user_input_result(&asked, accepted(vec![(key, vec!["Small"])], vec![]));
        assert_eq!(
            result.to_json().into_value(),
            value("{\"answers\": {\"approach\": {\"answers\": [\"Small\"]}}}")
        );
    }
    let result = codex_user_input_result(
        &asked,
        accepted(
            vec![("approach", vec!["by id"]), ("How should we proceed?", vec!["by text"])],
            vec![("How should we proceed?", "not this one")],
        ),
    );
    assert_eq!(
        result.to_json().into_value(),
        value("{\"answers\": {\"approach\": {\"answers\": [\"by id\"]}}}")
    );
    let result = codex_user_input_result(&asked, accepted(vec![("unknown", vec!["x"])], vec![]));
    assert_eq!(result.to_json().into_value(), value("{\"answers\": {}}"));
}

#[test]
fn the_later_question_of_an_id_is_answered() {
    let mut asked = approach();
    asked.questions.push(question("approach", "", "Again?", vec![option("Yes", "")]));
    let result = codex_user_input_result(
        &asked,
        accepted(vec![("approach", vec!["both"])], vec![]),
    );
    assert_eq!(
        result.to_json().into_value(),
        value("{\"answers\": {\"approach\": {\"answers\": [\"both\"]}}}")
    );
}

#[test]
fn notes_take_the_place_of_the_first_other() {
    let texts = |values: &[&str]| values.iter().map(|text| (*text).to_owned()).collect::<Vec<_>>();
    assert_eq!(
        annotate(&texts(&["A", "Other", "Other"]), Some("note")),
        texts(&["A", "note", "Other"])
    );
    assert_eq!(annotate(&texts(&["A"]), Some("note")), texts(&["A", "note"]));
    assert_eq!(annotate(&texts(&[]), Some("note")), texts(&["note"]));
    assert_eq!(annotate(&texts(&["Other"]), Some(" \n")), texts(&["Other"]));
    assert_eq!(annotate(&texts(&["Other"]), None), texts(&["Other"]));
}

#[test]
fn failed_questions_are_answered_with_an_error() {
    let end = finish_user_input(
        Json::text("q"),
        &approach(),
        AskOutcome::Failed("channel closed".to_owned()),
    );
    assert_eq!(
        end.answer.into_value(),
        value("{\"id\": \"q\", \"error\": {\"code\": -32603, \"message\": \"channel closed\"}}")
    );
    let end = finish_user_input(Json::Unsigned(5), &approach(), AskOutcome::Unreadable);
    assert_eq!(
        end.answer.into_value(),
        value(
            "{\"id\": 5, \"error\": {\"code\": -32603, \"message\": \"pager returned an invalid ask_user_question response\"}}"
        )
    );
}

#[test]
fn notices_name_the_same_interaction() {
    let pending = notify_codex_question_pending(&approach());
    let resolved = notify_codex_question_resolved(&approach());
    assert_eq!(pending.method, resolved.method);
    assert_eq!(pending.params.get_str("sessionId"), resolved.params.get_str("sessionId"));
    assert_eq!(
        pending.params.get_str_within("update", "tool_call_id"),
        resolved.params.get_str_within("update", "tool_call_id")
    );
}
