//! The course of a question: from the notice that it waits, through the question itself and the
//! notice that it waits no longer, to the answer.

use vstd::prelude::*;

use crate::json::{Json, JsonView};
use crate::questions::{
    finish_user_input, notify_codex_question_pending, notify_codex_question_resolved,
    pending_notice, put_question, question_of, resolved_notice, user_input_answer,
    validate_codex_user_input, AskOutcome, AskOutcomeView, CodexRequestUserInputParams, PutQuestion,
    PutQuestionView, UserInputView,
};
use crate::rpc::{error_message, respond_error};
use crate::updates::{ExtNotification, ExtNotificationView};

verus! {

/// How far a question has come.
pub enum DialogStage {
    /// Nothing was said yet.
    Fresh,
    /// The notice that it waits was handed out.
    Announced,
    /// The question was handed out.
    Asked,
    /// The question ended, and the notice that it waits no longer was handed out. This is the
    /// answer.
    Resolved(Json),
    /// Nothing is left to say.
    Closed,
}

#[verifier::ext_equal]
pub enum DialogStageView {
    Fresh,
    Announced,
    Asked,
    Resolved(JsonView),
    Closed,
}

impl View for DialogStage {
    type V = DialogStageView;

    open spec fn view(&self) -> DialogStageView {
        match self {
            DialogStage::Fresh => DialogStageView::Fresh,
            DialogStage::Announced => DialogStageView::Announced,
            DialogStage::Asked => DialogStageView::Asked,
            DialogStage::Resolved(answer) => DialogStageView::Resolved(answer@),
            DialogStage::Closed => DialogStageView::Closed,
        }
    }
}

/// What happens to a question.
pub enum DialogEvent {
    /// It is taken up.
    Begin,
    /// The notice that was handed out is sent.
    Sent,
    /// The pager is done with the question.
    Ended(AskOutcome),
    /// Nobody will go on with it.
    Dropped,
}

#[verifier::ext_equal]
pub ghost enum DialogEventView {
    Begin,
    Sent,
    Ended(AskOutcomeView),
    Dropped,
}

impl View for DialogEvent {
    type V = DialogEventView;

    open spec fn view(&self) -> DialogEventView {
        match self {
            DialogEvent::Begin => DialogEventView::Begin,
            DialogEvent::Sent => DialogEventView::Sent,
            DialogEvent::Ended(outcome) => DialogEventView::Ended(outcome@),
            DialogEvent::Dropped => DialogEventView::Dropped,
        }
    }
}

/// What is to be done next.
#[derive(Debug, PartialEq)]
pub enum DialogAction {
    /// Nothing.
    Rest,
    /// Tell the pager that a question waits.
    Announce(ExtNotification),
    /// Put the question to the user.
    Ask(PutQuestion),
    /// Tell the pager that the question waits no longer.
    Resolve(ExtNotification),
    /// Answer the app-server.
    Answer(Json),
}

#[verifier::ext_equal]
pub enum DialogActionView {
    Rest,
    Announce(ExtNotificationView),
    Ask(PutQuestionView),
    Resolve(ExtNotificationView),
    Answer(JsonView),
}

impl View for DialogAction {
    type V = DialogActionView;

    open spec fn view(&self) -> DialogActionView {
        match self {
            DialogAction::Rest => DialogActionView::Rest,
            DialogAction::Announce(notice) => DialogActionView::Announce(notice@),
            DialogAction::Ask(question) => DialogActionView::Ask(question@),
            DialogAction::Resolve(notice) => DialogActionView::Resolve(notice@),
            DialogAction::Answer(answer) => DialogActionView::Answer(answer@),
        }
    }
}

/// A request of the app-server to ask the user, on its way.
pub struct Dialog {
    pub id: Json,
    pub request: CodexRequestUserInputParams,
    pub stage: DialogStage,
}

#[verifier::ext_equal]
pub ghost struct DialogState {
    pub id: JsonView,
    pub request: UserInputView,
    pub stage: DialogStageView,
}

impl View for Dialog {
    type V = DialogState;

    open spec fn view(&self) -> DialogState {
        DialogState { id: self.id@, request: self.request@, stage: self.stage@ }
    }
}

impl DialogState {
    /// The request before anything was said of it.
    pub open spec fn fresh(id: JsonView, request: UserInputView) -> Self {
        DialogState { id, request, stage: DialogStageView::Fresh }
    }

    /// What an event calls for. A request that breaks a rule is answered at once. Else the notice
    /// comes before the question, and the notice that it waits no longer comes before the answer.
    /// A question that is dropped once it was announced is still resolved. An event that the stage
    /// does not wait for calls for nothing.
    pub open spec fn action(self, event: DialogEventView) -> DialogActionView {
        match (self.stage, event) {
            (DialogStageView::Fresh, DialogEventView::Begin) => match self.request.fault() {
                Some(error) => DialogActionView::Answer(
                    error_message(self.id, -32603, error.text()),
                ),
                None => DialogActionView::Announce(pending_notice(self.request)),
            },
            (DialogStageView::Announced, DialogEventView::Sent) => DialogActionView::Ask(
                question_of(self.request),
            ),
            (DialogStageView::Announced, DialogEventView::Dropped) => DialogActionView::Resolve(
                resolved_notice(self.request),
            ),
            (DialogStageView::Asked, DialogEventView::Ended(_)) => DialogActionView::Resolve(
                resolved_notice(self.request),
            ),
            (DialogStageView::Asked, DialogEventView::Dropped) => DialogActionView::Resolve(
                resolved_notice(self.request),
            ),
            (
                DialogStageView::Resolved(answer),
                DialogEventView::Sent,
            ) => DialogActionView::Answer(answer),
            _ => DialogActionView::Rest,
        }
    }

    /// The stage after an event.
    pub open spec fn next_stage(self, event: DialogEventView) -> DialogStageView {
        match (self.stage, event) {
            (_, DialogEventView::Dropped) => DialogStageView::Closed,
            (DialogStageView::Fresh, DialogEventView::Begin) => if self.request.fault() is None {
                DialogStageView::Announced
            } else {
                DialogStageView::Closed
            },
            (DialogStageView::Announced, DialogEventView::Sent) => DialogStageView::Asked,
            (DialogStageView::Asked, DialogEventView::Ended(outcome)) => DialogStageView::Resolved(
                user_input_answer(self.id, self.request, outcome),
            ),
            (DialogStageView::Resolved(_), DialogEventView::Sent) => DialogStageView::Closed,
            _ => self.stage,
        }
    }

    /// The state after an event.
    pub open spec fn advanced(self, event: DialogEventView) -> Self {
        DialogState { stage: self.next_stage(event), ..self }
    }

    /// The state after some events, one after the other.
    pub open spec fn after(self, events: Seq<DialogEventView>) -> Self
        decreases events.len(),
    {
        if events.len() == 0 {
            self
        } else {
            self.after(events.drop_last()).advanced(events.last())
        }
    }

    /// What some events, one after the other, call for, in order.
    pub open spec fn actions(self, events: Seq<DialogEventView>) -> Seq<DialogActionView>
        decreases events.len(),
    {
        if events.len() == 0 {
            Seq::empty()
        } else {
            let earlier = self.actions(events.drop_last());
            match self.after(events.drop_last()).action(events.last()) {
                DialogActionView::Rest => earlier,
                action => earlier.push(action),
            }
        }
    }
}

impl Dialog {
    /// The request before anything was said of it.
    pub fn new(id: Json, request: CodexRequestUserInputParams) -> (dialog: Self)
        ensures
            dialog@ == DialogState::fresh(id@, request@),
    {
        Dialog { id, request, stage: DialogStage::Fresh }
    }

    /// Takes in an event, and says what is to be done next.
    pub fn advance(&mut self, event: DialogEvent) -> (action: DialogAction)
        ensures
            action@ == old(self)@.action(event@),
            final(self)@ == old(self)@.advanced(event@),
    {
        let mut stage = DialogStage::Closed;
        std::mem::swap(&mut stage, &mut self.stage);
        match (stage, event) {
            (DialogStage::Fresh, DialogEvent::Begin) => match validate_codex_user_input(
                &self.request,
            ) {
                Ok(_) => {
                    self.stage = DialogStage::Announced;
                    DialogAction::Announce(notify_codex_question_pending(&self.request))
                },
                Err(error) => DialogAction::Answer(
                    respond_error(self.id.clone(), -32603, error.message()),
                ),
            },
            (DialogStage::Announced, DialogEvent::Sent) => {
                self.stage = DialogStage::Asked;
                DialogAction::Ask(put_question(&self.request))
            },
            (DialogStage::Asked, DialogEvent::Ended(outcome)) => {
                let end = finish_user_input(self.id.clone(), &self.request, outcome);
                self.stage = DialogStage::Resolved(end.answer);
                DialogAction::Resolve(end.resolved)
            },
            (DialogStage::Announced, DialogEvent::Dropped) => DialogAction::Resolve(
                notify_codex_question_resolved(&self.request),
            ),
            (DialogStage::Asked, DialogEvent::Dropped) => DialogAction::Resolve(
                notify_codex_question_resolved(&self.request),
            ),
            (DialogStage::Resolved(answer), DialogEvent::Sent) => DialogAction::Answer(answer),
            (_, DialogEvent::Dropped) => DialogAction::Rest,
            (stage, _) => {
                self.stage = stage;
                DialogAction::Rest
            },
        }
    }
}

} // verus!
