use vstd::prelude::*;
use vstd::string::*;

use crate::domain::{details_parse, SubscriberDetails, SubscriberEmail};
use crate::text::concat3;
use crate::token::{token_text, uuid_hyphenated};

verus! {

/// The form of a subscription request.
pub struct SubReq {
    pub name: String,
    pub email: String,
}

/// The texts of a list of strings.
pub open spec fn texts(v: Seq<String>) -> Seq<Seq<char>> {
    v.map_values(|c: String| c@)
}

/// Why a subscription failed: a request that breaks a rule, or an outside step that failed,
/// with the context that says which step and the messages of the error and of its causes.
pub enum SubscribeError {
    InputValidationError(String),
    UnexpectedError { context: String, causes: Vec<String> },
}

/// The content of a [`SubscribeError`].
pub enum SubscribeErrorView {
    InputValidationError(Seq<char>),
    UnexpectedError(Seq<char>, Seq<Seq<char>>),
}

impl View for SubscribeError {
    type V = SubscribeErrorView;

    open spec fn view(&self) -> SubscribeErrorView {
        match self {
            SubscribeError::InputValidationError(m) => SubscribeErrorView::InputValidationError(m@),
            SubscribeError::UnexpectedError { context, causes } => SubscribeErrorView::UnexpectedError(
                context@,
                texts(causes@),
            ),
        }
    }
}

/// The HTTP status that answers an error: 400 for a refused request, 500 otherwise.
pub open spec fn error_status(e: SubscribeErrorView) -> u16 {
    match e {
        SubscribeErrorView::InputValidationError(_) => 400,
        SubscribeErrorView::UnexpectedError(_, _) => 500,
    }
}

/// The message an error displays: the rule that was broken, or the context of the failure.
pub open spec fn error_message(e: SubscribeErrorView) -> Seq<char> {
    match e {
        SubscribeErrorView::InputValidationError(m) => m,
        SubscribeErrorView::UnexpectedError(context, _) => context,
    }
}

/// The messages of the causes of an error, nearest first.
pub open spec fn error_causes(e: SubscribeErrorView) -> Seq<Seq<char>> {
    match e {
        SubscribeErrorView::InputValidationError(_) => Seq::empty(),
        SubscribeErrorView::UnexpectedError(_, causes) => causes,
    }
}

/// One line per cause, each introduced by `Caused by:`.
pub open spec fn causes_text(causes: Seq<Seq<char>>) -> Seq<char>
    decreases causes.len(),
{
    if causes.len() == 0 {
        Seq::empty()
    } else {
        causes_text(causes.drop_last()) + "Caused by:\n\t"@ + causes.last() + "\n"@
    }
}

/// The report of an error and its chain of causes.
pub open spec fn chain_text(top: Seq<char>, causes: Seq<Seq<char>>) -> Seq<char> {
    top + "\n\n"@ + causes_text(causes)
}

/// Writes an error and the chain of its causes: the error's message and an empty line, then
/// for each cause, nearest first, `Caused by:` and the cause's message on a tab-indented line.
pub fn error_chain_fmt(top: &str, causes: &Vec<String>) -> (r: String)
    ensures
        r@ == chain_text(top@, texts(causes@)),
{
    let mut s = top.to_string();
    s.append("\n\n");
    let n = causes.len();
    let mut i: usize = 0;
    while i < n
        invariant
            n == causes@.len(),
            i <= n,
            s@ == top@ + "\n\n"@ + causes_text(texts(causes@).take(i as int)),
        decreases n - i,
    {
        assert(texts(causes@).take(i + 1).drop_last() =~= texts(causes@).take(i as int));
        s.append("Caused by:\n\t");
        s.append(causes[i].as_str());
        s.append("\n");
        i = i + 1;
    }
    assert(texts(causes@).take(n as int) =~= texts(causes@));
    s
}

impl SubscribeError {
    /// The HTTP status of the response that reports the error.
    pub fn status_code(&self) -> (r: u16)
        ensures
            r == error_status(self@),
    {
        match self {
            SubscribeError::InputValidationError(_) => 400,
            SubscribeError::UnexpectedError { .. } => 500,
        }
    }

    /// The message the error displays.
    pub fn message(&self) -> (r: String)
        ensures
            r@ == error_message(self@),
    {
        match self {
            SubscribeError::InputValidationError(m) => m.clone(),
            SubscribeError::UnexpectedError { context, .. } => context.clone(),
        }
    }

    /// The report of the error with its chain of causes, as its `Debug` output gives it.
    pub fn debug_text(&self) -> (r: String)
        ensures
            r@ == chain_text(error_message(self@), error_causes(self@)),
    {
        match self {
            SubscribeError::InputValidationError(m) => {
                let none: Vec<String> = Vec::new();
                assert(texts(none@) =~= Seq::<Seq<char>>::empty());
                error_chain_fmt(m.as_str(), &none)
            },
            SubscribeError::UnexpectedError { context, causes } => error_chain_fmt(
                context.as_str(),
                causes,
            ),
        }
    }
}

/// The view of the outcome of a request.
pub open spec fn outcome_view(r: Result<(), SubscribeError>) -> Result<(), SubscribeErrorView> {
    match r {
        Ok(()) => Ok(()),
        Err(e) => Err(e@),
    }
}

/// The context of a failed confirmation.
pub open spec fn confirm_context() -> Seq<char> {
    "Failed to change subscriber status"@
}

/// The answer to a confirmation, given how marking the subscriber as confirmed went
/// (`Err` holds the messages of the database error and of its causes).
pub fn confirm_response(outcome: Result<(), Vec<String>>) -> (r: Result<(), SubscribeError>)
    ensures
        outcome_view(r) == match outcome {
            Ok(()) => Ok::<(), SubscribeErrorView>(()),
            Err(causes) => Err(SubscribeErrorView::UnexpectedError(confirm_context(), texts(causes@))),
        },
        outcome is Ok <==> r is Ok,
        outcome matches Err(causes) ==> outcome_view(r) == Err::<(), SubscribeErrorView>(
            SubscribeErrorView::UnexpectedError(
                "Failed to change subscriber status"@,
                texts(causes@),
            ),
        ),
{
    match outcome {
        Ok(()) => Ok(()),
        Err(causes) => Err(
            SubscribeError::UnexpectedError {
                context: "Failed to change subscriber status".to_string(),
                causes,
            },
        ),
    }
}

/// The subject of the confirmation email.
pub open spec fn welcome_subject(name: Seq<char>) -> Seq<char> {
    "Welcome "@ + name + ", we need just one more thing"@
}

/// The body of the confirmation email: the command that confirms the subscription.
pub open spec fn confirmation_html(token: Seq<char>) -> Seq<char> {
    "curl localhost:8000/confirm/"@ + token
}

/// The plain-text part of the confirmation email.
pub open spec fn confirmation_plain() -> Seq<char> {
    "Confirm yourself maan"@
}

/// The subject of the confirmation email sent to `name`.
pub fn welcome_text(name: &str) -> (r: String)
    ensures
        r@ == welcome_subject(name@),
        r@ == "Welcome "@ + name@ + ", we need just one more thing"@,
{
    concat3("Welcome ", name, ", we need just one more thing")
}

/// The body of the confirmation email for the confirmation token written `token`.
pub fn confirmation_link(token: &str) -> (r: String)
    ensures
        r@ == confirmation_html(token@),
        r@ == "curl localhost:8000/confirm/"@ + token@,
{
    let mut s = "curl localhost:8000/confirm/".to_string();
    s.append(token);
    s
}

/// Where handling a subscription request stands.
pub enum SubscribeState {
    /// Nothing received yet.
    AwaitingRequest,
    /// The request was valid; the subscriber is being saved.
    AwaitingInsert(SubscriberDetails),
    /// The subscriber was saved; the confirmation email is being sent.
    AwaitingEmail,
    /// The response was given.
    Finished,
}

/// What happened outside since the last step.
pub enum SubscribeEvent {
    /// The request arrived.
    Request(SubReq),
    /// The subscriber was saved with this confirmation token.
    Inserted(u128),
    /// Saving failed; the messages of the error and of its causes.
    InsertFailed(Vec<String>),
    /// The confirmation email went out.
    EmailSent,
    /// Sending failed; the messages of the error and of its causes.
    EmailFailed(Vec<String>),
}

/// What to do next.
pub enum SubscribeAction {
    /// Save the subscriber, with a new confirmation token.
    SaveSubscriber(SubscriberDetails),
    /// Send the confirmation email.
    SendConfirmation { recipient: SubscriberEmail, subject: String, html: String, plain: String },
    /// Answer the request: `Ok` with 200, `Err` with the error's status.
    Respond(Result<(), SubscribeError>),
}

/// The content of a [`SubscribeState`]; a saved subscriber is its name and email.
pub enum SubscribeStateView {
    AwaitingRequest,
    AwaitingInsert(Seq<char>, Seq<char>),
    AwaitingEmail,
    Finished,
}

/// The content of a [`SubscribeEvent`].
pub enum SubscribeEventView {
    Request(Seq<char>, Seq<char>),
    Inserted(u128),
    InsertFailed(Seq<Seq<char>>),
    EmailSent,
    EmailFailed(Seq<Seq<char>>),
}

/// The content of a [`SubscribeAction`].
pub enum SubscribeActionView {
    SaveSubscriber(Seq<char>, Seq<char>),
    SendConfirmation(Seq<char>, Seq<char>, Seq<char>, Seq<char>),
    Respond(Result<(), SubscribeErrorView>),
}

impl View for SubscribeState {
    type V = SubscribeStateView;

    open spec fn view(&self) -> SubscribeStateView {
        match self {
            SubscribeState::AwaitingRequest => SubscribeStateView::AwaitingRequest,
            SubscribeState::AwaitingInsert(d) => SubscribeStateView::AwaitingInsert(
                d.name@,
                d.email@,
            ),
            SubscribeState::AwaitingEmail => SubscribeStateView::AwaitingEmail,
            SubscribeState::Finished => SubscribeStateView::Finished,
        }
    }
}

impl View for SubscribeEvent {
    type V = SubscribeEventView;

    open spec fn view(&self) -> SubscribeEventView {
        match self {
            SubscribeEvent::Request(req) => SubscribeEventView::Request(req.name@, req.email@),
            SubscribeEvent::Inserted(token) => SubscribeEventView::Inserted(*token),
            SubscribeEvent::InsertFailed(causes) => SubscribeEventView::InsertFailed(texts(causes@)),
            SubscribeEvent::EmailSent => SubscribeEventView::EmailSent,
            SubscribeEvent::EmailFailed(causes) => SubscribeEventView::EmailFailed(texts(causes@)),
        }
    }
}

impl View for SubscribeAction {
    type V = SubscribeActionView;

    open spec fn view(&self) -> SubscribeActionView {
        match self {
            SubscribeAction::SaveSubscriber(d) => SubscribeActionView::SaveSubscriber(
                d.name@,
                d.email@,
            ),
            SubscribeAction::SendConfirmation { recipient, subject, html, plain } =>
                SubscribeActionView::SendConfirmation(recipient@, subject@, html@, plain@),
            SubscribeAction::Respond(r) => SubscribeActionView::Respond(outcome_view(*r)),
        }
    }
}

/// The events each state waits for.
pub open spec fn subscribe_accepts(s: SubscribeStateView, e: SubscribeEventView) -> bool {
    match s {
        SubscribeStateView::AwaitingRequest => e is Request,
        SubscribeStateView::AwaitingInsert(_, _) => e is Inserted || e is InsertFailed,
        SubscribeStateView::AwaitingEmail => e is EmailSent || e is EmailFailed,
        SubscribeStateView::Finished => false,
    }
}

impl SubscribeState {
    /// Whether this state waits for `event`.
    pub fn accepts(&self, event: &SubscribeEvent) -> (r: bool)
        ensures
            r == subscribe_accepts(self@, event@),
    {
        match self {
            SubscribeState::AwaitingRequest => matches!(event, SubscribeEvent::Request(_)),
            SubscribeState::AwaitingInsert(_) => matches!(
                event,
                SubscribeEvent::Inserted(_) | SubscribeEvent::InsertFailed(_)
            ),
            SubscribeState::AwaitingEmail => matches!(
                event,
                SubscribeEvent::EmailSent | SubscribeEvent::EmailFailed(_)
            ),
            SubscribeState::Finished => false,
        }
    }
}

/// The context of a failure to save the subscriber.
pub open spec fn insert_context() -> Seq<char> {
    "Failed to insert subscriber"@
}

/// The context of a failure to send the confirmation email.
pub open spec fn email_context() -> Seq<char> {
    "Failed to send confirmation email"@
}

/// The next state and the action, for an event that the state waits for.
pub open spec fn subscribe_next(s: SubscribeStateView, e: SubscribeEventView) -> (
    SubscribeStateView,
    SubscribeActionView,
) {
    match s {
        SubscribeStateView::AwaitingRequest => match e {
            SubscribeEventView::Request(name, email) => match details_parse(name, email) {
                Err(m) => (
                    SubscribeStateView::Finished,
                    SubscribeActionView::Respond(Err(SubscribeErrorView::InputValidationError(m))),
                ),
                Ok((n, em)) => (
                    SubscribeStateView::AwaitingInsert(n, em),
                    SubscribeActionView::SaveSubscriber(n, em),
                ),
            },
            _ => (s, SubscribeActionView::Respond(Ok(()))),
        },
        SubscribeStateView::AwaitingInsert(name, email) => match e {
            SubscribeEventView::Inserted(token) => (
                SubscribeStateView::AwaitingEmail,
                SubscribeActionView::SendConfirmation(
                    email,
                    welcome_subject(name),
                    confirmation_html(uuid_hyphenated(token)),
                    confirmation_plain(),
                ),
            ),
            SubscribeEventView::InsertFailed(causes) => (
                SubscribeStateView::Finished,
                SubscribeActionView::Respond(
                    Err(SubscribeErrorView::UnexpectedError(insert_context(), causes)),
                ),
            ),
            _ => (s, SubscribeActionView::Respond(Ok(()))),
        },
        SubscribeStateView::AwaitingEmail => match e {
            SubscribeEventView::EmailSent => (
                SubscribeStateView::Finished,
                SubscribeActionView::Respond(Ok(())),
            ),
            SubscribeEventView::EmailFailed(causes) => (
                SubscribeStateView::Finished,
                SubscribeActionView::Respond(
                    Err(SubscribeErrorView::UnexpectedError(email_context(), causes)),
                ),
            ),
            _ => (s, SubscribeActionView::Respond(Ok(()))),
        },
        SubscribeStateView::Finished => (s, SubscribeActionView::Respond(Ok(()))),
    }
}

/// One step of handling a subscription request: from where it stands and what just
/// happened, where it stands next and what to do. A valid request is saved, then its
/// confirmation email is sent, then it is answered with 200; a refused request is answered
/// with 400 at once; a failed step is answered with 500, with the step's context.
pub fn subscribe_step(state: SubscribeState, event: SubscribeEvent) -> (r: (
    SubscribeState,
    SubscribeAction,
))
    requires
        subscribe_accepts(state@, event@),
    ensures
        (r.0@, r.1@) == subscribe_next(state@, event@),
{
    match state {
        SubscribeState::AwaitingRequest => match event {
            SubscribeEvent::Request(req) => match SubscriberDetails::parse(req) {
                Err(m) => (
                    SubscribeState::Finished,
                    SubscribeAction::Respond(Err(SubscribeError::InputValidationError(m))),
                ),
                Ok(d) => {
                    let saved = d.duplicate();
                    (SubscribeState::AwaitingInsert(d), SubscribeAction::SaveSubscriber(saved))
                },
            },
            _ => (SubscribeState::AwaitingRequest, SubscribeAction::Respond(Ok(()))),
        },
        SubscribeState::AwaitingInsert(d) => match event {
            SubscribeEvent::Inserted(token) => {
                let subject = welcome_text(d.name.as_ref());
                let token = token_text(token);
                let html = confirmation_link(token.as_str());
                (
                    SubscribeState::AwaitingEmail,
                    SubscribeAction::SendConfirmation {
                        recipient: d.email,
                        subject,
                        html,
                        plain: "Confirm yourself maan".to_string(),
                    },
                )
            },
            SubscribeEvent::InsertFailed(causes) => (
                SubscribeState::Finished,
                SubscribeAction::Respond(
                    Err(
                        SubscribeError::UnexpectedError {
                            context: "Failed to insert subscriber".to_string(),
                            causes,
                        },
                    ),
                ),
            ),
            _ => (SubscribeState::AwaitingInsert(d), SubscribeAction::Respond(Ok(()))),
        },
        SubscribeState::AwaitingEmail => match event {
            SubscribeEvent::EmailSent => (SubscribeState::Finished, SubscribeAction::Respond(Ok(()))),
            SubscribeEvent::EmailFailed(causes) => (
                SubscribeState::Finished,
                SubscribeAction::Respond(
                    Err(
                        SubscribeError::UnexpectedError {
                            context: "Failed to send confirmation email".to_string(),
                            causes,
                        },
                    ),
                ),
            ),
            _ => (SubscribeState::AwaitingEmail, SubscribeAction::Respond(Ok(()))),
        },
        SubscribeState::Finished => (SubscribeState::Finished, SubscribeAction::Respond(Ok(()))),
    }
}

} // verus!
