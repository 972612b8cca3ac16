//! The server's life cycle, as a state machine.
//!
//! The program that embeds the library owns the connection. It hands every
//! event to `handle`, performs the actions that come back in their order, and
//! ends when the state is no longer `Running` or a failure is reported.

use vstd::prelude::*;
use vstd::utf8::encode_utf8;
use crate::diagnostics::{publish, published, ParseOutcome};
use crate::dispatch::{acknowledgment, dispatch, dispatches, Dispatch};
use crate::extract::{changes_extracted, try_extract_changes, ChangesExtract, ExtractError};
use crate::message::{Message, Notification, Outgoing, Request};
use crate::params::{lemma_names_differ, spec_changes_method, FileChange, Method};

verus! {

/// Where the server stands in its life.
#[derive(Clone, Copy, Debug, PartialEq, Eq, Structural)]
pub enum ServerState {
    /// Messages are taken and handled, one at a time.
    Running,
    /// The loop has ended in good order; the transport is still finishing.
    ShuttingDown,
    /// Nothing is handled any more.
    Stopped,
}

/// What can happen to the server.
#[derive(Debug)]
pub enum Event {
    /// A message has arrived.
    Received(Message),
    /// A changed file was read and parsed, as an `Analyze` action asked.
    Analyzed { uri: String, text: String, outcome: ParseOutcome },
    /// A changed file could not be read.
    Unreadable { uri: String },
    /// The client has closed the connection: no message will arrive.
    Disconnected,
    /// The transport has finished its work.
    Drained,
}

/// What the server asks of the program around it.
#[derive(Debug)]
pub enum Action {
    /// Send this message to the client.
    Send(Outgoing),
    /// Read the file at the change's path, parse it, and report what came of
    /// it, as `Analyzed` or as `Unreadable`, before anything else is handled.
    Analyze(FileChange),
}

/// Why the server cannot go on.
#[derive(Debug)]
pub enum Failure {
    /// A message named a known method and its parameters did not decode.
    MalformedParams(ExtractError),
    /// A changed file could not be read.
    UnreadableFile { uri: String },
}

/// What handling one event comes to: the next state, the actions to perform
/// in their order, and the failure, if there is one.
#[derive(Debug)]
pub struct Step {
    pub state: ServerState,
    pub actions: Vec<Action>,
    pub failure: Option<Failure>,
}

/// What a `Step` stands for.
pub struct StepView {
    pub state: ServerState,
    pub actions: Seq<Action>,
    pub failure: Option<Failure>,
}

impl View for Step {
    type V = StepView;

    open spec fn view(&self) -> StepView {
        StepView { state: self.state, actions: self.actions@, failure: self.failure }
    }
}

/// The step that does nothing and leaves the server in `state`.
pub open spec fn quiet(state: ServerState) -> StepView {
    StepView { state, actions: Seq::empty(), failure: None }
}

/// The step that sends one message and leaves the server in `state`.
pub open spec fn sending(state: ServerState, message: Outgoing) -> StepView {
    StepView { state, actions: seq![Action::Send(message)], failure: None }
}

/// The step that stops the server at once, with `failure` as the reason.
pub open spec fn failing(failure: Failure) -> StepView {
    StepView { state: ServerState::Stopped, actions: Seq::empty(), failure: Some(failure) }
}

/// The step that follows a dispatch: a response is sent, if there is one; a
/// shutdown moves the server to `ShuttingDown`; a failed dispatch stops it.
pub open spec fn dispatch_step(result: Dispatch) -> StepView {
    match result {
        Dispatch::Shutdown(response) => sending(
            ServerState::ShuttingDown,
            Outgoing::Response(response),
        ),
        Dispatch::Answered(response) => sending(ServerState::Running, Outgoing::Response(response)),
        Dispatch::Unhandled(_) => quiet(ServerState::Running),
        Dispatch::Failed(failure) => failing(Failure::MalformedParams(failure)),
    }
}

/// The step that follows the extraction of changed files: each file is to be
/// analyzed, in the order reported; a notification of another kind is passed
/// over; parameters that did not decode stop the server.
pub open spec fn changes_step(outcome: ChangesExtract) -> StepView {
    match outcome {
        ChangesExtract::Matched(changes) => StepView {
            state: ServerState::Running,
            actions: Seq::new(changes@.len(), |i: int| Action::Analyze(changes@[i])),
            failure: None,
        },
        ChangesExtract::MethodMismatch(_) => quiet(ServerState::Running),
        ChangesExtract::MalformedParams(failure) => failing(Failure::MalformedParams(failure)),
    }
}

/// Whether `step` is the step of some dispatch of `request`.
pub open spec fn handles_request(request: Request, step: StepView) -> bool {
    exists|result: Dispatch| #[trigger] dispatches(request, result) && step == dispatch_step(result)
}

/// Whether `step` is the step that follows the extraction of the changed
/// files from `notification`.
pub open spec fn handles_notification(notification: Notification, step: StepView) -> bool {
    step == changes_step(changes_extracted(notification))
}

/// Whether `step` publishes the diagnostics of the document `uri` with the
/// text `text`, on which the parser reported `outcome`: the server keeps
/// running and sends exactly that notification.
pub open spec fn publishes(
    uri: Seq<char>,
    text: Seq<char>,
    outcome: ParseOutcome,
    step: StepView,
) -> bool {
    &&& step.state == ServerState::Running
    &&& step.failure is None
    &&& step.actions.len() == 1
    &&& step.actions[0] matches Action::Send(Outgoing::Diagnostics(notification))
    &&& notification@ == published(uri, encode_utf8(text), outcome.errors())
}

/// Whether `step` is what handling `event` in the state `state` comes to.
///
/// A server that is not running handles nothing: it only stops once the
/// transport has finished. A running server dispatches requests, passes over
/// responses, asks for the analysis of changed files and publishes what the
/// analysis found; it stops at once on a failure, and leaves the loop in good
/// order on a shutdown or when the client is gone.
pub open spec fn handles(state: ServerState, event: Event, step: StepView) -> bool {
    match event {
        Event::Drained => step == quiet(ServerState::Stopped),
        _ if state != ServerState::Running => step == quiet(state),
        Event::Received(Message::Request(request)) => handles_request(request, step),
        Event::Received(Message::Response(_)) => step == quiet(ServerState::Running),
        Event::Received(Message::Notification(notification)) => handles_notification(
            notification,
            step,
        ),
        Event::Analyzed { uri, text, outcome } => publishes(uri@, text@, outcome, step),
        Event::Unreadable { uri } => step == failing(Failure::UnreadableFile { uri }),
        Event::Disconnected => step == quiet(ServerState::ShuttingDown),
    }
}

impl ServerState {
    /// The state in which the server starts, once the handshake is done.
    pub fn start() -> (state: ServerState)
        ensures
            state == ServerState::Running,
    {
        ServerState::Running
    }

    /// Whether the loop goes on taking messages.
    pub fn is_running(&self) -> (running: bool)
        ensures
            running == (*self == ServerState::Running),
    {
        match self {
            ServerState::Running => true,
            _ => false,
        }
    }
}

/// The step that does nothing and leaves the server in `state`.
pub fn stay(state: ServerState) -> (step: Step)
    ensures
        step@ == quiet(state),
{
    Step { state, actions: Vec::new(), failure: None }
}

/// The step that sends one message and leaves the server in `state`.
pub fn send(state: ServerState, message: Outgoing) -> (step: Step)
    ensures
        step@ == sending(state, message),
{
    let mut actions: Vec<Action> = Vec::new();
    actions.push(Action::Send(message));
    assert(actions@ =~= seq![Action::Send(message)]);
    Step { state, actions, failure: None }
}

/// The step that stops the server at once.
pub fn fail(failure: Failure) -> (step: Step)
    ensures
        step@ == failing(failure),
{
    Step { state: ServerState::Stopped, actions: Vec::new(), failure: Some(failure) }
}

/// Turns a dispatch into the step that follows it.
pub fn after_dispatch(result: Dispatch) -> (step: Step)
    ensures
        step@ == dispatch_step(result),
{
    match result {
        Dispatch::Shutdown(response) => send(
            ServerState::ShuttingDown,
            Outgoing::Response(response),
        ),
        Dispatch::Answered(response) => send(ServerState::Running, Outgoing::Response(response)),
        Dispatch::Unhandled(_) => stay(ServerState::Running),
        Dispatch::Failed(failure) => fail(Failure::MalformedParams(failure)),
    }
}

/// Turns an extraction of changed files into the step that follows it.
pub fn after_changes(outcome: ChangesExtract) -> (step: Step)
    ensures
        step@ == changes_step(outcome),
{
    match outcome {
        ChangesExtract::Matched(changes) => {
            let mut actions: Vec<Action> = Vec::new();
            let mut i: usize = 0;
            while i < changes.len()
                invariant
                    i <= changes.len(),
                    actions.len() == i,
                    forall|k: int| 0 <= k < i ==> #[trigger] actions[k] == Action::Analyze(changes[k]),
                decreases changes.len() - i,
            {
                let change = FileChange {
                    uri: changes[i].uri.clone(),
                    path: changes[i].path.clone(),
                };
                actions.push(Action::Analyze(change));
                i = i + 1;
            }
            assert(actions@ =~= Seq::new(changes@.len(), |i: int| Action::Analyze(changes@[i])));
            Step { state: ServerState::Running, actions, failure: None }
        },
        ChangesExtract::MethodMismatch(_) => stay(ServerState::Running),
        ChangesExtract::MalformedParams(failure) => fail(Failure::MalformedParams(failure)),
    }
}

/// Handles one event in the state `state`.
pub fn handle(state: ServerState, event: Event) -> (step: Step)
    ensures
        handles(state, event, step@),
{
    match event {
        Event::Drained => stay(ServerState::Stopped),
        _ if !state.is_running() => stay(state),
        Event::Received(Message::Request(request)) => {
            let result = dispatch(request);
            after_dispatch(result)
        },
        Event::Received(Message::Response(_)) => stay(ServerState::Running),
        Event::Received(Message::Notification(notification)) => {
            let outcome = try_extract_changes(notification);
            after_changes(outcome)
        },
        Event::Analyzed { uri, text, outcome } => {
            let notification = publish(uri, text.as_str(), &outcome);
            send(ServerState::Running, Outgoing::Diagnostics(notification))
        },
        Event::Unreadable { uri } => fail(Failure::UnreadableFile { uri }),
        Event::Disconnected => stay(ServerState::ShuttingDown),
    }
}

/// What handling a request comes to. At most one message is sent, and it is
/// a response under the request's own identifier. A shutdown request is
/// acknowledged and ends the loop; a request of an unknown method changes
/// nothing and is never answered.
pub proof fn lemma_request_step(request: Request, step: StepView)
    requires
        handles_request(request, step),
    ensures
        step.actions.len() <= 1,
        forall|i: int|
            0 <= i < step.actions.len() ==> (#[trigger] step.actions[i] matches Action::Send(
                Outgoing::Response(response),
            ) && response.id == request.id),
        request.method@ == Method::Shutdown.spec_name() ==> step == sending(
            ServerState::ShuttingDown,
            Outgoing::Response(acknowledgment(request.id)),
        ),
        request.method@ != Method::Shutdown.spec_name() ==> step.state != ServerState::ShuttingDown,
        request.method@ != Method::Shutdown.spec_name() && request.method@
            != Method::GotoDefinition.spec_name() && request.method@
            != Method::References.spec_name() ==> step == quiet(ServerState::Running),
{
    let result = choose|result: Dispatch| #[trigger]
        dispatches(request, result) && step == dispatch_step(result);
    lemma_names_differ(Method::Shutdown, Method::GotoDefinition);
    lemma_names_differ(Method::Shutdown, Method::References);
}

/// Once the loop has ended nothing is dispatched: whatever arrives, no action
/// follows, and only the end of the transport changes the state.
pub proof fn lemma_nothing_after_the_loop(state: ServerState, event: Event, step: StepView)
    requires
        state != ServerState::Running,
        handles(state, event, step),
    ensures
        step.actions.len() == 0,
        step.failure is None,
        step.state == if event is Drained {
            ServerState::Stopped
        } else {
            state
        },
{
}

/// A notification that does not report changed files is passed over.
pub proof fn lemma_other_notification_step(notification: Notification, step: StepView)
    requires
        handles_notification(notification, step),
        notification.method@ != spec_changes_method(),
    ensures
        step == quiet(ServerState::Running),
{
}

} // verus!
