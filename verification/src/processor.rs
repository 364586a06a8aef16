//! The request processor: the steps of serving one outbound request, as a
//! state machine. The caller performs each action that the machine asks for
//! and reports what happened as the next event.

use crate::account::{account_parsed, AccountId};
use crate::content::{copy_text, text_view};
use vstd::prelude::*;

verus! {

/// The time to keep receiving before the outbound message is sent, in
/// milliseconds.
pub const GRACE_WINDOW_MILLIS: u64 = 4000;

/// One request to send a text to an account, as the transport hands it in.
/// The destination is the account's identifier in text; it is read when the
/// request is served.
#[derive(Clone, PartialEq, Eq, Debug)]
pub struct OutboundRequest {
    pub destination: String,
    pub body: String,
}

pub struct OutboundRequestView {
    pub destination: Seq<char>,
    pub body: Seq<char>,
}

impl View for OutboundRequest {
    type V = OutboundRequestView;

    open spec fn view(&self) -> OutboundRequestView {
        OutboundRequestView { destination: self.destination@, body: self.body@ }
    }
}

/// Where the store is and how it is unlocked. Fixed at startup.
#[derive(Clone, PartialEq, Eq, Debug)]
pub struct Config {
    pub db_path: String,
    pub passphrase: Option<String>,
}

pub struct ConfigView {
    pub db_path: Seq<char>,
    pub passphrase: Option<Seq<char>>,
}

impl View for Config {
    type V = ConfigView;

    open spec fn view(&self) -> ConfigView {
        ConfigView { db_path: self.db_path@, passphrase: text_view(self.passphrase) }
    }
}

/// A failure after which no request can be served.
#[derive(Clone, Copy, PartialEq, Eq, Structural, Debug)]
pub enum FatalError {
    /// The store could not be opened.
    StoreUnavailable,
    /// The store holds no registered account.
    NotRegistered,
}

/// A failure that ends one request and leaves the next ones untouched.
#[derive(Clone, Copy, PartialEq, Eq, Structural, Debug)]
pub enum RequestError {
    /// The destination is no account identifier.
    InvalidDestination,
    /// The session reported that the message was not sent.
    SendFailed,
}

/// How a request ended.
#[derive(Clone, Copy, PartialEq, Eq, Structural, Debug)]
pub enum Outcome {
    Delivered,
    Failed(RequestError),
    Fatal(FatalError),
}

/// How far the processing of a request has come. Each stage but the last
/// waits for one kind of event.
#[derive(Clone, Copy, PartialEq, Eq, Structural, Debug)]
pub enum Stage {
    /// The store is being opened.
    OpeningStore,
    /// The registered account is being loaded from the store.
    LoadingManager,
    /// The session is open and the clock is being read.
    ReadingClock { destination: AccountId },
    /// The receive loop runs and the grace window has not passed.
    Receiving { destination: AccountId, timestamp: u64 },
    /// The outbound message is being sent.
    Sending { destination: AccountId, timestamp: u64 },
    /// The session is being dropped.
    Closing(Outcome),
    /// Nothing is left to do.
    Done(Outcome),
}

/// What the caller reports.
#[derive(Clone, Copy, PartialEq, Eq, Structural, Debug)]
pub enum Event {
    StoreOpened,
    StoreFailed,
    ManagerLoaded,
    ManagerMissing,
    /// The wall clock, in milliseconds since the epoch.
    Clock(u64),
    GraceElapsed,
    SendSucceeded,
    SendFailed,
    SessionClosed,
    /// A request was submitted or the queue was closed.
    Wake,
}

/// What the caller is asked to do next.
#[derive(Clone, PartialEq, Eq, Debug)]
pub enum Action {
    /// Open the store at this path with this passphrase.
    OpenStore { db_path: String, passphrase: Option<String> },
    /// Load the registered account from the store.
    LoadManager,
    /// Read the wall clock.
    ReadClock,
    /// Start the receive loop on the session's own thread of control and
    /// let this many milliseconds pass.
    Receive { millis: u64 },
    /// Send the message.
    Send { destination: AccountId, body: String, timestamp: u64 },
    /// Drop the session; the request ended in this way.
    CloseSession(Outcome),
    /// End the process.
    Abort(FatalError),
    /// Suspend until a request is submitted or the queue is closed.
    Wait,
    /// Stop serving: the queue is closed and drained.
    Terminate,
    /// Nothing: the event was not awaited, or the request is done.
    Nothing,
}

pub enum ActionView {
    OpenStore { db_path: Seq<char>, passphrase: Option<Seq<char>> },
    LoadManager,
    ReadClock,
    Receive { millis: u64 },
    Send { destination: AccountId, body: Seq<char>, timestamp: u64 },
    CloseSession(Outcome),
    Abort(FatalError),
    Wait,
    Terminate,
    Nothing,
}

impl View for Action {
    type V = ActionView;

    open spec fn view(&self) -> ActionView {
        match *self {
            Action::OpenStore { db_path, passphrase } => ActionView::OpenStore {
                db_path: db_path@,
                passphrase: text_view(passphrase),
            },
            Action::LoadManager => ActionView::LoadManager,
            Action::ReadClock => ActionView::ReadClock,
            Action::Receive { millis } => ActionView::Receive { millis },
            Action::Send { destination, body, timestamp } => ActionView::Send {
                destination,
                body: body@,
                timestamp,
            },
            Action::CloseSession(outcome) => ActionView::CloseSession(outcome),
            Action::Abort(error) => ActionView::Abort(error),
            Action::Wait => ActionView::Wait,
            Action::Terminate => ActionView::Terminate,
            Action::Nothing => ActionView::Nothing,
        }
    }
}

/// The stage after `event`. `destination` is the account that the request's
/// destination denotes, if it denotes one; it is read when the account has
/// been loaded. An event that the stage does not await changes nothing.
pub open spec fn next_stage(stage: Stage, event: Event, destination: Option<AccountId>) -> Stage {
    match (stage, event) {
        (Stage::OpeningStore, Event::StoreOpened) => Stage::LoadingManager,
        (Stage::OpeningStore, Event::StoreFailed) => Stage::Done(
            Outcome::Fatal(FatalError::StoreUnavailable),
        ),
        (Stage::LoadingManager, Event::ManagerLoaded) => match destination {
            Some(id) => Stage::ReadingClock { destination: id },
            None => Stage::Closing(Outcome::Failed(RequestError::InvalidDestination)),
        },
        (Stage::LoadingManager, Event::ManagerMissing) => Stage::Done(
            Outcome::Fatal(FatalError::NotRegistered),
        ),
        (Stage::ReadingClock { destination: id }, Event::Clock(now)) => Stage::Receiving {
            destination: id,
            timestamp: now,
        },
        (Stage::Receiving { destination: id, timestamp }, Event::GraceElapsed) => Stage::Sending {
            destination: id,
            timestamp,
        },
        (Stage::Sending { .. }, Event::SendSucceeded) => Stage::Closing(Outcome::Delivered),
        (Stage::Sending { .. }, Event::SendFailed) => Stage::Closing(
            Outcome::Failed(RequestError::SendFailed),
        ),
        (Stage::Closing(outcome), Event::SessionClosed) => Stage::Done(outcome),
        _ => stage,
    }
}

/// What a stage asks the caller to do.
pub open spec fn action_of(stage: Stage, request: OutboundRequestView, config: ConfigView) -> ActionView {
    match stage {
        Stage::OpeningStore => ActionView::OpenStore {
            db_path: config.db_path,
            passphrase: config.passphrase,
        },
        Stage::LoadingManager => ActionView::LoadManager,
        Stage::ReadingClock { .. } => ActionView::ReadClock,
        Stage::Receiving { .. } => ActionView::Receive { millis: GRACE_WINDOW_MILLIS },
        Stage::Sending { destination, timestamp } => ActionView::Send {
            destination,
            body: request.body,
            timestamp,
        },
        Stage::Closing(outcome) => ActionView::CloseSession(outcome),
        Stage::Done(Outcome::Fatal(error)) => ActionView::Abort(error),
        Stage::Done(_) => ActionView::Nothing,
    }
}

/// The answer to an event that took the machine from `before` to `after`:
/// the action of the new stage, or nothing where the stage did not change.
pub open spec fn response(
    before: Stage,
    after: Stage,
    request: OutboundRequestView,
    config: ConfigView,
) -> ActionView {
    if after == before {
        ActionView::Nothing
    } else {
        action_of(after, request, config)
    }
}

/// Computes the stage after an event. `destination` is the result of
/// reading the request's destination.
pub fn advance_with(stage: Stage, event: Event, destination: Option<AccountId>) -> (r: Stage)
    ensures
        r == next_stage(stage, event, destination),
{
    match (stage, event) {
        (Stage::OpeningStore, Event::StoreOpened) => Stage::LoadingManager,
        (Stage::OpeningStore, Event::StoreFailed) => Stage::Done(
            Outcome::Fatal(FatalError::StoreUnavailable),
        ),
        (Stage::LoadingManager, Event::ManagerLoaded) => match destination {
            Some(id) => Stage::ReadingClock { destination: id },
            None => Stage::Closing(Outcome::Failed(RequestError::InvalidDestination)),
        },
        (Stage::LoadingManager, Event::ManagerMissing) => Stage::Done(
            Outcome::Fatal(FatalError::NotRegistered),
        ),
        (Stage::ReadingClock { destination: id }, Event::Clock(now)) => Stage::Receiving {
            destination: id,
            timestamp: now,
        },
        (Stage::Receiving { destination: id, timestamp }, Event::GraceElapsed) => Stage::Sending {
            destination: id,
            timestamp,
        },
        (Stage::Sending { .. }, Event::SendSucceeded) => Stage::Closing(Outcome::Delivered),
        (Stage::Sending { .. }, Event::SendFailed) => Stage::Closing(
            Outcome::Failed(RequestError::SendFailed),
        ),
        (Stage::Closing(outcome), Event::SessionClosed) => Stage::Done(outcome),
        _ => stage,
    }
}

/// Names the action that a stage asks for.
pub fn action_for(stage: Stage, request: &OutboundRequest, config: &Config) -> (r: Action)
    ensures
        r@ == action_of(stage, request@, config@),
{
    match stage {
        Stage::OpeningStore => Action::OpenStore {
            db_path: config.db_path.clone(),
            passphrase: copy_text(&config.passphrase),
        },
        Stage::LoadingManager => Action::LoadManager,
        Stage::ReadingClock { .. } => Action::ReadClock,
        Stage::Receiving { .. } => Action::Receive { millis: GRACE_WINDOW_MILLIS },
        Stage::Sending { destination, timestamp } => Action::Send {
            destination,
            body: request.body.clone(),
            timestamp,
        },
        Stage::Closing(outcome) => Action::CloseSession(outcome),
        Stage::Done(Outcome::Fatal(error)) => Action::Abort(error),
        Stage::Done(_) => Action::Nothing,
    }
}

/// The processing of one request.
#[derive(Clone, PartialEq, Eq, Debug)]
pub struct Processor {
    pub request: OutboundRequest,
    pub stage: Stage,
}

impl Processor {
    /// Starts on a request: the store is to be opened.
    pub fn new(request: OutboundRequest) -> (r: Processor)
        ensures
            r.request == request,
            r.stage == Stage::OpeningStore,
    {
        Processor { request, stage: Stage::OpeningStore }
    }

    /// The action that the current stage asks for.
    pub fn action(&self, config: &Config) -> (r: Action)
        ensures
            r@ == action_of(self.stage, self.request@, config@),
    {
        action_for(self.stage, &self.request, config)
    }

    /// Whether nothing is left to do, and how the request ended.
    pub fn outcome(&self) -> (r: Option<Outcome>)
        ensures
            r == (match self.stage {
                Stage::Done(outcome) => Some(outcome),
                _ => None,
            }),
    {
        match self.stage {
            Stage::Done(outcome) => Some(outcome),
            _ => None,
        }
    }

    /// Takes one event and answers with the action to perform. The
    /// destination is read when the account has been loaded; a destination
    /// that is no account identifier ends the request there.
    pub fn handle(&mut self, event: Event, config: &Config) -> (action: Action)
        ensures
            final(self).request == old(self).request,
            final(self).stage == next_stage(
                old(self).stage,
                event,
                account_parsed(old(self).request.destination@),
            ),
            action@ == response(
                old(self).stage,
                final(self).stage,
                old(self).request@,
                config@,
            ),
    {
        let before = self.stage;
        let destination = match (before, event) {
            (Stage::LoadingManager, Event::ManagerLoaded) => AccountId::parse(
                self.request.destination.as_str(),
            ),
            _ => None,
        };
        let after = advance_with(before, event, destination);
        self.stage = after;
        if after == before {
            Action::Nothing
        } else {
            action_for(after, &self.request, config)
        }
    }
}

/// The place of a stage in the order of the stages.
pub open spec fn rank(stage: Stage) -> nat {
    match stage {
        Stage::OpeningStore => 0,
        Stage::LoadingManager => 1,
        Stage::ReadingClock { .. } => 2,
        Stage::Receiving { .. } => 3,
        Stage::Sending { .. } => 4,
        Stage::Closing(_) => 5,
        Stage::Done(_) => 6,
    }
}

/// The number of times that a run of events, taken from `stage`, asks to
/// send the message.
pub open spec fn sends(stage: Stage, events: Seq<Event>, destination: Option<AccountId>) -> nat
    decreases events.len(),
{
    if events.len() == 0 {
        0
    } else {
        let after = next_stage(stage, events[0], destination);
        let asked: nat = if after != stage && after is Sending {
            1
        } else {
            0
        };
        asked + sends(after, events.skip(1), destination)
    }
}

/// An event either leaves the stage as it is or moves it forward.
pub proof fn lemma_stages_advance(stage: Stage, event: Event, destination: Option<AccountId>)
    ensures
        next_stage(stage, event, destination) == stage || rank(
            next_stage(stage, event, destination),
        ) > rank(stage),
{
}

/// Whatever events are reported, in whatever order, the message of one
/// request is asked to be sent at most once, and never again once it has
/// been asked for.
pub proof fn lemma_at_most_one_send(
    stage: Stage,
    events: Seq<Event>,
    destination: Option<AccountId>,
)
    ensures
        sends(stage, events, destination) <= 1,
        rank(stage) >= 4 ==> sends(stage, events, destination) == 0,
    decreases events.len(),
{
    if events.len() > 0 {
        let after = next_stage(stage, events[0], destination);
        lemma_stages_advance(stage, events[0], destination);
        lemma_at_most_one_send(after, events.skip(1), destination);
    }
}

} // verus!
