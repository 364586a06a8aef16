//! The request serializer: a queue of submitted requests, served strictly
//! one after the other, each in a session of its own.
//!
//! The service is a state machine. Its model records, beside the state, the
//! history of what was submitted and of the sessions that were opened and
//! closed; the laws of the module are stated of that history.

use crate::account::account_parsed;
use crate::content::text_view;
use crate::processor::{
    action_of, next_stage, response, Action, ActionView, Config, ConfigView, Event, FatalError,
    Outcome, Processor, Stage, OutboundRequest, OutboundRequestView,
};
use std::collections::VecDeque;
use vstd::prelude::*;

verus! {

/// One entry of the history.
pub enum Mark {
    /// A request was accepted into the queue.
    Enqueued(OutboundRequestView),
    /// A session was opened for a request.
    Opened(OutboundRequestView),
    /// The open session was closed.
    Closed,
}

/// The state of the service, with its history.
pub struct Model {
    pub config: ConfigView,
    /// The requests that wait, oldest first.
    pub pending: Seq<OutboundRequestView>,
    /// The request in service and the stage it has reached.
    pub current: Option<(OutboundRequestView, Stage)>,
    /// Whether the queue takes no more requests.
    pub closed: bool,
    /// The failure that stopped the service.
    pub halted: Option<FatalError>,
    pub history: Seq<Mark>,
}

/// The requests that a history accepted, in the order of their acceptance.
pub open spec fn enqueued(history: Seq<Mark>) -> Seq<OutboundRequestView>
    decreases history.len(),
{
    if history.len() == 0 {
        Seq::empty()
    } else {
        match history.last() {
            Mark::Enqueued(request) => enqueued(history.drop_last()).push(request),
            _ => enqueued(history.drop_last()),
        }
    }
}

/// The requests for which a history opened a session, in the order of the
/// openings.
pub open spec fn opened(history: Seq<Mark>) -> Seq<OutboundRequestView>
    decreases history.len(),
{
    if history.len() == 0 {
        Seq::empty()
    } else {
        match history.last() {
            Mark::Opened(request) => opened(history.drop_last()).push(request),
            _ => opened(history.drop_last()),
        }
    }
}

/// The number of sessions that are open at the end of a history: those
/// opened less those closed.
pub open spec fn sessions_open(history: Seq<Mark>) -> int
    decreases history.len(),
{
    if history.len() == 0 {
        0
    } else {
        match history.last() {
            Mark::Opened(_) => sessions_open(history.drop_last()) + 1,
            Mark::Closed => sessions_open(history.drop_last()) - 1,
            Mark::Enqueued(_) => sessions_open(history.drop_last()),
        }
    }
}

/// The service at startup: nothing waits, nothing is served, nothing has
/// happened.
pub open spec fn initial(config: ConfigView) -> Model {
    Model {
        config,
        pending: Seq::empty(),
        current: None,
        closed: false,
        halted: None,
        history: Seq::empty(),
    }
}

/// The service after a request was handed in: it joins the end of the
/// queue, unless the queue is closed.
pub open spec fn submitted(m: Model, request: OutboundRequestView) -> Model {
    if m.closed {
        m
    } else {
        Model {
            pending: m.pending.push(request),
            history: m.history.push(Mark::Enqueued(request)),
            ..m
        }
    }
}

/// The service after its queue was closed.
pub open spec fn shut(m: Model) -> Model {
    Model { closed: true, ..m }
}

/// What an idle service does: it reports the failure that stopped it; else
/// opens a session for the oldest waiting request; else, with nothing
/// waiting, stops if the queue is closed and waits if it is not.
pub open spec fn dispatched(m: Model) -> (Model, ActionView) {
    if m.halted is Some {
        (m, ActionView::Abort(m.halted->0))
    } else if m.pending.len() > 0 {
        (
            Model {
                pending: m.pending.skip(1),
                current: Some((m.pending[0], Stage::OpeningStore)),
                history: m.history.push(Mark::Opened(m.pending[0])),
                ..m
            },
            action_of(Stage::OpeningStore, m.pending[0], m.config),
        )
    } else if m.closed {
        (m, ActionView::Terminate)
    } else {
        (m, ActionView::Wait)
    }
}

/// The service after an event, and the action it answers with. An idle
/// service dispatches. A service with a request in hand passes the event to
/// the request's processor; when that is done the session counts as closed,
/// and the service stops on a fatal outcome and dispatches on any other.
pub open spec fn stepped(m: Model, event: Event) -> (Model, ActionView) {
    match m.current {
        None => dispatched(m),
        Some((request, stage)) => {
            let after = next_stage(stage, event, account_parsed(request.destination));
            match after {
                Stage::Done(outcome) => {
                    let idle = Model {
                        current: None,
                        history: m.history.push(Mark::Closed),
                        ..m
                    };
                    match outcome {
                        Outcome::Fatal(error) => (
                            Model { halted: Some(error), ..idle },
                            ActionView::Abort(error),
                        ),
                        _ => dispatched(idle),
                    }
                },
                _ => (
                    Model { current: Some((request, after)), ..m },
                    response(stage, after, request, m.config),
                ),
            }
        },
    }
}

/// What holds of every state that the service reaches.
pub open spec fn inv(m: Model) -> bool {
    &&& opened(m.history) + m.pending == enqueued(m.history)
    &&& forall|k: int|
        0 <= k <= m.history.len() ==> 0 <= #[trigger] sessions_open(m.history.take(k)) <= 1
    &&& sessions_open(m.history) == (if m.current is Some {
        1int
    } else {
        0int
    })
    &&& m.current matches Some((request, stage)) ==> {
        &&& !(stage is Done)
        &&& opened(m.history).len() > 0
        &&& opened(m.history).last() == request
    }
    &&& m.halted is Some ==> m.current is None
}

proof fn lemma_push(history: Seq<Mark>, mark: Mark)
    ensures
        enqueued(history.push(mark)) == (match mark {
            Mark::Enqueued(request) => enqueued(history).push(request),
            _ => enqueued(history),
        }),
        opened(history.push(mark)) == (match mark {
            Mark::Opened(request) => opened(history).push(request),
            _ => opened(history),
        }),
        sessions_open(history.push(mark)) == sessions_open(history) + (match mark {
            Mark::Opened(_) => 1int,
            Mark::Closed => -1int,
            Mark::Enqueued(_) => 0int,
        }),
        forall|k: int| 0 <= k <= history.len() ==> #[trigger] history.push(mark).take(k) == history.take(k),
        history.push(mark).take(history.len() as int + 1) == history.push(mark),
        history.take(history.len() as int) == history,
{
    assert(history.push(mark).drop_last() =~= history);
    assert(history.push(mark).last() == mark);
    assert forall|k: int| 0 <= k <= history.len() implies #[trigger] history.push(mark).take(k)
        == history.take(k) by {
        assert(history.push(mark).take(k) =~= history.take(k));
    }
    assert(history.push(mark).take(history.len() as int + 1) =~= history.push(mark));
    assert(history.take(history.len() as int) =~= history);
}

/// The service starts in a state where the invariant holds.
pub proof fn lemma_initial_inv(config: ConfigView)
    ensures
        inv(initial(config)),
{
    let m = initial(config);
    assert(opened(m.history) + m.pending =~= enqueued(m.history));
    assert forall|k: int| 0 <= k <= m.history.len() implies 0 <= #[trigger] sessions_open(
        m.history.take(k),
    ) <= 1 by {
        assert(m.history.take(k) =~= m.history);
    }
}

/// Handing in a request keeps the invariant.
pub proof fn lemma_submitted_inv(m: Model, request: OutboundRequestView)
    requires
        inv(m),
    ensures
        inv(submitted(m, request)),
{
    if !m.closed {
        let after = submitted(m, request);
        lemma_push(m.history, Mark::Enqueued(request));
        assert(opened(after.history) + after.pending =~= enqueued(after.history));
        assert forall|k: int| 0 <= k <= after.history.len() implies 0 <= #[trigger] sessions_open(
            after.history.take(k),
        ) <= 1 by {
            if k <= m.history.len() {
                assert(after.history.take(k) == m.history.take(k));
            }
        }
    }
}

/// Closing the queue keeps the invariant.
pub proof fn lemma_shut_inv(m: Model)
    requires
        inv(m),
    ensures
        inv(shut(m)),
{
}

proof fn lemma_dispatched_inv(m: Model)
    requires
        inv(m),
        m.current is None,
    ensures
        inv(dispatched(m).0),
{
    if m.halted is None && m.pending.len() > 0 {
        let after = dispatched(m).0;
        let request = m.pending[0];
        lemma_push(m.history, Mark::Opened(request));
        assert(opened(after.history) + after.pending =~= opened(m.history) + m.pending);
        assert forall|k: int| 0 <= k <= after.history.len() implies 0 <= #[trigger] sessions_open(
            after.history.take(k),
        ) <= 1 by {
            if k <= m.history.len() {
                assert(after.history.take(k) == m.history.take(k));
            }
        }
    }
}

/// Every step keeps the invariant.
pub proof fn lemma_stepped_inv(m: Model, event: Event)
    requires
        inv(m),
    ensures
        inv(stepped(m, event).0),
{
    match m.current {
        None => {
            lemma_dispatched_inv(m);
        },
        Some((request, stage)) => {
            let after = next_stage(stage, event, account_parsed(request.destination));
            match after {
                Stage::Done(outcome) => {
                    let idle = Model {
                        current: None,
                        history: m.history.push(Mark::Closed),
                        ..m
                    };
                    lemma_push(m.history, Mark::Closed);
                    assert forall|k: int| 0 <= k <= idle.history.len() implies 0
                        <= #[trigger] sessions_open(idle.history.take(k)) <= 1 by {
                        if k <= m.history.len() {
                            assert(idle.history.take(k) == m.history.take(k));
                        }
                    }
                    assert(inv(idle));
                    match outcome {
                        Outcome::Fatal(error) => {},
                        _ => {
                            lemma_dispatched_inv(idle);
                        },
                    }
                },
                _ => {},
            }
        },
    }
}

/// Sessions are opened in the order in which the requests were accepted:
/// the requests served so far are the first of those accepted, and once
/// nothing waits they are all of them.
pub proof fn lemma_sessions_follow_queue(m: Model)
    requires
        inv(m),
    ensures
        opened(m.history).len() <= enqueued(m.history).len(),
        opened(m.history) == enqueued(m.history).take(opened(m.history).len() as int),
        m.pending.len() == 0 ==> opened(m.history) == enqueued(m.history),
{
    let served = opened(m.history);
    assert((served + m.pending).take(served.len() as int) =~= served);
    if m.pending.len() == 0 {
        assert(served + m.pending =~= served);
    }
}

/// At no point of the history were two sessions open at once.
pub proof fn lemma_one_session_at_a_time(m: Model, k: int)
    requires
        inv(m),
        0 <= k <= m.history.len(),
    ensures
        0 <= sessions_open(m.history.take(k)) <= 1,
{
}

/// One thing that can happen to the service.
pub enum Op {
    Submit(OutboundRequestView),
    Shut,
    Step(Event),
}

/// The state that the service reaches from startup through `ops`.
pub open spec fn reached(config: ConfigView, ops: Seq<Op>) -> Model
    decreases ops.len(),
{
    if ops.len() == 0 {
        initial(config)
    } else {
        let before = reached(config, ops.drop_last());
        match ops.last() {
            Op::Submit(request) => submitted(before, request),
            Op::Shut => shut(before),
            Op::Step(event) => stepped(before, event).0,
        }
    }
}

/// The invariant holds in every state that the service can reach.
pub proof fn lemma_reached_inv(config: ConfigView, ops: Seq<Op>)
    ensures
        inv(reached(config, ops)),
    decreases ops.len(),
{
    if ops.len() == 0 {
        lemma_initial_inv(config);
    } else {
        let before = reached(config, ops.drop_last());
        lemma_reached_inv(config, ops.drop_last());
        match ops.last() {
            Op::Submit(request) => lemma_submitted_inv(before, request),
            Op::Shut => lemma_shut_inv(before),
            Op::Step(event) => lemma_stepped_inv(before, event),
        }
    }
}

/// The views of a queue of requests.
pub open spec fn queue_view(queue: Seq<OutboundRequest>) -> Seq<OutboundRequestView> {
    Seq::new(queue.len(), |i: int| queue[i]@)
}

/// The request serializer. It owns the queue of submitted requests and the
/// processing of the one request that is being served.
pub struct SignalServiceWrapper {
    config: Config,
    queue: VecDeque<OutboundRequest>,
    current: Option<Processor>,
    closed: bool,
    halted: Option<FatalError>,
    history: Ghost<Seq<Mark>>,
}

impl View for SignalServiceWrapper {
    type V = Model;

    closed spec fn view(&self) -> Model {
        Model {
            config: self.config@,
            pending: queue_view(self.queue@),
            current: match self.current {
                Some(processor) => Some((processor.request@, processor.stage)),
                None => None,
            },
            closed: self.closed,
            halted: self.halted,
            history: self.history@,
        }
    }
}

impl SignalServiceWrapper {
    /// A service for the store at `db_path`, with an empty queue.
    pub fn new(db_path: String, passphrase: Option<String>) -> (r: SignalServiceWrapper)
        ensures
            r@ == initial(ConfigView { db_path: db_path@, passphrase: text_view(passphrase) }),
            inv(r@),
    {
        let r = SignalServiceWrapper {
            config: Config { db_path, passphrase },
            queue: VecDeque::new(),
            current: None,
            closed: false,
            halted: None,
            history: Ghost(Seq::empty()),
        };
        proof {
            assert(r@.pending =~= Seq::empty());
            lemma_initial_inv(r@.config);
        }
        r
    }

    /// The configuration that the service was made with.
    pub fn config(&self) -> (r: &Config)
        ensures
            r@ == self@.config,
    {
        &self.config
    }

    /// The number of requests that wait.
    pub fn pending(&self) -> (r: usize)
        ensures
            r == self@.pending.len(),
    {
        self.queue.len()
    }

    /// Whether a request is being served.
    pub fn in_session(&self) -> (r: bool)
        ensures
            r == self@.current is Some,
    {
        self.current.is_some()
    }

    /// Hands in a request. It joins the end of the queue and waits its turn;
    /// a closed queue takes nothing. Never waits.
    pub fn enqueue(&mut self, request: OutboundRequest) -> (accepted: bool)
        ensures
            final(self)@ == submitted(old(self)@, request@),
            accepted == !old(self)@.closed,
            inv(old(self)@) ==> inv(final(self)@),
    {
        proof {
            if inv(self@) {
                lemma_submitted_inv(self@, request@);
            }
        }
        if self.closed {
            false
        } else {
            self.history = Ghost(self.history@.push(Mark::Enqueued(request@)));
            self.queue.push_back(request);
            proof {
                assert(self@.pending =~= old(self)@.pending.push(request@));
            }
            true
        }
    }

    /// Closes the queue: what waits is still served, nothing more is taken.
    pub fn close(&mut self)
        ensures
            final(self)@ == shut(old(self)@),
            inv(old(self)@) ==> inv(final(self)@),
    {
        self.closed = true;
    }

    fn dispatch(&mut self) -> (action: Action)
        requires
            old(self)@.current is None,
        ensures
            (final(self)@, action@) == dispatched(old(self)@),
    {
        if let Some(error) = self.halted {
            return Action::Abort(error);
        }
        match self.queue.pop_front() {
            Some(request) => {
                self.history = Ghost(self.history@.push(Mark::Opened(request@)));
                let processor = Processor::new(request);
                let action = processor.action(&self.config);
                self.current = Some(processor);
                proof {
                    assert(self@.pending =~= old(self)@.pending.skip(1));
                }
                action
            },
            None => {
                proof {
                    assert(self@.pending =~= old(self)@.pending);
                }
                if self.closed {
                    Action::Terminate
                } else {
                    Action::Wait
                }
            },
        }
    }

    /// Takes one event and answers with the action to perform next. The
    /// requests are served in the order in which they were handed in, and a
    /// session is opened only when the one before it has been closed.
    pub fn step(&mut self, event: Event) -> (action: Action)
        ensures
            (final(self)@, action@) == stepped(old(self)@, event),
            inv(old(self)@) ==> inv(final(self)@),
    {
        proof {
            if inv(self@) {
                lemma_stepped_inv(self@, event);
            }
        }
        match self.current.take() {
            None => self.dispatch(),
            Some(processor) => {
                let mut processor = processor;
                let action = processor.handle(event, &self.config);
                match processor.outcome() {
                    Some(outcome) => {
                        self.history = Ghost(self.history@.push(Mark::Closed));
                        match outcome {
                            Outcome::Fatal(error) => {
                                self.halted = Some(error);
                                Action::Abort(error)
                            },
                            _ => self.dispatch(),
                        }
                    },
                    None => {
                        self.current = Some(processor);
                        action
                    },
                }
            },
        }
    }
}

} // verus!
