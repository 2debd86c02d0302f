//! The shutdown coordinator: the first termination signal becomes one
//! graceful-shutdown delivery; later signals are ignored.

use vstd::prelude::*;

verus! {

/// Where the coordinator stands.
#[derive(Clone, Copy, Debug, PartialEq, Eq, Structural)]
pub enum ShutdownState {
    /// The signal subscription is being set up.
    Subscribing,
    /// Subscribed, waiting for a termination signal.
    Armed,
    /// A termination signal came (or the signal stream ended); the
    /// subscription is being closed.
    Triggered,
    /// The shutdown was delivered to the server loop.
    Done,
    /// No subscription could be set up: the server runs on without graceful
    /// shutdown.
    Unavailable,
}

/// What the environment reports to the coordinator.
#[derive(Clone, Copy, Debug, PartialEq, Eq, Structural)]
pub enum ShutdownEvent {
    /// The subscription to the termination signals was set up.
    Subscribed,
    /// The subscription to the termination signals could not be set up.
    SubscriptionFailed,
    /// A termination signal with this number arrived.
    Signal(i32),
    /// The signal stream ended without a signal.
    StreamEnded,
    /// The subscription was closed.
    Closed,
}

/// What the coordinator asks of the environment.
#[derive(Clone, Copy, Debug, PartialEq, Eq, Structural)]
pub enum ShutdownAction {
    /// Wait for the next termination signal.
    AwaitSignal,
    /// Report that graceful shutdown is unavailable, and never deliver.
    ServeWithoutShutdown,
    /// Close the subscription; holds the signal that caused it, if any.
    CloseSubscription(Option<i32>),
    /// Tell the server loop to stop accepting and drain.
    Deliver,
    /// Nothing to do.
    Ignore,
}

/// A state machine from termination signals to a single shutdown delivery.
#[derive(Clone, Copy, Debug, PartialEq, Eq, Structural)]
pub struct ShutdownCoordinator {
    pub state: ShutdownState,
}

impl ShutdownCoordinator {
    /// The coordinator's next state and its action on `e`.
    pub open spec fn next(self, e: ShutdownEvent) -> (ShutdownCoordinator, ShutdownAction) {
        let to = |s: ShutdownState| ShutdownCoordinator { state: s };
        match (self.state, e) {
            (ShutdownState::Subscribing, ShutdownEvent::Subscribed) =>
                (to(ShutdownState::Armed), ShutdownAction::AwaitSignal),
            (ShutdownState::Subscribing, ShutdownEvent::SubscriptionFailed) =>
                (to(ShutdownState::Unavailable), ShutdownAction::ServeWithoutShutdown),
            (ShutdownState::Armed, ShutdownEvent::Signal(n)) =>
                (to(ShutdownState::Triggered), ShutdownAction::CloseSubscription(Some(n))),
            (ShutdownState::Armed, ShutdownEvent::StreamEnded) =>
                (to(ShutdownState::Triggered), ShutdownAction::CloseSubscription(None)),
            (ShutdownState::Triggered, ShutdownEvent::Closed) =>
                (to(ShutdownState::Done), ShutdownAction::Deliver),
            _ => (self, ShutdownAction::Ignore),
        }
    }

    /// The state after `events` and the actions taken on them, in order.
    pub open spec fn run(self, events: Seq<ShutdownEvent>) -> (ShutdownCoordinator, Seq<ShutdownAction>)
        decreases events.len(),
    {
        if events.len() == 0 {
            (self, Seq::empty())
        } else {
            let (s, a) = self.next(events[0]);
            let (t, rest) = s.run(events.drop_first());
            (t, seq![a].add(rest))
        }
    }

    /// A coordinator that has not subscribed yet.
    pub fn new() -> (r: ShutdownCoordinator)
        ensures
            r.state == ShutdownState::Subscribing,
    {
        ShutdownCoordinator { state: ShutdownState::Subscribing }
    }

    /// Moves on `e` and returns what to do.
    pub fn step(&mut self, e: ShutdownEvent) -> (r: ShutdownAction)
        ensures
            (*final(self), r) == old(self).next(e),
    {
        match (self.state, e) {
            (ShutdownState::Subscribing, ShutdownEvent::Subscribed) => {
                self.state = ShutdownState::Armed;
                ShutdownAction::AwaitSignal
            },
            (ShutdownState::Subscribing, ShutdownEvent::SubscriptionFailed) => {
                self.state = ShutdownState::Unavailable;
                ShutdownAction::ServeWithoutShutdown
            },
            (ShutdownState::Armed, ShutdownEvent::Signal(n)) => {
                self.state = ShutdownState::Triggered;
                ShutdownAction::CloseSubscription(Some(n))
            },
            (ShutdownState::Armed, ShutdownEvent::StreamEnded) => {
                self.state = ShutdownState::Triggered;
                ShutdownAction::CloseSubscription(None)
            },
            (ShutdownState::Triggered, ShutdownEvent::Closed) => {
                self.state = ShutdownState::Done;
                ShutdownAction::Deliver
            },
            _ => ShutdownAction::Ignore,
        }
    }

    /// Whether the shutdown was delivered.
    pub fn is_done(&self) -> (r: bool)
        ensures
            r == (self.state == ShutdownState::Done),
    {
        self.state == ShutdownState::Done
    }
}

/// How many deliveries `actions` holds.
pub open spec fn deliveries(actions: Seq<ShutdownAction>) -> nat
    decreases actions.len(),
{
    if actions.len() == 0 {
        0
    } else {
        (if actions[0] == ShutdownAction::Deliver { 1nat } else { 0nat }) + deliveries(actions.drop_first())
    }
}

/// How many deliveries can still come from a coordinator in state `s`.
pub open spec fn deliveries_left(s: ShutdownState) -> nat {
    match s {
        ShutdownState::Done | ShutdownState::Unavailable => 0,
        _ => 1,
    }
}

/// From any state, no more deliveries come than that state has left.
pub proof fn lemma_deliveries_bounded(c: ShutdownCoordinator, events: Seq<ShutdownEvent>)
    ensures
        deliveries(c.run(events).1) <= deliveries_left(c.state),
    decreases events.len(),
{
    if events.len() > 0 {
        let (s, a) = c.next(events[0]);
        lemma_deliveries_bounded(s, events.drop_first());
        let acts = c.run(events).1;
        assert(acts.drop_first() == s.run(events.drop_first()).1);
    }
}

/// Shutdown is delivered at most once in the life of a coordinator, whatever
/// signals and reports arrive.
pub proof fn lemma_at_most_one_delivery(events: Seq<ShutdownEvent>)
    ensures
        deliveries(ShutdownCoordinator { state: ShutdownState::Subscribing }.run(events).1) <= 1,
{
    lemma_deliveries_bounded(ShutdownCoordinator { state: ShutdownState::Subscribing }, events);
}

/// Once a termination signal has been taken, any further signal changes
/// nothing and asks for nothing.
pub proof fn lemma_later_signal_ignored(c: ShutdownCoordinator, n: i32)
    requires
        c.state != ShutdownState::Subscribing,
        c.state != ShutdownState::Armed,
    ensures
        c.next(ShutdownEvent::Signal(n)) == (c, ShutdownAction::Ignore),
{
}

/// After a first signal is taken, a second one has no effect: neither on the
/// state nor on what is asked.
pub proof fn lemma_second_signal_no_effect(first: i32, second: i32)
    ensures
        ({
            let armed = ShutdownCoordinator { state: ShutdownState::Armed };
            let (after_first, a) = armed.next(ShutdownEvent::Signal(first));
            &&& a == ShutdownAction::CloseSubscription(Some(first))
            &&& after_first.next(ShutdownEvent::Signal(second)) == (after_first, ShutdownAction::Ignore)
        }),
{
}

} // verus!
