//! The startup sequence: identity bootstrap, pipeline assembly, listener
//! bootstrap and serving, decided one event at a time.

use vstd::prelude::*;

use crate::address::IpAddress;
use crate::address::SocketAddress;
use crate::config::Config;
use crate::config::OidcConfig;
use crate::error::StartServerError;
use crate::pipeline::IdentityMode;

verus! {

/// Where startup stands.
#[derive(Clone, Copy, Debug, PartialEq, Eq, Structural)]
pub enum StartupPhase {
    /// Nothing was done yet.
    Idle,
    /// One discovery request to the identity provider is outstanding.
    Discovering,
    /// The pipeline is assembled and the socket is being bound.
    Binding,
    /// The server loop runs.
    Serving,
    /// The server loop returned after a graceful shutdown.
    Stopped,
    /// Startup or serving failed; nothing more is done.
    Failed,
}

/// What the environment reports to startup.
#[derive(Debug, PartialEq, Eq)]
pub enum StartupEvent {
    /// Start.
    Begin,
    /// The discovery request finished: `Ok` with a client built from the
    /// provider's metadata, or the failure's message.
    DiscoveryFinished(Result<(), String>),
    /// Binding the socket finished, or failed with the system's message.
    BindFinished(Result<(), String>),
    /// The server loop returned, or failed with the system's message.
    ServingFinished(Result<(), String>),
}

/// What startup asks of the environment.
#[derive(Debug, PartialEq, Eq)]
pub enum StartupAction {
    /// Make one discovery request with these settings and build a client.
    Discover(OidcConfig),
    /// Assemble the pipeline for `identity`, then bind a socket to `addr`.
    AssembleAndBind { identity: IdentityMode, addr: SocketAddress },
    /// Serve on the bound socket until shutdown is delivered.
    Serve,
    /// Startup is over with success.
    Finish,
    /// Startup is over with this error.
    Abort(StartServerError),
    /// Nothing to do: the event was not expected here.
    Ignore,
}

/// The state of startup: the configuration, the listen address as parsed
/// from the configuration's text (`None` where it is no IP address), the
/// phase, and whether an identity provider client exists.
#[derive(Debug, PartialEq, Eq)]
pub struct Startup {
    pub config: Config,
    pub address: Option<IpAddress>,
    pub phase: StartupPhase,
    pub identity: IdentityMode,
}

impl Startup {
    /// Startup before anything is done.
    pub open spec fn initial(config: Config, address: Option<IpAddress>) -> Startup {
        Startup { config, address, phase: StartupPhase::Idle, identity: IdentityMode::Disabled }
    }

    /// With the pipeline assembled for `identity`: bind where the address
    /// parsed, else fail as an invalid address.
    pub open spec fn listen(self, identity: IdentityMode) -> (Startup, StartupAction) {
        match self.address {
            Some(ip) => (
                Startup { phase: StartupPhase::Binding, identity, ..self },
                StartupAction::AssembleAndBind {
                    identity,
                    addr: SocketAddress { ip, port: self.config.server.listen_port },
                },
            ),
            None => (
                Startup { phase: StartupPhase::Failed, identity, ..self },
                StartupAction::Abort(
                    StartServerError::InvalidAddress(self.config.server.listen_address),
                ),
            ),
        }
    }

    /// Startup after `e`, and its action on it.
    pub open spec fn next(self, e: StartupEvent) -> (Startup, StartupAction) {
        match (self.phase, e) {
            (StartupPhase::Idle, StartupEvent::Begin) => match self.config.openid_connect {
                Some(o) => (Startup { phase: StartupPhase::Discovering, ..self }, StartupAction::Discover(o)),
                None => self.listen(IdentityMode::Disabled),
            },
            (StartupPhase::Discovering, StartupEvent::DiscoveryFinished(outcome)) => match outcome {
                Ok(_) => self.listen(IdentityMode::Enabled),
                Err(m) => (
                    Startup { phase: StartupPhase::Failed, ..self },
                    StartupAction::Abort(StartServerError::OidcConnectionFailed(m)),
                ),
            },
            (StartupPhase::Binding, StartupEvent::BindFinished(outcome)) => match outcome {
                Ok(_) => (Startup { phase: StartupPhase::Serving, ..self }, StartupAction::Serve),
                Err(m) => (
                    Startup { phase: StartupPhase::Failed, ..self },
                    StartupAction::Abort(StartServerError::Io(m)),
                ),
            },
            (StartupPhase::Serving, StartupEvent::ServingFinished(outcome)) => match outcome {
                Ok(_) => (Startup { phase: StartupPhase::Stopped, ..self }, StartupAction::Finish),
                Err(m) => (
                    Startup { phase: StartupPhase::Failed, ..self },
                    StartupAction::Abort(StartServerError::Io(m)),
                ),
            },
            _ => (self, StartupAction::Ignore),
        }
    }

    /// Startup after `events`, and the actions taken on them, in order.
    pub open spec fn run(self, events: Seq<StartupEvent>) -> (Startup, Seq<StartupAction>)
        decreases events.len(),
    {
        if events.len() == 0 {
            (self, Seq::empty())
        } else {
            let (s, a) = self.next(events[0]);
            let (t, rest) = s.run(events.drop_first());
            (t, seq![a].add(rest))
        }
    }

    /// Startup of `config`, where `address` is its listen address as parsed.
    pub fn new(config: Config, address: Option<IpAddress>) -> (r: Startup)
        ensures
            r == Startup::initial(config, address),
    {
        Startup { config, address, phase: StartupPhase::Idle, identity: IdentityMode::Disabled }
    }

    fn listen_exec(&mut self, identity: IdentityMode) -> (r: StartupAction)
        ensures
            (*final(self), r) == old(self).listen(identity),
    {
        self.identity = identity;
        match self.address {
            Some(ip) => {
                self.phase = StartupPhase::Binding;
                StartupAction::AssembleAndBind {
                    identity,
                    addr: SocketAddress::new(ip, self.config.server.listen_port),
                }
            },
            None => {
                self.phase = StartupPhase::Failed;
                StartupAction::Abort(
                    StartServerError::InvalidAddress(self.config.server.listen_address.clone()),
                )
            },
        }
    }

    /// Moves on `e` and returns what to do.
    pub fn step(&mut self, e: StartupEvent) -> (r: StartupAction)
        ensures
            (*final(self), r) == old(self).next(e),
    {
        match (self.phase, e) {
            (StartupPhase::Idle, StartupEvent::Begin) => match &self.config.openid_connect {
                Some(o) => {
                    let o = o.duplicate();
                    self.phase = StartupPhase::Discovering;
                    StartupAction::Discover(o)
                },
                None => self.listen_exec(IdentityMode::Disabled),
            },
            (StartupPhase::Discovering, StartupEvent::DiscoveryFinished(outcome)) => match outcome {
                Ok(_) => self.listen_exec(IdentityMode::Enabled),
                Err(m) => {
                    self.phase = StartupPhase::Failed;
                    StartupAction::Abort(StartServerError::OidcConnectionFailed(m))
                },
            },
            (StartupPhase::Binding, StartupEvent::BindFinished(outcome)) => match outcome {
                Ok(_) => {
                    self.phase = StartupPhase::Serving;
                    StartupAction::Serve
                },
                Err(m) => {
                    self.phase = StartupPhase::Failed;
                    StartupAction::Abort(StartServerError::Io(m))
                },
            },
            (StartupPhase::Serving, StartupEvent::ServingFinished(outcome)) => match outcome {
                Ok(_) => {
                    self.phase = StartupPhase::Stopped;
                    StartupAction::Finish
                },
                Err(m) => {
                    self.phase = StartupPhase::Failed;
                    StartupAction::Abort(StartServerError::Io(m))
                },
            },
            _ => StartupAction::Ignore,
        }
    }
}

/// The events of a startup that reaches the listener: discovery succeeds
/// where an identity provider is configured, then binding ends with `bind`.
pub open spec fn events_to_listener(config: Config, bind: Result<(), String>) -> Seq<StartupEvent> {
    match config.openid_connect {
        Some(_) => seq![
            StartupEvent::Begin,
            StartupEvent::DiscoveryFinished(Ok(())),
            StartupEvent::BindFinished(bind),
        ],
        None => seq![StartupEvent::Begin, StartupEvent::BindFinished(bind)],
    }
}

/// The position, among the events of [`events_to_listener`], of the one on
/// which the listen address is decided.
pub open spec fn listener_step(config: Config) -> int {
    if config.openid_connect is Some { 1 } else { 0 }
}

/// Whether `a` opens a socket.
pub open spec fn opens_socket(a: StartupAction) -> bool {
    a is AssembleAndBind
}

/// One step of a run: the first event's action, then the rest's.
proof fn lemma_run_step(s: Startup, events: Seq<StartupEvent>)
    requires
        events.len() > 0,
    ensures
        s.run(events).0 == s.next(events[0]).0.run(events.drop_first()).0,
        s.run(events).1 == seq![s.next(events[0]).1] + s.next(events[0]).0.run(events.drop_first()).1,
{
}

/// A run takes one action per event.
proof fn lemma_run_len(s: Startup, events: Seq<StartupEvent>)
    ensures
        s.run(events).1.len() == events.len(),
    decreases events.len(),
{
    if events.len() > 0 {
        lemma_run_len(s.next(events[0]).0, events.drop_first());
    }
}

/// The actions taken on the first events, then on the rest.
proof fn lemma_run_split(s: Startup, first: Seq<StartupEvent>, rest: Seq<StartupEvent>)
    ensures
        s.run(first + rest).0 == s.run(first).0.run(rest).0,
        s.run(first + rest).1 == s.run(first).1 + s.run(first).0.run(rest).1,
    decreases first.len(),
{
    if first.len() == 0 {
        assert(first + rest =~= rest);
        assert(s.run(first).1 + s.run(rest).1 =~= s.run(rest).1);
    } else {
        let (t, a) = s.next(first[0]);
        assert((first + rest).drop_first() =~= first.drop_first() + rest);
        lemma_run_split(t, first.drop_first(), rest);
        assert(s.run(first + rest).1 =~= s.run(first).1 + s.run(first).0.run(rest).1);
    }
}

/// A failed startup stays failed and asks for nothing more.
proof fn lemma_failed_is_final(s: Startup, events: Seq<StartupEvent>)
    requires
        s.phase == StartupPhase::Failed,
    ensures
        s.run(events).0 == s,
        forall|i: int| 0 <= i < events.len() ==> #[trigger] s.run(events).1[i] is Ignore,
    decreases events.len(),
{
    if events.len() > 0 {
        let rest = events.drop_first();
        lemma_run_step(s, events);
        lemma_run_len(s, rest);
        lemma_failed_is_final(s, rest);
        assert(s.next(events[0]) == (s, StartupAction::Ignore));
        assert forall|i: int| 0 <= i < events.len() implies #[trigger] s.run(events).1[i] is Ignore by {
            if i > 0 {
                assert(s.run(events).1[i] == s.run(rest).1[i - 1]);
            }
        }
    }
}

/// Without an identity provider in the configuration, startup never makes a
/// discovery request, whatever happens.
pub proof fn lemma_disabled_identity_never_discovers(
    config: Config,
    address: Option<IpAddress>,
    events: Seq<StartupEvent>,
)
    requires
        config.openid_connect is None,
    ensures
        forall|i: int|
            0 <= i < events.len() ==> !(#[trigger] Startup::initial(config, address).run(events).1[i] is Discover),
{
    lemma_no_discovery_without_provider(Startup::initial(config, address), events);
}

proof fn lemma_no_discovery_without_provider(s: Startup, events: Seq<StartupEvent>)
    requires
        s.config.openid_connect is None,
    ensures
        forall|i: int| 0 <= i < events.len() ==> !(#[trigger] s.run(events).1[i] is Discover),
    decreases events.len(),
{
    if events.len() > 0 {
        let (t, a) = s.next(events[0]);
        lemma_run_step(s, events);
        lemma_run_len(t, events.drop_first());
        lemma_no_discovery_without_provider(t, events.drop_first());
        assert forall|i: int| 0 <= i < events.len() implies !(#[trigger] s.run(events).1[i] is Discover) by {
            if i > 0 {
                assert(s.run(events).1[i] == t.run(events.drop_first()).1[i - 1]);
            }
        }
    }
}

/// Where discovery fails, startup aborts with the identity provider's error
/// and never opens a socket, whatever happens after.
pub proof fn lemma_failed_discovery_never_listens(
    config: Config,
    address: Option<IpAddress>,
    message: String,
    later: Seq<StartupEvent>,
)
    requires
        config.openid_connect is Some,
    ensures
        ({
            let first = seq![StartupEvent::Begin, StartupEvent::DiscoveryFinished(Err(message))];
            let (s, actions) = Startup::initial(config, address).run(first + later);
            &&& s.phase == StartupPhase::Failed
            &&& actions[1] == StartupAction::Abort(StartServerError::OidcConnectionFailed(message))
            &&& forall|i: int| 0 <= i < actions.len() ==> !opens_socket(#[trigger] actions[i])
        }),
{
    let init = Startup::initial(config, address);
    let first = seq![StartupEvent::Begin, StartupEvent::DiscoveryFinished(Err(message))];
    let (s1, a1) = init.next(first[0]);
    let (s2, a2) = s1.next(first[1]);
    assert(init.run(first).0 == s2 && init.run(first).1 =~= seq![a1, a2]) by {
        let tail = first.drop_first();
        assert(tail.drop_first() =~= Seq::<StartupEvent>::empty());
        assert(tail[0] == first[1]);
        lemma_run_step(init, first);
        lemma_run_step(s1, tail);
    }
    lemma_run_split(init, first, later);
    lemma_run_len(s2, later);
    lemma_failed_is_final(s2, later);
    let actions = init.run(first + later).1;
    assert forall|i: int| 0 <= i < actions.len() implies !opens_socket(#[trigger] actions[i]) by {
        if i >= 2 {
            assert(actions[i] == s2.run(later).1[i - 2]);
        }
    }
}

/// How many discovery requests `actions` holds.
pub open spec fn discoveries(actions: Seq<StartupAction>) -> nat
    decreases actions.len(),
{
    if actions.len() == 0 {
        0
    } else {
        (if actions[0] is Discover { 1nat } else { 0nat }) + discoveries(actions.drop_first())
    }
}

proof fn lemma_discoveries_bounded(s: Startup, events: Seq<StartupEvent>)
    ensures
        discoveries(s.run(events).1) <= (if s.phase == StartupPhase::Idle { 1nat } else { 0nat }),
    decreases events.len(),
{
    if events.len() > 0 {
        let (t, a) = s.next(events[0]);
        lemma_run_step(s, events);
        lemma_discoveries_bounded(t, events.drop_first());
        assert(s.run(events).1.drop_first() =~= t.run(events.drop_first()).1);
    }
}

/// Startup makes at most one discovery request, whatever happens, so at
/// most one identity provider client is built.
pub proof fn lemma_at_most_one_discovery(
    config: Config,
    address: Option<IpAddress>,
    events: Seq<StartupEvent>,
)
    ensures
        discoveries(Startup::initial(config, address).run(events).1) <= 1,
{
    lemma_discoveries_bounded(Startup::initial(config, address), events);
}

/// Listener bootstrap: startup reaches the serving phase exactly when the
/// listen address parsed and the socket was bound. An address that does not
/// parse is reported as an invalid address, never as an I/O failure; a bind
/// failure is reported as an I/O failure.
pub proof fn lemma_listener_bootstrap(
    config: Config,
    address: Option<IpAddress>,
    bind: Result<(), String>,
)
    ensures
        ({
            let (s, actions) = Startup::initial(config, address).run(events_to_listener(config, bind));
            &&& (s.phase == StartupPhase::Serving) <==> (address is Some && bind is Ok)
            &&& address is None ==> actions[listener_step(config)] == StartupAction::Abort(
                StartServerError::InvalidAddress(config.server.listen_address),
            )
            &&& address is None ==> forall|i: int| 0 <= i < actions.len() ==> !opens_socket(#[trigger] actions[i])
            &&& address is Some ==> opens_socket(actions[listener_step(config)])
            &&& (address is Some && bind is Err) ==> actions[listener_step(config) + 1] == StartupAction::Abort(
                StartServerError::Io(bind->Err_0),
            )
        }),
{
    let init = Startup::initial(config, address);
    let events = events_to_listener(config, bind);
    let e1 = events.drop_first();
    let e2 = e1.drop_first();
    lemma_run_step(init, events);
    let (s1, a1) = init.next(events[0]);
    lemma_run_step(s1, e1);
    let (s2, a2) = s1.next(e1[0]);
    if e2.len() > 0 {
        lemma_run_step(s2, e2);
        assert(e2.drop_first() =~= Seq::<StartupEvent>::empty());
        let (s3, a3) = s2.next(e2[0]);
        assert(init.run(events).1 =~= seq![a1, a2, a3]);
    } else {
        assert(init.run(events).1 =~= seq![a1, a2]);
    }
}

} // verus!
