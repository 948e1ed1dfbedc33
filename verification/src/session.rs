use vstd::prelude::*;

use crate::latency::{LatencyWatch, WatchEvent};
use crate::Token;

verus! {

/// What a session does besides connecting and relaying.
#[derive(Debug, Clone, Copy, PartialEq, Eq, Structural)]
pub struct SessionOptions {
    /// A hook runs before the first attempt to connect.
    pub hook: bool,
    /// The proxy protocol is handled once the connection stands.
    pub proxy: bool,
    /// The relay goes through a transport.
    pub transport: bool,
    /// The limit for the latency, in milliseconds, if latency-based failover is on.
    pub max_latency_ms: Option<u32>,
}

/// How to relay.
#[derive(Debug, Clone, Copy, PartialEq, Eq, Structural)]
pub enum RelayMode {
    /// Through the transport.
    Transport,
    /// Plainly, watching for the first byte within this many milliseconds.
    Timed(u32),
    /// Plainly.
    Plain,
}

/// What to tell the balancer of a peer.
#[derive(Debug, Clone, Copy, PartialEq, Eq, Structural)]
pub enum Feedback {
    Success(Token),
    Failure(Token),
}

/// How a session ends.
#[derive(Debug, Clone, Copy, PartialEq, Eq, Structural)]
pub enum Ending {
    /// A step before the relay failed: its error is the session's.
    Failed,
    /// The relay is over, well or not, and the session succeeds; what to tell the
    /// balancer before.
    Relayed(Option<Feedback>),
}

/// What is to be done next.
#[derive(Debug, Clone, Copy, PartialEq, Eq, Structural)]
pub enum Phase {
    /// Run the pre-connect hook.
    Hook,
    /// Connect to a peer.
    Connect,
    /// Handle the proxy protocol.
    Proxy,
    /// Relay between the two sides.
    Relay(RelayMode),
    /// Nothing.
    Finished(Ending),
}

/// What a session knows.
pub struct SessionState {
    pub options: SessionOptions,
    /// The peer that the connection leads to.
    pub token: Option<Token>,
    pub phase: Phase,
}

impl SessionOptions {
    /// How to relay: through the transport where there is one; else timed where there is
    /// a latency limit.
    pub open spec fn relay_mode(self) -> RelayMode {
        if self.transport {
            RelayMode::Transport
        } else {
            match self.max_latency_ms {
                Some(ms) => RelayMode::Timed(ms),
                None => RelayMode::Plain,
            }
        }
    }

    /// What comes first.
    pub open spec fn first_phase(self) -> Phase {
        if self.hook {
            Phase::Hook
        } else {
            Phase::Connect
        }
    }

    /// What comes once the connection stands.
    pub open spec fn connected_phase(self) -> Phase {
        if self.proxy {
            Phase::Proxy
        } else {
            Phase::Relay(self.relay_mode())
        }
    }
}

/// What to tell the balancer of the peer `token`: a success where the relay went well
/// and was not slow, a failure else, and nothing where no peer was chosen by a token.
pub open spec fn feedback_of(token: Option<Token>, relay_ok: bool, slow: bool) -> Option<
    Feedback,
> {
    match token {
        Some(t) => if relay_ok && !slow {
            Some(Feedback::Success(t))
        } else {
            Some(Feedback::Failure(t))
        },
        None => None,
    }
}

/// Decides what to tell the balancer once a relay is over.
pub fn feedback(token: Option<Token>, relay_ok: bool, slow: bool) -> (told: Option<Feedback>)
    ensures
        told == feedback_of(token, relay_ok, slow),
        token is None ==> told is None,
        token matches Some(t) ==> (relay_ok && !slow ==> told == Some(Feedback::Success(t))),
        token matches Some(t) ==> (!relay_ok || slow ==> told == Some(Feedback::Failure(t))),
{
    match token {
        Some(t) => if relay_ok && !slow {
            Some(Feedback::Success(t))
        } else {
            Some(Feedback::Failure(t))
        },
        None => None,
    }
}

impl SessionState {
    /// Before the first step.
    pub open spec fn initial(options: SessionOptions) -> SessionState {
        SessionState { options, token: None, phase: options.first_phase() }
    }

    /// A step that may fail and comes before the relay is to be done.
    pub open spec fn before_relay(self) -> bool {
        self.phase is Hook || self.phase is Connect || self.phase is Proxy
    }

    pub open spec fn after_hook(self) -> SessionState {
        SessionState { phase: Phase::Connect, ..self }
    }

    pub open spec fn after_connect(self, token: Option<Token>) -> SessionState {
        SessionState { token, phase: self.options.connected_phase(), ..self }
    }

    pub open spec fn after_proxy(self) -> SessionState {
        SessionState { phase: Phase::Relay(self.options.relay_mode()), ..self }
    }

    pub open spec fn after_error(self) -> SessionState {
        SessionState { phase: Phase::Finished(Ending::Failed), ..self }
    }

    /// Only a timed relay can be slow.
    pub open spec fn after_relay(self, relay_ok: bool, latency_exceeded: bool) -> SessionState {
        let slow = latency_exceeded && self.phase matches Phase::Relay(RelayMode::Timed(_));
        SessionState {
            phase: Phase::Finished(Ending::Relayed(feedback_of(self.token, relay_ok, slow))),
            ..self
        }
    }
}

/// One relayed connection: a pre-connect hook, connecting, the proxy protocol and the
/// relay, in this order, as far as the options ask for them.
///
/// The caller does what [`phase`](Self::phase) says and reports how it went.
#[derive(Debug)]
pub struct RelaySession {
    options: SessionOptions,
    token: Option<Token>,
    phase: Phase,
}

impl View for RelaySession {
    type V = SessionState;

    closed spec fn view(&self) -> SessionState {
        SessionState { options: self.options, token: self.token, phase: self.phase }
    }
}

impl RelaySession {
    /// Begins a session.
    pub fn new(options: SessionOptions) -> (session: Self)
        ensures
            session@ == SessionState::initial(options),
            session@.options == options,
            session@.token is None,
            options.hook ==> session@.phase == Phase::Hook,
            !options.hook ==> session@.phase == Phase::Connect,
    {
        let phase = if options.hook {
            Phase::Hook
        } else {
            Phase::Connect
        };
        RelaySession { options, token: None, phase }
    }

    /// What is to be done next.
    pub fn phase(&self) -> (phase: Phase)
        ensures
            phase == self@.phase,
    {
        self.phase
    }

    fn relay_mode(&self) -> (mode: RelayMode)
        ensures
            mode == self@.options.relay_mode(),
    {
        if self.options.transport {
            RelayMode::Transport
        } else {
            match self.options.max_latency_ms {
                Some(ms) => RelayMode::Timed(ms),
                None => RelayMode::Plain,
            }
        }
    }

    /// The hook has run without an error.
    pub fn hook_done(&mut self)
        requires
            old(self)@.phase is Hook,
        ensures
            final(self)@ == old(self)@.after_hook(),
    {
        self.phase = Phase::Connect;
    }

    /// The connection stands; it leads to the peer `token`, if a balancer chose it.
    pub fn connected(&mut self, token: Option<Token>)
        requires
            old(self)@.phase is Connect,
        ensures
            final(self)@ == old(self)@.after_connect(token),
    {
        self.token = token;
        self.phase = if self.options.proxy {
            Phase::Proxy
        } else {
            Phase::Relay(self.relay_mode())
        };
    }

    /// The proxy protocol has been handled without an error.
    pub fn proxy_done(&mut self)
        requires
            old(self)@.phase is Proxy,
        ensures
            final(self)@ == old(self)@.after_proxy(),
    {
        self.phase = Phase::Relay(self.relay_mode());
    }

    /// The hook, connecting or the proxy protocol has failed.
    pub fn step_failed(&mut self)
        requires
            old(self)@.before_relay(),
        ensures
            final(self)@ == old(self)@.after_error(),
    {
        self.phase = Phase::Finished(Ending::Failed);
    }

    /// The relay is over; whether it went well, and whether a timed one exceeded the
    /// latency limit.
    pub fn relay_done(&mut self, relay_ok: bool, latency_exceeded: bool)
        requires
            old(self)@.phase is Relay,
        ensures
            final(self)@ == old(self)@.after_relay(relay_ok, latency_exceeded),
    {
        let slow: bool = match self.phase {
            Phase::Relay(RelayMode::Timed(_)) => latency_exceeded,
            _ => false,
        };
        self.phase = Phase::Finished(Ending::Relayed(feedback(self.token, relay_ok, slow)));
    }
}

/// How the steps of a session turn out, those included that it may never come to.
pub struct Replies {
    pub hook_ok: bool,
    /// `None` for a failure to connect, else the token of the peer, if any.
    pub connected: Option<Option<Token>>,
    pub proxy_ok: bool,
    pub relay_ok: bool,
    pub latency_exceeded: bool,
}

/// The next state of a session for given replies.
pub open spec fn step(state: SessionState, replies: Replies) -> SessionState {
    match state.phase {
        Phase::Hook => if replies.hook_ok {
            state.after_hook()
        } else {
            state.after_error()
        },
        Phase::Connect => match replies.connected {
            Some(token) => state.after_connect(token),
            None => state.after_error(),
        },
        Phase::Proxy => if replies.proxy_ok {
            state.after_proxy()
        } else {
            state.after_error()
        },
        Phase::Relay(_) => state.after_relay(replies.relay_ok, replies.latency_exceeded),
        Phase::Finished(_) => state,
    }
}

/// How far a session has come.
pub open spec fn rank(phase: Phase) -> int {
    match phase {
        Phase::Hook => 0,
        Phase::Connect => 1,
        Phase::Proxy => 2,
        Phase::Relay(_) => 3,
        Phase::Finished(_) => 4,
    }
}

/// The ending of a session for given replies: an error where a step fails that the
/// options ask for; else what the balancer is told.
pub open spec fn ending(options: SessionOptions, replies: Replies) -> Ending {
    let hook_ok = options.hook ==> replies.hook_ok;
    let proxy_ok = options.proxy ==> replies.proxy_ok;
    let timed = !options.transport && options.max_latency_ms is Some;
    match replies.connected {
        Some(token) if hook_ok && proxy_ok => match token {
            Some(t) => if replies.relay_ok && !(timed && replies.latency_exceeded) {
                Ending::Relayed(Some(Feedback::Success(t)))
            } else {
                Ending::Relayed(Some(Feedback::Failure(t)))
            },
            None => Ending::Relayed(None),
        },
        _ => Ending::Failed,
    }
}

/// A session begins with the hook if and only if the options ask for one, else with
/// connecting, and without a peer.
pub proof fn law_session_begins(options: SessionOptions)
    ensures
        SessionState::initial(options).options == options,
        SessionState::initial(options).token is None,
        options.hook ==> SessionState::initial(options).phase == Phase::Hook,
        !options.hook ==> SessionState::initial(options).phase == Phase::Connect,
{
}

/// What follows a step that went well: connecting after the hook; the proxy protocol after
/// connecting if and only if the options ask for it, else the relay; the relay after the
/// proxy protocol. The peer is the one that the connection was made with, and stays. A
/// step that failed ends the session with an error, whatever it was.
pub proof fn law_what_follows_each_step(state: SessionState, token: Option<Token>)
    ensures
        state.after_hook().phase == Phase::Connect,
        state.after_connect(token).phase == Phase::Proxy <==> state.options.proxy,
        state.after_connect(token).phase is Relay <==> !state.options.proxy,
        state.after_proxy().phase is Relay,
        state.after_error().phase == Phase::Finished(Ending::Failed),
        state.after_connect(token).token == token,
        state.after_hook().token == state.token,
        state.after_proxy().token == state.token,
        state.after_hook().options == state.options,
        state.after_connect(token).options == state.options,
        state.after_proxy().options == state.options,
        state.after_error().options == state.options,
{
}

/// Whenever a session comes to the relay, it relays through the transport if and only if
/// the options have one; timed, with exactly the limit of the options, if and only if they
/// have a limit and no transport; and plainly if and only if they have neither.
pub proof fn law_relay_follows_options(state: SessionState, replies: Replies, ms: u32)
    requires
        !(state.phase is Relay),
    ensures
        step(state, replies).phase matches Phase::Relay(mode) ==> {
            &&& mode == RelayMode::Transport <==> state.options.transport
            &&& mode == RelayMode::Timed(ms) <==> !state.options.transport
                && state.options.max_latency_ms == Some(ms)
            &&& mode == RelayMode::Plain <==> !state.options.transport
                && state.options.max_latency_ms is None
        },
{
}

/// The same of the two steps that lead to the relay: connecting, where the options do not
/// ask for the proxy protocol, and the proxy protocol.
pub proof fn law_relay_mode(state: SessionState, token: Option<Token>, ms: u32)
    ensures
        ({
            let direct = state.after_connect(token).phase;
            let proxied = state.after_proxy().phase;
            let transport = state.options.transport;
            let limit = state.options.max_latency_ms;
            &&& proxied == Phase::Relay(RelayMode::Transport) <==> transport
            &&& proxied == Phase::Relay(RelayMode::Timed(ms)) <==> !transport && limit == Some(ms)
            &&& proxied == Phase::Relay(RelayMode::Plain) <==> !transport && limit is None
            &&& !state.options.proxy ==> direct == proxied
        }),
{
}

/// Once a relay is over the session is, and succeeds, whether the relay went well or not;
/// the balancer is told something if and only if a token chose the peer.
pub proof fn law_relay_ends_session(
    state: SessionState,
    relay_ok: bool,
    latency_exceeded: bool,
)
    ensures
        ({
            let end = state.after_relay(relay_ok, latency_exceeded);
            &&& end.options == state.options
            &&& end.token == state.token
            &&& end.phase matches Phase::Finished(Ending::Relayed(told)) && (told is None
                <==> state.token is None)
        }),
{
}

/// The steps come in a fixed order, each at most once: hook, connect, proxy, relay.
pub proof fn law_steps_in_order(state: SessionState, replies: Replies)
    requires
        !(state.phase is Finished),
    ensures
        rank(state.phase) < rank(step(state, replies).phase),
        step(state, replies).options == state.options,
{
}

/// A session is over after at most four steps, and how it ends depends on the replies as
/// [`ending`] says. In particular a failed relay does not fail the session.
pub proof fn law_session_ending(options: SessionOptions, replies: Replies)
    ensures
        step(
            step(step(step(SessionState::initial(options), replies), replies), replies),
            replies,
        ).phase == Phase::Finished(ending(options, replies)),
{
}

/// The peer of a relay that exceeded the latency limit is reported as failed though the
/// relay went well, and so is the peer of a relay that failed; any other is reported as a
/// success.
pub proof fn law_slow_or_failed_relay_is_failure(
    state: SessionState,
    token: Token,
    relay_ok: bool,
    latency_exceeded: bool,
)
    requires
        state.phase is Relay,
        state.token == Some(token),
    ensures
        ({
            let timed = state.phase matches Phase::Relay(RelayMode::Timed(_));
            state.after_relay(relay_ok, latency_exceeded).phase == Phase::Finished(
                Ending::Relayed(
                    Some(
                        if !relay_ok || timed && latency_exceeded {
                            Feedback::Failure(token)
                        } else {
                            Feedback::Success(token)
                        },
                    ),
                ),
            )
        }),
{
}

/// A timed relay that goes well is reported as a failure of its peer if and only if the
/// deadline came before the first byte of the peer.
pub proof fn law_late_first_byte_is_failure(
    state: SessionState,
    token: Token,
    max_latency_ms: u32,
    events: Seq<WatchEvent>,
)
    requires
        state.phase == Phase::Relay(RelayMode::Timed(max_latency_ms)),
        state.token == Some(token),
    ensures
        ({
            let watch = crate::latency::watched(LatencyWatch::initial(max_latency_ms), events);
            let late = exists|i: int| #[trigger] crate::latency::late_at(events, i);
            state.after_relay(true, watch.exceeded).phase == Phase::Finished(
                Ending::Relayed(
                    Some(
                        if late {
                            Feedback::Failure(token)
                        } else {
                            Feedback::Success(token)
                        },
                    ),
                ),
            )
        }),
{
    crate::latency::law_exceeded_iff_deadline_before_first_byte(max_latency_ms, events);
}

/// Without a latency limit no peer is reported as failed for being slow; nor is one
/// behind a transport.
pub proof fn law_no_limit_never_slow(options: SessionOptions, replies: Replies, token: Token)
    requires
        options.max_latency_ms is None || options.transport,
        replies.relay_ok,
    ensures
        ending(options, replies) != Ending::Relayed(Some(Feedback::Failure(token))),
{
}

} // verus!
