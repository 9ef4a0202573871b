//! The link to the Brain: its errors, and the procedure that makes sure a
//! ready channel is at hand before a call, reconnecting for as long as it
//! takes.
//!
//! The procedure is a state machine over the shared connection state. The
//! driver of a call performs what [`EnsureChannel::on_event`] orders
//! (probe, connect, sleep) and reports how it went; the machine keeps the
//! cached channel and decides what comes next.

use tonic::transport::{Channel, Endpoint};
use vstd::prelude::*;
use vstd::string::*;

verus! {

/// How long to wait after a failed connection attempt, in milliseconds.
pub const RECONNECT_BACKOFF_MS: u64 = 3000;

/// tonic's transport error, carried through unread.
#[verifier::external_type_specification]
#[verifier::external_body]
pub struct ExTransportError(tonic::transport::Error);

/// tonic's RPC status, carried through unread.
#[verifier::external_type_specification]
#[verifier::external_body]
pub struct ExStatus(tonic::Status);

/// tonic's channel to an endpoint, carried as an opaque handle.
#[verifier::external_type_specification]
#[verifier::external_body]
pub struct ExChannel(Channel);

/// tonic's description of an endpoint, carried through unread.
#[verifier::external_type_specification]
#[verifier::external_body]
pub struct ExEndpoint(Endpoint);

/// `Channel::clone` of tonic: the clone is another handle on the same
/// connection. Contracts identify the handles of one connection, so the
/// clone equals the original.
pub assume_specification[ <Channel as Clone>::clone ](channel: &Channel) -> (r: Channel)
    ensures
        r == *channel,
;

/// `Endpoint::clone` of tonic: a copy of the description, field by field.
pub assume_specification[ <Endpoint as Clone>::clone ](endpoint: &Endpoint) -> (r: Endpoint)
    ensures
        r == *endpoint,
;

/// What tonic makes of an address: the endpoint at that address, with
/// tonic's settings for a new endpoint, or `None` where it takes the address
/// for no URI.
pub uninterp spec fn endpoint_at(address: Seq<char>) -> Option<Endpoint>;

/// `Endpoint::from_shared` of tonic. What comes back depends on the address
/// alone: the endpoint at the address, or the error that the address is no
/// URI. Which addresses are URIs is left to tonic.
#[verifier::external_body]
fn parse_endpoint(address: String) -> (r: Result<Endpoint, tonic::transport::Error>)
    ensures
        match r {
            Ok(endpoint) => endpoint_at(address@) == Some(endpoint),
            Err(_) => endpoint_at(address@) is None,
        },
{
    Endpoint::from_shared(address)
}

/// The text of a tonic transport error, by its `Display`.
#[verifier::external_body]
fn transport_error_text(e: &tonic::transport::Error) -> String {
    e.to_string()
}

/// The text of a tonic status, by its `Display`.
#[verifier::external_body]
fn status_text(e: &tonic::Status) -> String {
    e.to_string()
}

/// Why a call to the Brain failed.
#[derive(Debug)]
pub enum BrainError {
    /// The connection could not be made or broke.
    Transport(tonic::transport::Error),
    /// The Brain answered with an error status.
    Rpc(tonic::Status),
    /// Shutdown came first.
    Canceled,
}

impl BrainError {
    /// The text that every rendering of this error starts with.
    pub open spec fn text_prefix(self) -> Seq<char> {
        match self {
            BrainError::Transport(_) => "transport error: "@,
            BrainError::Rpc(_) => "rpc error: "@,
            BrainError::Canceled => "canceled"@,
        }
    }

    /// Renders the error: `canceled`, or the kind of failure and then what
    /// tonic reported.
    pub fn to_string(&self) -> (s: String)
        ensures
            self.text_prefix().is_prefix_of(s@),
            self is Canceled ==> s@ == self.text_prefix(),
    {
        match self {
            BrainError::Transport(e) => {
                let mut s = String::from_str("transport error: ");
                let detail = transport_error_text(e);
                s.append(detail.as_str());
                s
            },
            BrainError::Rpc(e) => {
                let mut s = String::from_str("rpc error: ");
                let detail = status_text(e);
                s.append(detail.as_str());
                s
            },
            BrainError::Canceled => String::from_str("canceled"),
        }
    }
}

impl From<tonic::transport::Error> for BrainError {
    fn from(err: tonic::transport::Error) -> (r: BrainError) {
        BrainError::Transport(err)
    }
}

impl vstd::std_specs::convert::FromSpecImpl<tonic::transport::Error> for BrainError {
    open spec fn obeys_from_spec() -> bool {
        true
    }

    open spec fn from_spec(err: tonic::transport::Error) -> BrainError {
        BrainError::Transport(err)
    }
}

impl From<tonic::Status> for BrainError {
    fn from(err: tonic::Status) -> (r: BrainError) {
        BrainError::Rpc(err)
    }
}

impl vstd::std_specs::convert::FromSpecImpl<tonic::Status> for BrainError {
    open spec fn obeys_from_spec() -> bool {
        true
    }

    open spec fn from_spec(err: tonic::Status) -> BrainError {
        BrainError::Rpc(err)
    }
}

/// The state of the upstream channel, as the rest of the gateway sees it.
#[derive(Debug, Clone, Copy, PartialEq, Eq, Structural)]
pub enum ChannelState {
    Disconnected,
    Connecting,
    Ready,
}

/// What one run of the procedure is waiting for.
#[derive(Debug, Clone, Copy, PartialEq, Eq, Structural)]
pub enum LinkPhase {
    /// Not running: not started yet, or finished.
    Idle,
    /// Waiting for the readiness probe of the cached channel.
    Probing,
    /// Waiting for a connection attempt, or for shutdown.
    Connecting,
    /// Waiting for the backoff to elapse, or for shutdown.
    BackingOff,
}

/// What the driver of a run reports.
#[derive(Debug)]
pub enum LinkEvent {
    /// A call needs a channel.
    Begin,
    /// The cached channel is ready.
    ProbeOk,
    /// The cached channel is not ready.
    ProbeFailed,
    /// The connection attempt succeeded, with this channel.
    Connected(Channel),
    /// The connection attempt failed.
    ConnectFailed,
    /// The backoff elapsed.
    BackoffElapsed,
    /// Shutdown was signaled.
    Shutdown,
}

/// What the driver of a run has to do next.
#[derive(Debug)]
pub enum LinkAction {
    /// Probe this channel, the cached one, for readiness.
    Probe(Channel),
    /// Try to connect to this endpoint, racing the attempt against shutdown.
    Connect(Endpoint),
    /// Sleep for `millis` milliseconds, racing the sleep against shutdown.
    Sleep { millis: u64 },
    /// The run is over: this channel, the cached one, is ready for the call.
    Use(Channel),
    /// The run is over: fail the call as canceled.
    Fail,
    /// The event does not belong to what the run is waiting for.
    Ignore,
}

/// The connection state that all calls share: where the Brain is, and the
/// channel to it if one is cached. At most one channel is cached at a time.
pub struct BrainInner {
    endpoint: Endpoint,
    channel: Option<Channel>,
}

/// One run of the procedure.
#[derive(Debug, Clone, Copy, PartialEq, Eq, Structural)]
pub struct EnsureChannel {
    pub phase: LinkPhase,
}

/// Everything that follows from one event.
pub struct LinkStep {
    pub phase: LinkPhase,
    pub cached: Option<Channel>,
    pub action: LinkAction,
}

/// Where a run turns when it needs a channel: to the cached one if there is
/// one, else to a connection attempt.
pub open spec fn seek(cached: Option<Channel>, endpoint: Endpoint) -> LinkStep {
    match cached {
        Some(channel) => LinkStep {
            phase: LinkPhase::Probing,
            cached,
            action: LinkAction::Probe(channel),
        },
        None => LinkStep {
            phase: LinkPhase::Connecting,
            cached,
            action: LinkAction::Connect(endpoint),
        },
    }
}

/// The transition relation of the procedure, for a run in `phase` while
/// `cached` is the cached channel and `endpoint` is where the Brain is.
pub open spec fn link_step(
    phase: LinkPhase,
    cached: Option<Channel>,
    endpoint: Endpoint,
    event: LinkEvent,
) -> LinkStep {
    match (phase, event) {
        (LinkPhase::Idle, LinkEvent::Begin) => seek(cached, endpoint),
        (LinkPhase::Probing, LinkEvent::ProbeOk) => match cached {
            Some(channel) => LinkStep {
                phase: LinkPhase::Idle,
                cached,
                action: LinkAction::Use(channel),
            },
            None => seek(None, endpoint),
        },
        (LinkPhase::Probing, LinkEvent::ProbeFailed) => seek(None, endpoint),
        (LinkPhase::Connecting, LinkEvent::Connected(channel)) => LinkStep {
            phase: LinkPhase::Idle,
            cached: Some(channel),
            action: LinkAction::Use(channel),
        },
        (LinkPhase::Connecting, LinkEvent::ConnectFailed) => LinkStep {
            phase: LinkPhase::BackingOff,
            cached,
            action: LinkAction::Sleep { millis: RECONNECT_BACKOFF_MS },
        },
        (LinkPhase::BackingOff, LinkEvent::BackoffElapsed) => seek(cached, endpoint),
        (LinkPhase::Connecting, LinkEvent::Shutdown) | (
            LinkPhase::BackingOff,
            LinkEvent::Shutdown,
        ) => LinkStep { phase: LinkPhase::Idle, cached, action: LinkAction::Fail },
        _ => LinkStep { phase, cached, action: LinkAction::Ignore },
    }
}

/// The state of the channel while a run stands in `phase`.
pub open spec fn channel_state(phase: LinkPhase, cached: Option<Channel>) -> ChannelState {
    match phase {
        LinkPhase::Connecting | LinkPhase::BackingOff => ChannelState::Connecting,
        _ => if cached is Some {
            ChannelState::Ready
        } else {
            ChannelState::Disconnected
        },
    }
}

impl BrainInner {
    /// The cached channel, if there is one.
    pub closed spec fn cached(&self) -> Option<Channel> {
        self.channel
    }

    /// Where the Brain is.
    pub closed spec fn target(&self) -> Endpoint {
        self.endpoint
    }

    /// The state for an endpoint, with no channel cached yet.
    pub fn new(endpoint: Endpoint) -> (inner: BrainInner)
        ensures
            inner.cached() is None,
            inner.target() == endpoint,
    {
        BrainInner { endpoint, channel: None }
    }

    /// The state for the endpoint that tonic makes of `address`, with no
    /// channel cached yet; a transport error exactly where tonic takes the
    /// address for no URI.
    pub fn at(address: String) -> (r: Result<BrainInner, BrainError>)
        ensures
            match r {
                Ok(inner) => endpoint_at(address@) == Some(inner.target()) && inner.cached()
                    is None,
                Err(e) => endpoint_at(address@) is None && e is Transport,
            },
    {
        match parse_endpoint(address) {
            Ok(endpoint) => Ok(BrainInner::new(endpoint)),
            Err(e) => Err(BrainError::from(e)),
        }
    }

    /// Whether a channel is cached.
    pub fn is_cached(&self) -> (b: bool)
        ensures
            b == (self.cached() is Some),
    {
        self.channel.is_some()
    }
}

impl EnsureChannel {
    /// A run that has not started.
    pub fn new() -> (run: EnsureChannel)
        ensures
            run.phase is Idle,
    {
        EnsureChannel { phase: LinkPhase::Idle }
    }

    /// The state of the channel as this run sees it.
    pub fn state(&self, inner: &BrainInner) -> (s: ChannelState)
        ensures
            s == channel_state(self.phase, inner.cached()),
    {
        match self.phase {
            LinkPhase::Connecting | LinkPhase::BackingOff => ChannelState::Connecting,
            _ => if inner.is_cached() {
                ChannelState::Ready
            } else {
                ChannelState::Disconnected
            },
        }
    }

    /// Takes one event: moves the run on, keeps or replaces or drops the
    /// cached channel, and orders the next action.
    pub fn on_event(&mut self, inner: &mut BrainInner, event: LinkEvent) -> (action: LinkAction)
        ensures
            final(self).phase == link_step(
                old(self).phase,
                old(inner).cached(),
                old(inner).target(),
                event,
            ).phase,
            final(inner).cached() == link_step(
                old(self).phase,
                old(inner).cached(),
                old(inner).target(),
                event,
            ).cached,
            action == link_step(
                old(self).phase,
                old(inner).cached(),
                old(inner).target(),
                event,
            ).action,
            final(inner).target() == old(inner).target(),
    {
        match (self.phase, event) {
            (LinkPhase::Idle, LinkEvent::Begin) | (
                LinkPhase::BackingOff,
                LinkEvent::BackoffElapsed,
            ) => self.seek(inner),
            (LinkPhase::Probing, LinkEvent::ProbeOk) => {
                if inner.channel.is_some() {
                    self.phase = LinkPhase::Idle;
                }
                self.found(inner)
            },
            (LinkPhase::Probing, LinkEvent::ProbeFailed) => {
                inner.channel = None;
                self.seek(inner)
            },
            (LinkPhase::Connecting, LinkEvent::Connected(channel)) => {
                let handle = channel.clone();
                inner.channel = Some(channel);
                self.phase = LinkPhase::Idle;
                LinkAction::Use(handle)
            },
            (LinkPhase::Connecting, LinkEvent::ConnectFailed) => {
                self.phase = LinkPhase::BackingOff;
                LinkAction::Sleep { millis: RECONNECT_BACKOFF_MS }
            },
            (LinkPhase::Connecting, LinkEvent::Shutdown) | (
                LinkPhase::BackingOff,
                LinkEvent::Shutdown,
            ) => {
                self.phase = LinkPhase::Idle;
                LinkAction::Fail
            },
            _ => LinkAction::Ignore,
        }
    }

    fn seek(&mut self, inner: &BrainInner) -> (action: LinkAction)
        ensures
            final(self).phase == seek(inner.cached(), inner.target()).phase,
            action == seek(inner.cached(), inner.target()).action,
    {
        match &inner.channel {
            Some(channel) => {
                self.phase = LinkPhase::Probing;
                LinkAction::Probe(channel.clone())
            },
            None => {
                self.phase = LinkPhase::Connecting;
                LinkAction::Connect(inner.endpoint.clone())
            },
        }
    }

    fn found(&mut self, inner: &BrainInner) -> (action: LinkAction)
        ensures
            match inner.cached() {
                Some(channel) => action == LinkAction::Use(channel) && final(self).phase == old(
                    self,
                ).phase,
                None => action == seek(None, inner.target()).action && final(self).phase == seek(
                    None,
                    inner.target(),
                ).phase,
            },
    {
        match &inner.channel {
            Some(channel) => LinkAction::Use(channel.clone()),
            None => self.seek(inner),
        }
    }
}

/// How a run of the procedure ended, seen from the call that needs the
/// channel: `None` while the run goes on, else the channel for the call or
/// the failure of the call as canceled.
pub fn ensured(action: &LinkAction) -> (r: Option<Result<Channel, BrainError>>)
    ensures
        match *action {
            LinkAction::Use(channel) => r matches Some(Ok(handle)) && handle == channel,
            LinkAction::Fail => r matches Some(Err(BrainError::Canceled)),
            _ => r is None,
        },
{
    match action {
        LinkAction::Use(channel) => Some(Ok(channel.clone())),
        LinkAction::Fail => Some(Err(BrainError::Canceled)),
        _ => None,
    }
}

/// What a call to the Brain returns, given what the RPC returned: the
/// reply text, or the status as an RPC error.
pub fn chat_outcome(response: Result<String, tonic::Status>) -> (r: Result<String, BrainError>)
    ensures
        match response {
            Ok(reply) => r == Ok::<String, BrainError>(reply),
            Err(status) => r == Err::<String, BrainError>(BrainError::Rpc(status)),
        },
{
    match response {
        Ok(reply) => Ok(reply),
        Err(status) => Err(BrainError::from(status)),
    }
}

/// Where a run stands after a sequence of events, first to last, with the
/// last action that was ordered (`start` where there was no event).
pub open spec fn run_link(start: LinkStep, endpoint: Endpoint, events: Seq<LinkEvent>) -> LinkStep
    decreases events.len(),
{
    if events.len() == 0 {
        start
    } else {
        let before = run_link(start, endpoint, events.drop_last());
        link_step(before.phase, before.cached, endpoint, events.last())
    }
}

/// Whether a run is trying to reach the Brain: waiting for a connection
/// attempt or for the backoff after one.
pub open spec fn reconnecting(phase: LinkPhase) -> bool {
    phase is Connecting || phase is BackingOff
}

/// Whether an event tells of an unreachable Brain: a connection attempt
/// failed, or the backoff after one elapsed.
pub open spec fn unreachable(event: LinkEvent) -> bool {
    event is ConnectFailed || event is BackoffElapsed
}

/// While the Brain stays unreachable a reconnecting run goes on
/// reconnecting, however long: it never gives up and never claims a
/// channel, and whenever an attempt fails it waits for exactly the fixed
/// backoff before the next one.
pub proof fn lemma_retries_without_end(start: LinkStep, endpoint: Endpoint, events: Seq<LinkEvent>)
    requires
        reconnecting(start.phase),
        start.cached is None,
        forall|i: int| 0 <= i < events.len() ==> unreachable(#[trigger] events[i]),
    ensures
        reconnecting(run_link(start, endpoint, events).phase),
        run_link(start, endpoint, events).cached is None,
        events.len() > 0 ==> {
            let action = run_link(start, endpoint, events).action;
            action == LinkAction::Connect(endpoint) || action == LinkAction::Ignore || action == (
            LinkAction::Sleep { millis: RECONNECT_BACKOFF_MS })
        },
    decreases events.len(),
{
    if events.len() > 0 {
        let earlier = events.drop_last();
        assert forall|i: int| 0 <= i < earlier.len() implies unreachable(#[trigger] earlier[i]) by {
            assert(earlier[i] == events[i]);
        }
        lemma_retries_without_end(start, endpoint, earlier);
        assert(unreachable(events[events.len() - 1]));
    }
}

/// Shutdown ends a reconnecting run at once: the call fails as canceled,
/// with no further attempt, whether the run was waiting for a connection
/// attempt or for the backoff.
pub proof fn lemma_shutdown_cancels(phase: LinkPhase, cached: Option<Channel>, endpoint: Endpoint)
    requires
        reconnecting(phase),
    ensures
        link_step(phase, cached, endpoint, LinkEvent::Shutdown).action == LinkAction::Fail,
        link_step(phase, cached, endpoint, LinkEvent::Shutdown).phase is Idle,
        link_step(phase, cached, endpoint, LinkEvent::Shutdown).cached == cached,
{
}

/// However long the Brain was unreachable, the run ends with the first
/// success or the first shutdown: a connection that is made is cached and
/// used; a shutdown fails the call as canceled.
pub proof fn lemma_retry_ends(
    start: LinkStep,
    endpoint: Endpoint,
    events: Seq<LinkEvent>,
    channel: Channel,
)
    requires
        reconnecting(start.phase),
        start.cached is None,
        forall|i: int| 0 <= i < events.len() ==> unreachable(#[trigger] events[i]),
    ensures
        run_link(start, endpoint, events.push(LinkEvent::Shutdown)).action == LinkAction::Fail,
        run_link(start, endpoint, events.push(LinkEvent::Shutdown)).phase is Idle,
        run_link(start, endpoint, events).phase is Connecting ==> {
            let end = run_link(start, endpoint, events.push(LinkEvent::Connected(channel)));
            end.action == LinkAction::Use(channel) && end.cached == Some(channel) && end.phase
                is Idle
        },
{
    lemma_retries_without_end(start, endpoint, events);
    assert(events.push(LinkEvent::Shutdown).drop_last() =~= events);
    assert(events.push(LinkEvent::Connected(channel)).drop_last() =~= events);
}

/// A cached channel that fails its probe is dropped before anything else
/// happens, and the run turns to a fresh connection attempt; one that
/// passes is used as it is. So at most one channel is ever cached, and a
/// call never gets a channel that failed its probe.
pub proof fn lemma_failed_probe_invalidates(channel: Channel, endpoint: Endpoint)
    ensures
        link_step(LinkPhase::Probing, Some(channel), endpoint, LinkEvent::ProbeFailed) == (
        LinkStep {
            phase: LinkPhase::Connecting,
            cached: None,
            action: LinkAction::Connect(endpoint),
        }),
        link_step(LinkPhase::Probing, Some(channel), endpoint, LinkEvent::ProbeOk) == (LinkStep {
            phase: LinkPhase::Idle,
            cached: Some(channel),
            action: LinkAction::Use(channel),
        }),
{
}

} // verus!
