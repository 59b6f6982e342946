//! The start-up sequence as a state machine: learn the node's identity and
//! port, discover its address, check that it can be reached from outside,
//! subscribe to the announcement topic and publish the first announcement.
//!
//! The sequencer makes no call of its own. It says which call to make next,
//! and after what pause, and is told the answer as an event.

use crate::enode::{identity_of, node_identity, url_username, IdentityError};
use crate::rpc::Binary;
use crate::wire::{
    encode, lemma_decode_encode, parsed, wire_bytes, Announcement, AnnouncementView, Endpoint,
    IpAddress, NodeIdentity,
};
use vstd::prelude::*;
use vstd::slice::slice_to_vec;

verus! {

/// Seconds to pause before a call is tried again.
pub const RETRY_DELAY_SECS: u64 = 1;

/// Seconds after which the probe of the node's own endpoint gives up.
pub const PROBE_TIMEOUT_SECS: u64 = 10;

/// What ends the start-up for good.
#[derive(Clone, Copy, Debug, PartialEq, Eq)]
pub enum BootError {
    /// The address that the node reports of itself gives no identity.
    Identity(IdentityError),
    /// The node's own address could not be discovered.
    AddressDiscovery,
    /// The subscription to the announcement topic failed.
    Subscription,
}

/// How far the start-up has come, with what it has learned so far.
#[derive(Debug, PartialEq, Eq)]
pub enum BootPhase {
    /// Waiting for the node's address of itself.
    AcquiringIdentity,
    /// Waiting for the port that the node listens on.
    AcquiringPort(NodeIdentity),
    /// Waiting for the node's address as others see it.
    DiscoveringAddress(NodeIdentity, u16),
    /// Waiting for the probe of the endpoint that is about to be announced.
    VerifyingReachability(Announcement),
    /// Waiting for the subscription handle.
    Subscribing(Announcement),
    /// Waiting for the answer to the first announcement.
    Publishing(Announcement, Binary),
    /// Done: what the node announces, and the subscription to poll.
    Ready(Announcement, Binary),
    /// Given up.
    Failed(BootError),
}

/// A phase, with sequences in place of vectors.
pub enum BootPhaseView {
    AcquiringIdentity,
    AcquiringPort(Seq<u8>),
    DiscoveringAddress(Seq<u8>, u16),
    VerifyingReachability(AnnouncementView),
    Subscribing(AnnouncementView),
    Publishing(AnnouncementView, Seq<u8>),
    Ready(AnnouncementView, Seq<u8>),
    Failed(BootError),
}

impl View for BootPhase {
    type V = BootPhaseView;

    open spec fn view(&self) -> BootPhaseView {
        match *self {
            BootPhase::AcquiringIdentity => BootPhaseView::AcquiringIdentity,
            BootPhase::AcquiringPort(identity) => BootPhaseView::AcquiringPort(identity@),
            BootPhase::DiscoveringAddress(identity, port) => BootPhaseView::DiscoveringAddress(
                identity@,
                port,
            ),
            BootPhase::VerifyingReachability(a) => BootPhaseView::VerifyingReachability(a@),
            BootPhase::Subscribing(a) => BootPhaseView::Subscribing(a@),
            BootPhase::Publishing(a, handle) => BootPhaseView::Publishing(a@, handle.0@),
            BootPhase::Ready(a, handle) => BootPhaseView::Ready(a@, handle.0@),
            BootPhase::Failed(e) => BootPhaseView::Failed(e),
        }
    }
}

/// A call that the sequencer asks for.
#[derive(Debug, PartialEq, Eq)]
pub enum BootCall {
    /// Ask the control API for the node's address of itself, then report
    /// `BootEvent::Identity`.
    GetIdentity,
    /// Ask the control API for the listening port, then report
    /// `BootEvent::Port`.
    GetPort,
    /// Discover the node's address, then report `BootEvent::Address`.
    DiscoverAddress,
    /// Try to connect to this endpoint, giving up after so many seconds, then
    /// report `BootEvent::Probed`.
    Probe(Endpoint, u64),
    /// Subscribe to this topic, then report `BootEvent::Subscribed`.
    Subscribe(Vec<u8>),
    /// Post this payload to this topic, then report `BootEvent::Published`.
    Publish { topic: Vec<u8>, payload: Vec<u8> },
    /// Nothing is left to do.
    Nothing,
}

/// A call, with sequences in place of vectors.
pub enum BootCallView {
    GetIdentity,
    GetPort,
    DiscoverAddress,
    Probe(Endpoint, u64),
    Subscribe(Seq<u8>),
    Publish { topic: Seq<u8>, payload: Seq<u8> },
    Nothing,
}

impl View for BootCall {
    type V = BootCallView;

    open spec fn view(&self) -> BootCallView {
        match *self {
            BootCall::GetIdentity => BootCallView::GetIdentity,
            BootCall::GetPort => BootCallView::GetPort,
            BootCall::DiscoverAddress => BootCallView::DiscoverAddress,
            BootCall::Probe(endpoint, timeout) => BootCallView::Probe(endpoint, timeout),
            BootCall::Subscribe(topic) => BootCallView::Subscribe(topic@),
            BootCall::Publish { topic, payload } => BootCallView::Publish {
                topic: topic@,
                payload: payload@,
            },
            BootCall::Nothing => BootCallView::Nothing,
        }
    }
}

/// The answer to a call. `None` stands for a call that failed.
#[derive(Debug, PartialEq, Eq)]
pub enum BootEvent {
    /// The node's address of itself.
    Identity(Option<String>),
    /// The port that the node listens on.
    Port(Option<u16>),
    /// The node's address as others see it.
    Address(Option<IpAddress>),
    /// Whether the endpoint took the connection.
    Probed(bool),
    /// The subscription handle.
    Subscribed(Option<Binary>),
    /// Whether the bus accepted the first announcement.
    Published(Option<bool>),
}

/// An event, with sequences in place of strings and vectors.
pub enum BootEventView {
    Identity(Option<Seq<char>>),
    Port(Option<u16>),
    Address(Option<IpAddress>),
    Probed(bool),
    Subscribed(Option<Seq<u8>>),
    Published(Option<bool>),
}

impl View for BootEvent {
    type V = BootEventView;

    open spec fn view(&self) -> BootEventView {
        match *self {
            BootEvent::Identity(Some(enode)) => BootEventView::Identity(Some(enode@)),
            BootEvent::Identity(None) => BootEventView::Identity(None),
            BootEvent::Port(port) => BootEventView::Port(port),
            BootEvent::Address(address) => BootEventView::Address(address),
            BootEvent::Probed(reached) => BootEventView::Probed(reached),
            BootEvent::Subscribed(Some(handle)) => BootEventView::Subscribed(Some(handle.0@)),
            BootEvent::Subscribed(None) => BootEventView::Subscribed(None),
            BootEvent::Published(accepted) => BootEventView::Published(accepted),
        }
    }
}

/// What the event that was just handled came to.
#[derive(Clone, Copy, Debug, PartialEq, Eq)]
pub enum BootReport {
    /// The call succeeded; the start-up has moved on.
    Advanced,
    /// The call failed for now; it is made again after a pause.
    Retrying,
    /// The bus refused the first announcement; the start-up is done all the
    /// same.
    AnnouncementRefused,
    /// The first announcement could not be posted; the start-up is done all
    /// the same.
    AnnouncementFailed,
    /// The start-up has failed for good.
    Fatal(BootError),
    /// The event does not answer the call that is outstanding.
    Unexpected,
}

/// The call to make next, after a pause of so many seconds.
#[derive(Debug, PartialEq, Eq)]
pub struct BootRequest {
    pub delay_secs: u64,
    pub call: BootCall,
}

/// A request, with sequences in place of vectors.
pub struct BootRequestView {
    pub delay_secs: u64,
    pub call: BootCallView,
}

impl View for BootRequest {
    type V = BootRequestView;

    open spec fn view(&self) -> BootRequestView {
        BootRequestView { delay_secs: self.delay_secs, call: self.call@ }
    }
}

/// The outcome of one step.
#[derive(Debug, PartialEq, Eq)]
pub struct BootStep {
    pub report: BootReport,
    pub request: BootRequest,
}

/// A step, with sequences in place of vectors.
pub struct BootStepView {
    pub report: BootReport,
    pub request: BootRequestView,
}

impl View for BootStep {
    type V = BootStepView;

    open spec fn view(&self) -> BootStepView {
        BootStepView { report: self.report, request: self.request@ }
    }
}

/// The state of the start-up.
#[derive(Debug, PartialEq, Eq)]
pub struct Bootstrap {
    /// The topic under which nodes announce themselves.
    pub topic: Vec<u8>,
    /// How far the start-up has come.
    pub phase: BootPhase,
}

/// The state of the start-up, with sequences in place of vectors.
pub struct BootstrapView {
    pub topic: Seq<u8>,
    pub phase: BootPhaseView,
}

impl View for Bootstrap {
    type V = BootstrapView;

    open spec fn view(&self) -> BootstrapView {
        BootstrapView { topic: self.topic@, phase: self.phase@ }
    }
}

/// The call that a state is waiting on.
pub open spec fn boot_outstanding(s: BootstrapView) -> BootCallView {
    match s.phase {
        BootPhaseView::AcquiringIdentity => BootCallView::GetIdentity,
        BootPhaseView::AcquiringPort(_) => BootCallView::GetPort,
        BootPhaseView::DiscoveringAddress(_, _) => BootCallView::DiscoverAddress,
        BootPhaseView::VerifyingReachability(a) => BootCallView::Probe(
            a.endpoint,
            PROBE_TIMEOUT_SECS,
        ),
        BootPhaseView::Subscribing(_) => BootCallView::Subscribe(s.topic),
        BootPhaseView::Publishing(a, _) => BootCallView::Publish {
            topic: s.topic,
            payload: wire_bytes(a.identity, a.endpoint),
        },
        BootPhaseView::Ready(_, _) => BootCallView::Nothing,
        BootPhaseView::Failed(_) => BootCallView::Nothing,
    }
}

/// The state that the start-up is in after a call has succeeded, with the
/// request for the call of that state, at once.
pub open spec fn advance(s: BootstrapView, phase: BootPhaseView) -> (BootstrapView, BootStepView) {
    let t = BootstrapView { topic: s.topic, phase };
    (
        t,
        BootStepView {
            report: BootReport::Advanced,
            request: BootRequestView { delay_secs: 0, call: boot_outstanding(t) },
        },
    )
}

/// The unchanged state after a call has failed for now, with the request to
/// make the call again after the retry delay.
pub open spec fn retry(s: BootstrapView) -> (BootstrapView, BootStepView) {
    (
        s,
        BootStepView {
            report: BootReport::Retrying,
            request: BootRequestView { delay_secs: RETRY_DELAY_SECS, call: boot_outstanding(s) },
        },
    )
}

/// The failed state after a call has failed for good.
pub open spec fn fail(s: BootstrapView, error: BootError) -> (BootstrapView, BootStepView) {
    (
        BootstrapView { topic: s.topic, phase: BootPhaseView::Failed(error) },
        BootStepView {
            report: BootReport::Fatal(error),
            request: BootRequestView { delay_secs: 0, call: BootCallView::Nothing },
        },
    )
}

/// What the answer to the first announcement comes to.
pub open spec fn first_announcement_report(accepted: Option<bool>) -> BootReport {
    match accepted {
        Some(true) => BootReport::Advanced,
        Some(false) => BootReport::AnnouncementRefused,
        None => BootReport::AnnouncementFailed,
    }
}

/// The step that the state `s` takes on the event `e`.
pub open spec fn boot_next(s: BootstrapView, e: BootEventView) -> (BootstrapView, BootStepView) {
    match (s.phase, e) {
        (BootPhaseView::AcquiringIdentity, BootEventView::Identity(None)) => retry(s),
        (BootPhaseView::AcquiringIdentity, BootEventView::Identity(Some(enode))) => {
            match identity_of(url_username(enode)) {
                Ok(identity) => advance(s, BootPhaseView::AcquiringPort(identity)),
                Err(error) => fail(s, BootError::Identity(error)),
            }
        },
        (BootPhaseView::AcquiringPort(identity), BootEventView::Port(None)) => retry(s),
        (BootPhaseView::AcquiringPort(identity), BootEventView::Port(Some(port))) => advance(
            s,
            BootPhaseView::DiscoveringAddress(identity, port),
        ),
        (BootPhaseView::DiscoveringAddress(identity, port), BootEventView::Address(None)) => fail(
            s,
            BootError::AddressDiscovery,
        ),
        (
            BootPhaseView::DiscoveringAddress(identity, port),
            BootEventView::Address(Some(address)),
        ) => advance(
            s,
            BootPhaseView::VerifyingReachability(
                AnnouncementView { identity, endpoint: Endpoint { address, port } },
            ),
        ),
        (BootPhaseView::VerifyingReachability(a), BootEventView::Probed(false)) => retry(s),
        (BootPhaseView::VerifyingReachability(a), BootEventView::Probed(true)) => advance(
            s,
            BootPhaseView::Subscribing(a),
        ),
        (BootPhaseView::Subscribing(a), BootEventView::Subscribed(None)) => fail(
            s,
            BootError::Subscription,
        ),
        (BootPhaseView::Subscribing(a), BootEventView::Subscribed(Some(handle))) => advance(
            s,
            BootPhaseView::Publishing(a, handle),
        ),
        (BootPhaseView::Publishing(a, handle), BootEventView::Published(accepted)) => (
            BootstrapView { topic: s.topic, phase: BootPhaseView::Ready(a, handle) },
            BootStepView {
                report: first_announcement_report(accepted),
                request: BootRequestView { delay_secs: 0, call: BootCallView::Nothing },
            },
        ),
        _ => (
            s,
            BootStepView {
                report: BootReport::Unexpected,
                request: BootRequestView { delay_secs: 0, call: boot_outstanding(s) },
            },
        ),
    }
}

impl Bootstrap {
    /// The start-up of a node that announces itself under `topic`, before its
    /// first call.
    pub fn new(topic: Vec<u8>) -> (bootstrap: Bootstrap)
        ensures
            bootstrap@.topic == topic@,
            bootstrap@.phase == BootPhaseView::AcquiringIdentity,
    {
        Bootstrap { topic, phase: BootPhase::AcquiringIdentity }
    }

    /// The call that the state is waiting on.
    pub fn outstanding(&self) -> (call: BootCall)
        ensures
            call@ == boot_outstanding(self@),
    {
        match &self.phase {
            BootPhase::AcquiringIdentity => BootCall::GetIdentity,
            BootPhase::AcquiringPort(_) => BootCall::GetPort,
            BootPhase::DiscoveringAddress(_, _) => BootCall::DiscoverAddress,
            BootPhase::VerifyingReachability(a) => BootCall::Probe(a.endpoint, PROBE_TIMEOUT_SECS),
            BootPhase::Subscribing(_) => BootCall::Subscribe(slice_to_vec(self.topic.as_slice())),
            BootPhase::Publishing(a, _) => BootCall::Publish {
                topic: slice_to_vec(self.topic.as_slice()),
                payload: encode(&a.identity, &a.endpoint),
            },
            BootPhase::Ready(_, _) => BootCall::Nothing,
            BootPhase::Failed(_) => BootCall::Nothing,
        }
    }

    /// Moves on to `phase` after a call has succeeded.
    fn advance(topic: Vec<u8>, phase: BootPhase) -> (out: (Bootstrap, BootStep))
        ensures
            (out.0@, out.1@) == advance((BootstrapView { topic: topic@, phase: phase@ }), phase@),
    {
        let bootstrap = Bootstrap { topic, phase };
        let call = bootstrap.outstanding();
        (
            bootstrap,
            BootStep { report: BootReport::Advanced, request: BootRequest { delay_secs: 0, call } },
        )
    }

    /// Stays in the same state after a call has failed for now.
    fn retry(self) -> (out: (Bootstrap, BootStep))
        ensures
            (out.0@, out.1@) == retry(self@),
    {
        let call = self.outstanding();
        (
            self,
            BootStep {
                report: BootReport::Retrying,
                request: BootRequest { delay_secs: RETRY_DELAY_SECS, call },
            },
        )
    }

    /// Gives up.
    fn fail(topic: Vec<u8>, error: BootError) -> (out: (Bootstrap, BootStep))
        ensures
            out.0@ == (BootstrapView { topic: topic@, phase: BootPhaseView::Failed(error) }),
            out.1@ == (BootStepView {
                report: BootReport::Fatal(error),
                request: BootRequestView { delay_secs: 0, call: BootCallView::Nothing },
            }),
    {
        (
            Bootstrap { topic, phase: BootPhase::Failed(error) },
            BootStep {
                report: BootReport::Fatal(error),
                request: BootRequest { delay_secs: 0, call: BootCall::Nothing },
            },
        )
    }

    /// Takes the step that answers `event`: the state after it, what there is
    /// to report, and the call to make next.
    pub fn step(self, event: BootEvent) -> (out: (Bootstrap, BootStep))
        ensures
            (out.0@, out.1@) == boot_next(self@, event@),
    {
        let Bootstrap { topic, phase } = self;
        match (phase, event) {
            (BootPhase::AcquiringIdentity, BootEvent::Identity(None)) => {
                Bootstrap { topic, phase: BootPhase::AcquiringIdentity }.retry()
            },
            (BootPhase::AcquiringIdentity, BootEvent::Identity(Some(enode))) => {
                match node_identity(enode.as_str()) {
                    Ok(identity) => Bootstrap::advance(topic, BootPhase::AcquiringPort(identity)),
                    Err(error) => Bootstrap::fail(topic, BootError::Identity(error)),
                }
            },
            (BootPhase::AcquiringPort(identity), BootEvent::Port(None)) => {
                Bootstrap { topic, phase: BootPhase::AcquiringPort(identity) }.retry()
            },
            (BootPhase::AcquiringPort(identity), BootEvent::Port(Some(port))) => {
                Bootstrap::advance(topic, BootPhase::DiscoveringAddress(identity, port))
            },
            (BootPhase::DiscoveringAddress(_, _), BootEvent::Address(None)) => {
                Bootstrap::fail(topic, BootError::AddressDiscovery)
            },
            (BootPhase::DiscoveringAddress(identity, port), BootEvent::Address(Some(address))) => {
                Bootstrap::advance(
                    topic,
                    BootPhase::VerifyingReachability(
                        Announcement { identity, endpoint: Endpoint { address, port } },
                    ),
                )
            },
            (BootPhase::VerifyingReachability(a), BootEvent::Probed(false)) => {
                Bootstrap { topic, phase: BootPhase::VerifyingReachability(a) }.retry()
            },
            (BootPhase::VerifyingReachability(a), BootEvent::Probed(true)) => {
                Bootstrap::advance(topic, BootPhase::Subscribing(a))
            },
            (BootPhase::Subscribing(_), BootEvent::Subscribed(None)) => {
                Bootstrap::fail(topic, BootError::Subscription)
            },
            (BootPhase::Subscribing(a), BootEvent::Subscribed(Some(handle))) => {
                Bootstrap::advance(topic, BootPhase::Publishing(a, handle))
            },
            (BootPhase::Publishing(a, handle), BootEvent::Published(accepted)) => {
                let report = match accepted {
                    Some(true) => BootReport::Advanced,
                    Some(false) => BootReport::AnnouncementRefused,
                    None => BootReport::AnnouncementFailed,
                };
                (
                    Bootstrap { topic, phase: BootPhase::Ready(a, handle) },
                    BootStep {
                        report,
                        request: BootRequest { delay_secs: 0, call: BootCall::Nothing },
                    },
                )
            },
            (phase, _) => {
                let bootstrap = Bootstrap { topic, phase };
                let call = bootstrap.outstanding();
                (
                    bootstrap,
                    BootStep {
                        report: BootReport::Unexpected,
                        request: BootRequest { delay_secs: 0, call },
                    },
                )
            },
        }
    }
}

/// Whether an event tells of a call that failed for now: the control API is
/// not up yet, or the endpoint cannot be reached yet.
pub open spec fn is_transient_failure(s: BootstrapView, e: BootEventView) -> bool {
    ||| s.phase is AcquiringIdentity && e == BootEventView::Identity(None)
    ||| s.phase is AcquiringPort && e == BootEventView::Port(None)
    ||| s.phase is VerifyingReachability && e == BootEventView::Probed(false)
}

/// A transient failure is never fatal: the state stays as it is, and the same
/// call is made again after the retry delay.
pub proof fn lemma_transient_failure_retries(s: BootstrapView, e: BootEventView)
    requires
        is_transient_failure(s, e),
    ensures
        boot_next(s, e).0 == s,
        boot_next(s, e).1.report == BootReport::Retrying,
        boot_next(s, e).1.request.delay_secs == RETRY_DELAY_SECS,
        boot_next(s, e).1.request.call == boot_outstanding(s),
        boot_outstanding(s) != BootCallView::Nothing,
{
}

/// Only a failure is followed by a pause, and the pause is the retry delay.
pub proof fn lemma_pause_only_on_retry(s: BootstrapView, e: BootEventView)
    ensures
        boot_next(s, e).1.request.delay_secs == (if is_transient_failure(s, e) {
            RETRY_DELAY_SECS
        } else {
            0
        }),
{
}

/// Whether an event ends the start-up for good: a node address without a
/// readable identity, a failed address discovery, a failed subscription.
pub open spec fn is_fatal_event(s: BootstrapView, e: BootEventView) -> bool {
    match (s.phase, e) {
        (BootPhaseView::AcquiringIdentity, BootEventView::Identity(Some(enode))) => identity_of(
            url_username(enode),
        ) is Err,
        (BootPhaseView::DiscoveringAddress(_, _), BootEventView::Address(None)) => true,
        (BootPhaseView::Subscribing(_), BootEventView::Subscribed(None)) => true,
        _ => false,
    }
}

/// The start-up fails for good on the fatal events only.
pub proof fn lemma_fatal_events(s: BootstrapView, e: BootEventView)
    requires
        !(s.phase is Failed),
    ensures
        boot_next(s, e).0.phase is Failed <==> is_fatal_event(s, e),
        boot_next(s, e).1.report is Fatal <==> is_fatal_event(s, e),
{
}

/// The first announcement is made on a best effort: whatever its answer, the
/// start-up is done, with the announcement and the subscription that it had.
pub proof fn lemma_first_announcement_is_best_effort(
    s: BootstrapView,
    announcement: AnnouncementView,
    handle: Seq<u8>,
    accepted: Option<bool>,
)
    requires
        s.phase == BootPhaseView::Publishing(announcement, handle),
    ensures
        boot_next(s, BootEventView::Published(accepted)).0.phase == BootPhaseView::Ready(
            announcement,
            handle,
        ),
        boot_outstanding(s) == (BootCallView::Publish {
            topic: s.topic,
            payload: wire_bytes(announcement.identity, announcement.endpoint),
        }),
{
}

/// What the start-up publishes is what it has learned: a node with identities
/// of the same length reads the payload as this node's identity and endpoint.
pub proof fn lemma_first_announcement_is_readable(
    s: BootstrapView,
    announcement: AnnouncementView,
    handle: Seq<u8>,
)
    requires
        s.phase == BootPhaseView::Publishing(announcement, handle),
    ensures
        boot_outstanding(s) matches BootCallView::Publish { topic, payload } && topic == s.topic
            && parsed(payload, announcement.identity.len()) == Some(announcement),
{
    lemma_decode_encode(announcement.identity, announcement.endpoint);
}

} // verus!
