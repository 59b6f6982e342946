//! The main loop as a state machine: poll the subscription, reconcile each
//! announcement with the live peer list, then see to the re-announcement.
//!
//! The engine makes no call of its own. It says which request to make next,
//! and is told the answer as an event.

use crate::as_hex::hex_text;
use crate::enode::{connection_string, connection_text, identity_text};
use crate::bootstrap::{BootPhase, BootPhaseView, Bootstrap, BootstrapView};
use crate::rpc::{payload_views, reports, Binary, Peer, Peers};
use crate::scheduler::Scheduler;
use crate::wire::{
    decode, encode, lemma_decode_encode, parsed, wire_bytes, Announcement, AnnouncementView,
};
use std::collections::VecDeque;
use vstd::prelude::*;
use vstd::slice::slice_to_vec;

verus! {

/// Seconds between two polls of the subscription.
pub const POLL_INTERVAL_SECS: u64 = 1;

/// What the engine is waiting for.
#[derive(Debug, PartialEq, Eq)]
pub enum Phase {
    /// The pause between two polls.
    Idle,
    /// The messages of the subscription.
    Polling,
    /// The live peer list, to look up the node of this announcement.
    FetchingPeers(Announcement),
    /// The answer to the request to connect to the node of this announcement.
    AddingPeer(Announcement),
    /// The answer to a re-announcement.
    Publishing,
}

/// A phase, with sequences in place of vectors.
pub enum PhaseView {
    Idle,
    Polling,
    FetchingPeers(AnnouncementView),
    AddingPeer(AnnouncementView),
    Publishing,
}

impl View for Phase {
    type V = PhaseView;

    open spec fn view(&self) -> PhaseView {
        match *self {
            Phase::Idle => PhaseView::Idle,
            Phase::Polling => PhaseView::Polling,
            Phase::FetchingPeers(a) => PhaseView::FetchingPeers(a@),
            Phase::AddingPeer(a) => PhaseView::AddingPeer(a@),
            Phase::Publishing => PhaseView::Publishing,
        }
    }
}

/// The outside work that the engine asks for next.
#[derive(Debug, PartialEq, Eq)]
pub enum Request {
    /// Pause for so many seconds, then report `Event::Woke`.
    Wait(u64),
    /// Drain the subscription with this handle, then report `Event::Polled`.
    Poll(Binary),
    /// Fetch the live peer list, then report `Event::Peers`.
    FetchPeers,
    /// Ask the control API to connect to this address, then report
    /// `Event::Added`.
    AddPeer(String),
    /// Post this payload to this topic, then report `Event::Published`.
    Publish { topic: Vec<u8>, payload: Vec<u8> },
}

/// A request, with sequences in place of strings and vectors.
pub enum RequestView {
    Wait(u64),
    Poll(Seq<u8>),
    FetchPeers,
    AddPeer(Seq<char>),
    Publish { topic: Seq<u8>, payload: Seq<u8> },
}

impl View for Request {
    type V = RequestView;

    open spec fn view(&self) -> RequestView {
        match *self {
            Request::Wait(seconds) => RequestView::Wait(seconds),
            Request::Poll(handle) => RequestView::Poll(handle.0@),
            Request::FetchPeers => RequestView::FetchPeers,
            Request::AddPeer(address) => RequestView::AddPeer(address@),
            Request::Publish { topic, payload } => RequestView::Publish {
                topic: topic@,
                payload: payload@,
            },
        }
    }
}

/// The answer to a request. `None` stands for a call that failed.
#[derive(Debug, PartialEq, Eq)]
pub enum Event {
    /// The pause is over.
    Woke,
    /// The payloads of the messages that the poll returned.
    Polled(Option<Vec<Vec<u8>>>),
    /// The live peer list.
    Peers(Option<Peers>),
    /// Whether the control API accepted the peer.
    Added(Option<bool>),
    /// Whether the bus accepted the announcement.
    Published(Option<bool>),
}

/// An event, with sequences in place of vectors.
pub enum EventView {
    Woke,
    Polled(Option<Seq<Seq<u8>>>),
    Peers(Option<Seq<Peer>>),
    Added(Option<bool>),
    Published(Option<bool>),
}

impl View for Event {
    type V = EventView;

    open spec fn view(&self) -> EventView {
        match *self {
            Event::Woke => EventView::Woke,
            Event::Polled(Some(payloads)) => EventView::Polled(Some(payload_views(payloads@))),
            Event::Polled(None) => EventView::Polled(None),
            Event::Peers(Some(peers)) => EventView::Peers(Some(peers.peers@)),
            Event::Peers(None) => EventView::Peers(None),
            Event::Added(accepted) => EventView::Added(accepted),
            Event::Published(accepted) => EventView::Published(accepted),
        }
    }
}

/// What the event that was just handled came to; it is what there is to log,
/// and, for `Added`, to record.
#[derive(Debug, PartialEq, Eq)]
pub enum Report {
    /// Nothing to tell.
    Nothing,
    /// A poll returned messages: so many held an announcement, so many were
    /// malformed and are skipped.
    Received { announcements: usize, malformed: usize },
    /// The poll failed; the tick goes on without messages.
    PollFailed,
    /// The announced node is among the live peers already.
    AlreadyKnown,
    /// The live peer list could not be fetched; the announcement is dropped.
    PeersUnavailable,
    /// The control API accepted the peer at this address: an addition.
    Added(String),
    /// The control API refused the peer at this address.
    Refused(String),
    /// The request to add the peer at this address failed.
    AddFailed(String),
    /// The re-announcement went out.
    Published,
    /// The bus refused the re-announcement.
    PublishRefused,
    /// The re-announcement could not be posted.
    PublishFailed,
    /// The event does not answer the request that is outstanding.
    Unexpected,
}

/// A report, with sequences in place of strings.
pub enum ReportView {
    Nothing,
    Received { announcements: nat, malformed: nat },
    PollFailed,
    AlreadyKnown,
    PeersUnavailable,
    Added(Seq<char>),
    Refused(Seq<char>),
    AddFailed(Seq<char>),
    Published,
    PublishRefused,
    PublishFailed,
    Unexpected,
}

impl View for Report {
    type V = ReportView;

    open spec fn view(&self) -> ReportView {
        match *self {
            Report::Nothing => ReportView::Nothing,
            Report::Received { announcements, malformed } => ReportView::Received {
                announcements: announcements as nat,
                malformed: malformed as nat,
            },
            Report::PollFailed => ReportView::PollFailed,
            Report::AlreadyKnown => ReportView::AlreadyKnown,
            Report::PeersUnavailable => ReportView::PeersUnavailable,
            Report::Added(address) => ReportView::Added(address@),
            Report::Refused(address) => ReportView::Refused(address@),
            Report::AddFailed(address) => ReportView::AddFailed(address@),
            Report::Published => ReportView::Published,
            Report::PublishRefused => ReportView::PublishRefused,
            Report::PublishFailed => ReportView::PublishFailed,
            Report::Unexpected => ReportView::Unexpected,
        }
    }
}

/// The outcome of one step.
#[derive(Debug, PartialEq, Eq)]
pub struct Step {
    pub report: Report,
    pub request: Request,
}

/// A step, with sequences in place of strings and vectors.
pub struct StepView {
    pub report: ReportView,
    pub request: RequestView,
}

impl View for Step {
    type V = StepView;

    open spec fn view(&self) -> StepView {
        StepView { report: self.report@, request: self.request@ }
    }
}

/// The state of the main loop.
#[derive(Debug)]
pub struct Engine {
    /// Length of the identities on this network.
    pub identity_len: usize,
    /// The topic under which nodes announce themselves.
    pub topic: Vec<u8>,
    /// The handle of the subscription to that topic.
    pub subscription: Binary,
    /// The payload that announces this node.
    pub announcement: Vec<u8>,
    /// The re-announcement timer.
    pub scheduler: Scheduler,
    /// What the engine is waiting for.
    pub phase: Phase,
    /// The announcements of this tick that are still to be reconciled, the
    /// next one first.
    pub pending: VecDeque<Announcement>,
}

/// The state of the main loop, with sequences in place of vectors.
pub struct EngineView {
    pub identity_len: nat,
    pub topic: Seq<u8>,
    pub subscription: Seq<u8>,
    pub announcement: Seq<u8>,
    pub scheduler: Scheduler,
    pub phase: PhaseView,
    pub pending: Seq<AnnouncementView>,
}

/// Announcements with their identities as sequences.
pub open spec fn announcement_views(announcements: Seq<Announcement>) -> Seq<AnnouncementView> {
    Seq::new(announcements.len(), |i: int| announcements[i]@)
}

impl View for Engine {
    type V = EngineView;

    open spec fn view(&self) -> EngineView {
        EngineView {
            identity_len: self.identity_len as nat,
            topic: self.topic@,
            subscription: self.subscription.0@,
            announcement: self.announcement@,
            scheduler: self.scheduler,
            phase: self.phase@,
            pending: announcement_views(self.pending@),
        }
    }
}

/// The announcements that a batch of payloads holds, in their order: a
/// malformed payload adds nothing and takes nothing away.
pub open spec fn decoded(payloads: Seq<Seq<u8>>, identity_len: nat) -> Seq<AnnouncementView>
    decreases payloads.len(),
{
    if payloads.len() == 0 {
        Seq::empty()
    } else {
        let before = decoded(payloads.drop_last(), identity_len);
        match parsed(payloads.last(), identity_len) {
            Some(announcement) => before.push(announcement),
            None => before,
        }
    }
}

/// How the engine goes on when it is done with an announcement, or with the
/// poll: to the next announcement of the tick; when none is left, to the
/// re-announcement if it is due at `now`, restarting the timer; else to the
/// pause of one poll interval.
pub open spec fn settle(s: EngineView, now: u64) -> (EngineView, RequestView) {
    if s.pending.len() > 0 {
        (
            EngineView {
                phase: PhaseView::FetchingPeers(s.pending[0]),
                pending: s.pending.drop_first(),
                ..s
            },
            RequestView::FetchPeers,
        )
    } else if s.scheduler.due_at(now) {
        (
            EngineView {
                phase: PhaseView::Publishing,
                scheduler: Scheduler { interval: s.scheduler.interval, last_publish: now },
                ..s
            },
            RequestView::Publish { topic: s.topic, payload: s.announcement },
        )
    } else {
        (EngineView { phase: PhaseView::Idle, ..s }, RequestView::Wait(POLL_INTERVAL_SECS))
    }
}

/// The request that a state is waiting on.
pub open spec fn outstanding(s: EngineView) -> RequestView {
    match s.phase {
        PhaseView::Idle => RequestView::Wait(POLL_INTERVAL_SECS),
        PhaseView::Polling => RequestView::Poll(s.subscription),
        PhaseView::FetchingPeers(_) => RequestView::FetchPeers,
        PhaseView::AddingPeer(a) => RequestView::AddPeer(connection_text(a.identity, a.endpoint)),
        PhaseView::Publishing => RequestView::Publish { topic: s.topic, payload: s.announcement },
    }
}

/// What the answer to a request to add the peer at `address` comes to.
pub open spec fn add_report(accepted: Option<bool>, address: Seq<char>) -> ReportView {
    match accepted {
        Some(true) => ReportView::Added(address),
        Some(false) => ReportView::Refused(address),
        None => ReportView::AddFailed(address),
    }
}

/// What the answer to a re-announcement comes to.
pub open spec fn publish_report(accepted: Option<bool>) -> ReportView {
    match accepted {
        Some(true) => ReportView::Published,
        Some(false) => ReportView::PublishRefused,
        None => ReportView::PublishFailed,
    }
}

/// The step that the state `s` takes on the event `e` at the clock reading
/// `now`.
pub open spec fn next(s: EngineView, e: EventView, now: u64) -> (EngineView, StepView) {
    match (s.phase, e) {
        (PhaseView::Idle, EventView::Woke) => (
            EngineView { phase: PhaseView::Polling, ..s },
            StepView { report: ReportView::Nothing, request: RequestView::Poll(s.subscription) },
        ),
        (PhaseView::Polling, EventView::Polled(Some(payloads))) => {
            let found = decoded(payloads, s.identity_len);
            let (t, request) = settle(EngineView { pending: found, ..s }, now);
            (
                t,
                StepView {
                    report: ReportView::Received {
                        announcements: found.len(),
                        malformed: (payloads.len() - found.len()) as nat,
                    },
                    request,
                },
            )
        },
        (PhaseView::Polling, EventView::Polled(None)) => {
            let (t, request) = settle(EngineView { pending: Seq::empty(), ..s }, now);
            (t, StepView { report: ReportView::PollFailed, request })
        },
        (PhaseView::FetchingPeers(a), EventView::Peers(Some(peers))) => {
            if reports(peers, hex_text(a.identity)) {
                let (t, request) = settle(s, now);
                (t, StepView { report: ReportView::AlreadyKnown, request })
            } else {
                (
                    EngineView { phase: PhaseView::AddingPeer(a), ..s },
                    StepView {
                        report: ReportView::Nothing,
                        request: RequestView::AddPeer(connection_text(a.identity, a.endpoint)),
                    },
                )
            }
        },
        (PhaseView::FetchingPeers(a), EventView::Peers(None)) => {
            let (t, request) = settle(s, now);
            (t, StepView { report: ReportView::PeersUnavailable, request })
        },
        (PhaseView::AddingPeer(a), EventView::Added(accepted)) => {
            let (t, request) = settle(s, now);
            (
                t,
                StepView {
                    report: add_report(accepted, connection_text(a.identity, a.endpoint)),
                    request,
                },
            )
        },
        (PhaseView::Publishing, EventView::Published(accepted)) => (
            EngineView { phase: PhaseView::Idle, ..s },
            StepView {
                report: publish_report(accepted),
                request: RequestView::Wait(POLL_INTERVAL_SECS),
            },
        ),
        _ => (s, StepView { report: ReportView::Unexpected, request: outstanding(s) }),
    }
}

/// The engine that takes over from a start-up that is done.
pub open spec fn started(b: BootstrapView, interval_secs: u16, now: u64) -> EngineView {
    EngineView {
        identity_len: b.phase->Ready_0.identity.len(),
        topic: b.topic,
        subscription: b.phase->Ready_1,
        announcement: wire_bytes(b.phase->Ready_0.identity, b.phase->Ready_0.endpoint),
        scheduler: Scheduler::spec_new(interval_secs, now),
        phase: PhaseView::Idle,
        pending: Seq::empty(),
    }
}

/// A batch holds at most as many announcements as payloads.
pub proof fn lemma_decoded_len(payloads: Seq<Seq<u8>>, identity_len: nat)
    ensures
        decoded(payloads, identity_len).len() <= payloads.len(),
    decreases payloads.len(),
{
    if payloads.len() > 0 {
        lemma_decoded_len(payloads.drop_last(), identity_len);
    }
}

/// The announcements that a batch of payloads holds, in their order.
pub fn decode_batch(payloads: &Vec<Vec<u8>>, identity_len: usize) -> (found: VecDeque<Announcement>)
    ensures
        announcement_views(found@) == decoded(payload_views(payloads@), identity_len as nat),
        found@.len() <= payloads@.len(),
{
    let mut found: VecDeque<Announcement> = VecDeque::new();
    let mut i: usize = 0;
    let ghost all = payload_views(payloads@);
    assert(all.take(0) =~= Seq::<Seq<u8>>::empty());
    assert(announcement_views(found@) =~= decoded(all.take(0), identity_len as nat));
    while i < payloads.len()
        invariant
            i <= payloads.len(),
            all == payload_views(payloads@),
            announcement_views(found@) == decoded(all.take(i as int), identity_len as nat),
        decreases payloads.len() - i,
    {
        let ghost before = announcement_views(found@);
        assert(all.take(i + 1).drop_last() =~= all.take(i as int));
        assert(all.take(i + 1).last() == payloads@[i as int]@);
        match decode(payloads[i].as_slice(), identity_len) {
            Ok(announcement) => {
                found.push_back(announcement);
                assert(announcement_views(found@) =~= before.push(announcement@));
            },
            Err(_) => {},
        }
        i = i + 1;
    }
    proof {
        assert(all.take(i as int) =~= all);
        lemma_decoded_len(all, identity_len as nat);
    }
    found
}

impl Engine {
    /// The engine of a node whose first announcement, `announcement`, went out
    /// under `topic` at the clock reading `now`, on a network with identities
    /// of `identity_len` bytes, polling the subscription `subscription` and
    /// re-announcing every `interval_secs` seconds. It starts in the pause
    /// before the first poll.
    pub fn new(
        identity_len: usize,
        topic: Vec<u8>,
        subscription: Binary,
        announcement: Vec<u8>,
        interval_secs: u16,
        now: u64,
    ) -> (engine: Engine)
        ensures
            engine@ == (EngineView {
                identity_len: identity_len as nat,
                topic: topic@,
                subscription: subscription.0@,
                announcement: announcement@,
                scheduler: Scheduler::spec_new(interval_secs, now),
                phase: PhaseView::Idle,
                pending: Seq::empty(),
            }),
    {
        let engine = Engine {
            identity_len,
            topic,
            subscription,
            announcement,
            scheduler: Scheduler::new(interval_secs, now),
            phase: Phase::Idle,
            pending: VecDeque::new(),
        };
        assert(announcement_views(engine.pending@) =~= Seq::<AnnouncementView>::empty());
        engine
    }

    /// The engine that takes over from a start-up that is done, when its
    /// first announcement went out at the clock reading `now`: it announces
    /// what the start-up announced, under the same topic, polls the
    /// subscription that the start-up made, and expects identities as long as
    /// the node's own. A start-up that is not done is handed back.
    pub fn start(bootstrap: Bootstrap, interval_secs: u16, now: u64) -> (outcome: Result<
        Engine,
        Bootstrap,
    >)
        ensures
            match outcome {
                Ok(engine) => engine@ == started(bootstrap@, interval_secs, now),
                Err(unchanged) => !(bootstrap@.phase is Ready) && unchanged@ == bootstrap@,
            },
            outcome is Ok <==> bootstrap@.phase is Ready,
    {
        let Bootstrap { topic, phase } = bootstrap;
        match phase {
            BootPhase::Ready(own, subscription) => {
                let announcement = encode(&own.identity, &own.endpoint);
                Ok(
                    Engine::new(
                        own.identity.bytes.len(),
                        topic,
                        subscription,
                        announcement,
                        interval_secs,
                        now,
                    ),
                )
            },
            phase => Err(Bootstrap { topic, phase }),
        }
    }

    /// The request to make first: the pause before the first poll.
    pub fn first_request() -> (request: Request)
        ensures
            request@ == RequestView::Wait(POLL_INTERVAL_SECS),
    {
        Request::Wait(POLL_INTERVAL_SECS)
    }

    /// The request that the engine is waiting on.
    pub fn outstanding(&self) -> (request: Request)
        ensures
            request@ == outstanding(self@),
    {
        match &self.phase {
            Phase::Idle => Request::Wait(POLL_INTERVAL_SECS),
            Phase::Polling => Request::Poll(Binary(slice_to_vec(self.subscription.0.as_slice()))),
            Phase::FetchingPeers(_) => Request::FetchPeers,
            Phase::AddingPeer(a) => Request::AddPeer(connection_string(&a.identity, &a.endpoint)),
            Phase::Publishing => Request::Publish {
                topic: slice_to_vec(self.topic.as_slice()),
                payload: slice_to_vec(self.announcement.as_slice()),
            },
        }
    }

    /// The engine in another phase, with the request that this phase waits on.
    fn enter(self, phase: Phase) -> (out: (Engine, Request))
        ensures
            out.0@ == (EngineView { phase: phase@, ..self@ }),
            out.1@ == outstanding(out.0@),
    {
        let engine = Engine { phase, ..self };
        let request = engine.outstanding();
        (engine, request)
    }

    /// Goes on to the next announcement, the re-announcement or the pause.
    fn settle(self, now: u64) -> (out: (Engine, Request))
        ensures
            (out.0@, out.1@) == settle(self@, now),
    {
        let mut engine = self;
        let ghost before = announcement_views(engine.pending@);
        match engine.pending.pop_front() {
            Some(next_up) => {
                assert(announcement_views(engine.pending@) =~= before.drop_first());
                engine.enter(Phase::FetchingPeers(next_up))
            },
            None => {
                assert(announcement_views(engine.pending@) =~= before);
                if engine.scheduler.tick(now) {
                    engine.enter(Phase::Publishing)
                } else {
                    engine.enter(Phase::Idle)
                }
            },
        }
    }

    /// Takes the step that answers `event` at the clock reading `now`: the
    /// state after it, what there is to report, and the request to make next.
    pub fn step(self, event: Event, now: u64) -> (out: (Engine, Step))
        ensures
            (out.0@, out.1@) == next(self@, event@, now),
    {
        let mut engine = self;
        let mut phase = Phase::Idle;
        std::mem::swap(&mut engine.phase, &mut phase);
        match (phase, event) {
            (Phase::Idle, Event::Woke) => {
                let (engine, request) = engine.enter(Phase::Polling);
                (engine, Step { report: Report::Nothing, request })
            },
            (Phase::Polling, Event::Polled(Some(payloads))) => {
                let found = decode_batch(&payloads, engine.identity_len);
                let report = Report::Received {
                    announcements: found.len(),
                    malformed: payloads.len() - found.len(),
                };
                engine.pending = found;
                let (engine, request) = engine.settle(now);
                (engine, Step { report, request })
            },
            (Phase::Polling, Event::Polled(None)) => {
                engine.pending = VecDeque::new();
                assert(announcement_views(engine.pending@) =~= Seq::<AnnouncementView>::empty());
                let (engine, request) = engine.settle(now);
                (engine, Step { report: Report::PollFailed, request })
            },
            (Phase::FetchingPeers(a), Event::Peers(Some(peers))) => {
                let id = identity_text(&a.identity);
                if peers.knows(&id) {
                    let (engine, request) = engine.settle(now);
                    (engine, Step { report: Report::AlreadyKnown, request })
                } else {
                    let (engine, request) = engine.enter(Phase::AddingPeer(a));
                    (engine, Step { report: Report::Nothing, request })
                }
            },
            (Phase::FetchingPeers(_), Event::Peers(None)) => {
                let (engine, request) = engine.settle(now);
                (engine, Step { report: Report::PeersUnavailable, request })
            },
            (Phase::AddingPeer(a), Event::Added(accepted)) => {
                let address = connection_string(&a.identity, &a.endpoint);
                let report = match accepted {
                    Some(true) => Report::Added(address),
                    Some(false) => Report::Refused(address),
                    None => Report::AddFailed(address),
                };
                let (engine, request) = engine.settle(now);
                (engine, Step { report, request })
            },
            (Phase::Publishing, Event::Published(accepted)) => {
                let report = match accepted {
                    Some(true) => Report::Published,
                    Some(false) => Report::PublishRefused,
                    None => Report::PublishFailed,
                };
                let (engine, request) = engine.enter(Phase::Idle);
                (engine, Step { report, request })
            },
            (phase, _) => {
                let (engine, request) = engine.enter(phase);
                (engine, Step { report: Report::Unexpected, request })
            },
        }
    }
}

/// The announcements of two batches, one after the other, are those of the
/// first and then those of the second.
pub proof fn lemma_decoded_concat(a: Seq<Seq<u8>>, b: Seq<Seq<u8>>, identity_len: nat)
    ensures
        decoded(a + b, identity_len) == decoded(a, identity_len) + decoded(b, identity_len),
    decreases b.len(),
{
    if b.len() == 0 {
        assert(a + b =~= a);
        assert(decoded(a, identity_len) + decoded(b, identity_len) =~= decoded(a, identity_len));
    } else {
        assert((a + b).drop_last() =~= a + b.drop_last());
        assert((a + b).last() == b.last());
        lemma_decoded_concat(a, b.drop_last(), identity_len);
        let front = decoded(a, identity_len);
        let back = decoded(b.drop_last(), identity_len);
        match parsed(b.last(), identity_len) {
            Some(announcement) => {
                assert((front + back).push(announcement) =~= front + back.push(announcement));
            },
            None => {},
        }
    }
}

/// One malformed payload does not touch the rest of its batch: the
/// announcements before it and after it are found as if it were not there.
pub proof fn lemma_malformed_is_skipped(
    before: Seq<Seq<u8>>,
    malformed: Seq<u8>,
    after: Seq<Seq<u8>>,
    identity_len: nat,
)
    requires
        parsed(malformed, identity_len) is None,
    ensures
        decoded(before + seq![malformed] + after, identity_len) == decoded(
            before + after,
            identity_len,
        ),
{
    let one = seq![malformed];
    assert(one.drop_last() =~= Seq::<Seq<u8>>::empty());
    assert(one.last() == malformed);
    assert(decoded(one.drop_last(), identity_len) =~= Seq::<AnnouncementView>::empty());
    assert(decoded(one, identity_len) =~= Seq::<AnnouncementView>::empty());
    lemma_decoded_concat(before, one, identity_len);
    lemma_decoded_concat(before + one, after, identity_len);
    lemma_decoded_concat(before, after, identity_len);
    assert(decoded(before, identity_len) + decoded(one, identity_len) =~= decoded(
        before,
        identity_len,
    ));
}

/// A payload that is the wire form of an announcement is found in its batch,
/// whatever stands before it.
pub proof fn lemma_well_formed_is_found(
    before: Seq<Seq<u8>>,
    payload: Seq<u8>,
    identity_len: nat,
)
    requires
        parsed(payload, identity_len) is Some,
    ensures
        decoded(before.push(payload), identity_len) == decoded(before, identity_len).push(
            parsed(payload, identity_len)->0,
        ),
{
    assert(before.push(payload).drop_last() =~= before);
}

/// Reconciliation is idempotent: when the announced node is among the live
/// peers, no request to add it is made.
pub proof fn lemma_known_peer_is_not_added(
    s: EngineView,
    announcement: AnnouncementView,
    peers: Seq<Peer>,
    now: u64,
)
    requires
        s.phase == PhaseView::FetchingPeers(announcement),
        reports(peers, hex_text(announcement.identity)),
    ensures
        !(next(s, EventView::Peers(Some(peers)), now).1.request is AddPeer),
        next(s, EventView::Peers(Some(peers)), now).1.report == ReportView::AlreadyKnown,
{
}

/// Whether the event is a live peer list in which the node that the state is
/// looking up is missing.
pub open spec fn finds_unknown(s: EngineView, e: EventView) -> bool {
    match (s.phase, e) {
        (PhaseView::FetchingPeers(a), EventView::Peers(Some(peers))) => !reports(
            peers,
            hex_text(a.identity),
        ),
        _ => false,
    }
}

/// A request to add a peer answers a live peer list in which the announced
/// node is missing, and names that node at the announced endpoint.
pub proof fn lemma_add_follows_lookup(s: EngineView, e: EventView, now: u64)
    requires
        next(s, e, now).1.report != ReportView::Unexpected,
    ensures
        next(s, e, now).1.request is AddPeer <==> finds_unknown(s, e),
        finds_unknown(s, e) ==> next(s, e, now).1.request == RequestView::AddPeer(
            connection_text(
                s.phase->FetchingPeers_0.identity,
                s.phase->FetchingPeers_0.endpoint,
            ),
        ),
{
}

/// A failure is isolated: however the lookup or the request to add a peer
/// ends, the engine goes on with the rest of the tick in the same way.
pub proof fn lemma_failure_is_isolated(s: EngineView, accepted: Option<bool>, now: u64)
    ensures
        s.phase is AddingPeer ==> next(s, EventView::Added(accepted), now).0 == settle(s, now).0
            && next(s, EventView::Added(accepted), now).1.request == settle(s, now).1,
        s.phase is FetchingPeers ==> next(s, EventView::Peers(None), now).0 == settle(s, now).0
            && next(s, EventView::Peers(None), now).1.request == settle(s, now).1,
        s.phase is Polling ==> next(s, EventView::Polled(None), now).1.request !is Poll,
{
}

/// An addition is reported exactly when the control API accepted the peer.
pub proof fn lemma_addition_is_acceptance(s: EngineView, e: EventView, now: u64)
    ensures
        next(s, e, now).1.report is Added <==> s.phase is AddingPeer && e == EventView::Added(
            Some(true),
        ),
{
}

/// No re-announcement goes out before it is due: the request is not made, and
/// the timer runs on.
pub proof fn lemma_no_publish_before_due(s: EngineView, e: EventView, now: u64)
    requires
        !s.scheduler.due_at(now),
        next(s, e, now).1.report != ReportView::Unexpected,
    ensures
        !(next(s, e, now).1.request is Publish),
        next(s, e, now).0.scheduler == s.scheduler,
{
}

/// The re-announcement comes after the messages: it is asked for only when no
/// announcement of the tick is left, and only when it is due.
pub proof fn lemma_publish_follows_batch(s: EngineView, e: EventView, now: u64)
    requires
        next(s, e, now).1.request is Publish,
        next(s, e, now).1.report != ReportView::Unexpected,
    ensures
        next(s, e, now).0.pending.len() == 0,
        next(s, e, now).0.phase == PhaseView::Publishing,
        s.scheduler.due_at(now),
        next(s, e, now).0.scheduler.last_publish == now,
        next(s, e, now).1.request == (RequestView::Publish {
            topic: s.topic,
            payload: s.announcement,
        }),
{
}

/// From announcement to addition: when the poll returns the payload of one
/// announcement and the live peer list does not hold its node, the engine asks
/// for the peer list, then for the node to be added under the address made of
/// its identity and endpoint, and reports the addition once it is accepted.
pub proof fn lemma_announcement_leads_to_addition(
    s: EngineView,
    announcement: AnnouncementView,
    peers: Seq<Peer>,
    now: u64,
)
    requires
        s.phase == PhaseView::Polling,
        s.identity_len == announcement.identity.len(),
        !reports(peers, hex_text(announcement.identity)),
    ensures
        ({
            let payload = wire_bytes(announcement.identity, announcement.endpoint);
            let address = connection_text(announcement.identity, announcement.endpoint);
            let polled = next(s, EventView::Polled(Some(seq![payload])), now);
            let looked_up = next(polled.0, EventView::Peers(Some(peers)), now);
            let added = next(looked_up.0, EventView::Added(Some(true)), now);
            &&& polled.1.report == (ReportView::Received { announcements: 1, malformed: 0 })
            &&& polled.1.request == RequestView::FetchPeers
            &&& looked_up.1.request == RequestView::AddPeer(address)
            &&& added.1.report == ReportView::Added(address)
            &&& !(added.1.request is FetchPeers)
            &&& !(added.1.request is AddPeer)
        }),
{
    let payload = wire_bytes(announcement.identity, announcement.endpoint);
    lemma_decode_encode(announcement.identity, announcement.endpoint);
    let batch = seq![payload];
    assert(batch.drop_last() =~= Seq::<Seq<u8>>::empty());
    assert(batch.last() == payload);
    assert(decoded(batch.drop_last(), s.identity_len) =~= Seq::<AnnouncementView>::empty());
    assert(decoded(batch, s.identity_len) =~= seq![announcement]);
    let found = decoded(batch, s.identity_len);
    assert(found.drop_first() =~= Seq::<AnnouncementView>::empty());
}

/// The engine that takes over from the start-up goes on where that ended:
/// it re-announces the payload of the first announcement, and reads that
/// payload as the node's own identity and endpoint.
pub proof fn lemma_started_engine_announces_itself(
    b: BootstrapView,
    own: AnnouncementView,
    handle: Seq<u8>,
    interval_secs: u16,
    now: u64,
)
    requires
        b.phase == BootPhaseView::Ready(own, handle),
    ensures
        started(b, interval_secs, now).announcement == wire_bytes(own.identity, own.endpoint),
        parsed(
            started(b, interval_secs, now).announcement,
            started(b, interval_secs, now).identity_len,
        ) == Some(own),
        started(b, interval_secs, now).subscription == handle,
        started(b, interval_secs, now).topic == b.topic,
        !started(b, interval_secs, now).scheduler.due_at(now) || interval_secs == 0,
{
    lemma_decode_encode(own.identity, own.endpoint);
}

} // verus!
