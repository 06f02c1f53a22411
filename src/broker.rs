use vstd::prelude::*;
use vstd::string::*;

use crate::ipc::IPCMessage;
use crate::payload::PublishMessage;
use crate::pending::PendingPublishes;

verus! {

/// Poll interval of the broker task's outer loop, in milliseconds.
pub const MQTT_POLL_INTERVAL_MILLIS: u64 = 50;

/// How long a publish call may wait to be accepted by the session, in milliseconds.
pub const PUBLISH_TIMEOUT_MILLIS: u64 = 3000;

/// Keep-alive interval of the broker session, in seconds.
pub const MQTT_KEEPALIVE_TIME: u64 = 5;

/// Capacity of the broker client's request queue.
pub const MQTT_THREAD_CHANNEL_CAPACITY: usize = 32;

/// A protocol event reported by the broker session.
#[derive(Clone, Copy, Debug, PartialEq, Eq)]
pub enum BrokerEvent {
    ConnAck,
    PubAck(u16),
    PingResp,
    IncomingDisconnect,
    IncomingOther,
    OutgoingPublish(u16),
    OutgoingPingReq,
    OutgoingOther,
}

/// What the event pump does after an event.
#[derive(Clone, Copy, Debug, PartialEq, Eq)]
pub enum PumpStep {
    Continue,
    Stop,
}

/// The pending set after `ev`: an emitted publish adds its identifier, an
/// acknowledgement removes it, and other events leave the set alone.
pub open spec fn pending_after(p: Set<u16>, ev: BrokerEvent) -> Set<u16> {
    match ev {
        BrokerEvent::OutgoingPublish(id) => p.insert(id),
        BrokerEvent::PubAck(id) => p.remove(id),
        _ => p,
    }
}

/// The pump stops when the broker ends the session.
pub open spec fn pump_step_of(ev: BrokerEvent) -> PumpStep {
    match ev {
        BrokerEvent::IncomingDisconnect => PumpStep::Stop,
        _ => PumpStep::Continue,
    }
}

/// The state of the event pump: the publishes still awaiting acknowledgement.
pub struct EventPump {
    pending: PendingPublishes,
}

impl View for EventPump {
    type V = Set<u16>;

    closed spec fn view(&self) -> Set<u16> {
        self.pending@
    }
}

impl EventPump {
    pub closed spec fn wf(&self) -> bool {
        self.pending.wf()
    }

    /// A pump with nothing pending.
    pub fn new() -> (r: Self)
        ensures
            r.wf(),
            r@ == Set::<u16>::empty(),
    {
        EventPump { pending: PendingPublishes::new() }
    }

    /// Takes one event into account.
    pub fn handle(&mut self, ev: BrokerEvent) -> (r: PumpStep)
        requires
            old(self).wf(),
        ensures
            final(self).wf(),
            final(self)@ == pending_after(old(self)@, ev),
            r == pump_step_of(ev),
    {
        match ev {
            BrokerEvent::OutgoingPublish(id) => {
                self.pending.record_publish(id);
                PumpStep::Continue
            },
            BrokerEvent::PubAck(id) => {
                let _ = self.pending.acknowledge(id);
                PumpStep::Continue
            },
            BrokerEvent::IncomingDisconnect => PumpStep::Stop,
            _ => PumpStep::Continue,
        }
    }

    /// Whether a publish with identifier `id` awaits acknowledgement.
    pub fn is_pending(&self, id: u16) -> (r: bool)
        ensures
            r == self@.contains(id),
    {
        self.pending.contains(id)
    }

    /// The number of publishes awaiting acknowledgement.
    pub fn pending_count(&self) -> (r: usize)
        requires
            self.wf(),
        ensures
            r as nat == self@.len(),
    {
        self.pending.len()
    }
}

/// One thing the broker task's outer loop observed.
pub enum Observation {
    /// The event pump has finished.
    PumpFinished,
    /// A message arrived on the shutdown broadcast.
    Broadcast(IPCMessage),
    /// A message arrived on the queue from the supervisor.
    Queued(IPCMessage),
    /// The queue from the supervisor has no sender left.
    QueueClosed,
    /// Nothing was ready.
    Nothing,
}

/// What the broker task does in answer to an observation.
pub enum BrokerAction {
    /// Terminate the process: the session is gone.
    Fatal,
    /// Ask the session to disconnect, then leave the loop.
    Disconnect,
    /// Publish the message, at least once.
    Publish(PublishMessage),
    /// Report that the queue from the supervisor is closed.
    ReportQueueClosed,
    /// Nothing to do.
    Idle,
}

/// `o` carries a shutdown request.
pub open spec fn is_shutdown(o: Observation) -> bool {
    match o {
        Observation::Broadcast(IPCMessage::Shutdown) => true,
        Observation::Queued(IPCMessage::Shutdown) => true,
        _ => false,
    }
}

/// The next stopped flag and the action, given whether the task has already
/// seen a shutdown.
pub open spec fn spec_step(stopped: bool, o: Observation) -> (bool, BrokerAction) {
    if stopped {
        (true, BrokerAction::Idle)
    } else if is_shutdown(o) {
        (true, BrokerAction::Disconnect)
    } else {
        match o {
            Observation::PumpFinished => (false, BrokerAction::Fatal),
            Observation::Queued(IPCMessage::Outbound(m)) => (false, BrokerAction::Publish(m)),
            Observation::QueueClosed => (false, BrokerAction::ReportQueueClosed),
            _ => (false, BrokerAction::Idle),
        }
    }
}

/// The actions taken for a run of observations, from the given stopped flag.
pub open spec fn spec_run(stopped: bool, obs: Seq<Observation>) -> Seq<BrokerAction>
    decreases obs.len(),
{
    if obs.len() == 0 {
        Seq::empty()
    } else {
        let (next, a) = spec_step(stopped, obs[0]);
        seq![a] + spec_run(next, obs.drop_first())
    }
}

/// The decisions of the broker task's outer loop.
pub struct BrokerLoop {
    stopped: bool,
}

impl BrokerLoop {
    /// Whether a shutdown has been seen.
    pub closed spec fn spec_stopped(&self) -> bool {
        self.stopped
    }

    /// A loop that has seen no shutdown.
    pub fn new() -> (r: Self)
        ensures
            !r.spec_stopped(),
    {
        BrokerLoop { stopped: false }
    }

    /// Whether a shutdown has been seen.
    pub fn is_stopped(&self) -> (r: bool)
        ensures
            r == self.spec_stopped(),
    {
        self.stopped
    }

    /// Decides what to do about one observation.
    pub fn step(&mut self, o: Observation) -> (r: BrokerAction)
        ensures
            (final(self).spec_stopped(), r) == spec_step(old(self).spec_stopped(), o),
    {
        if self.stopped {
            return BrokerAction::Idle;
        }
        match o {
            Observation::Broadcast(IPCMessage::Shutdown) => {
                self.stopped = true;
                BrokerAction::Disconnect
            },
            Observation::Queued(IPCMessage::Shutdown) => {
                self.stopped = true;
                BrokerAction::Disconnect
            },
            Observation::PumpFinished => BrokerAction::Fatal,
            Observation::Queued(IPCMessage::Outbound(m)) => BrokerAction::Publish(m),
            Observation::QueueClosed => BrokerAction::ReportQueueClosed,
            _ => BrokerAction::Idle,
        }
    }
}

/// How a publish call ended.
pub enum PublishOutcome {
    /// The session accepted the publish.
    Accepted,
    /// The session refused it, with a description.
    Rejected(String),
    /// The call was not accepted within the publish timeout.
    TimedOut,
}

pub open spec fn spec_outcome_report(o: PublishOutcome) -> Option<Seq<char>> {
    match o {
        PublishOutcome::Accepted => None,
        PublishOutcome::Rejected(e) => Some("Couldn't send message: "@ + e@),
        PublishOutcome::TimedOut => Some("Timeout trying to mqtt publish!"@),
    }
}

/// The line to log for a publish outcome, if any. A failed publish is only
/// reported: it is never tried again.
pub fn outcome_report(o: PublishOutcome) -> (r: Option<String>)
    ensures
        match r {
            Some(s) => spec_outcome_report(o) == Some(s@),
            None => spec_outcome_report(o) is None,
        },
{
    match o {
        PublishOutcome::Accepted => None,
        PublishOutcome::Rejected(e) => {
            let mut s = String::from_str("Couldn't send message: ");
            s.append(e.as_str());
            Some(s)
        },
        PublishOutcome::TimedOut => Some(String::from_str("Timeout trying to mqtt publish!")),
    }
}

/// The run of actions has one action per observation.
pub proof fn lemma_run_len(stopped: bool, obs: Seq<Observation>)
    ensures
        spec_run(stopped, obs).len() == obs.len(),
    decreases obs.len(),
{
    if obs.len() > 0 {
        let (next, a) = spec_step(stopped, obs[0]);
        lemma_run_len(next, obs.drop_first());
    }
}

/// Once stopped, the task does nothing more.
pub proof fn lemma_stopped_run_is_idle(obs: Seq<Observation>, j: int)
    requires
        0 <= j < obs.len(),
    ensures
        spec_run(true, obs)[j] is Idle,
    decreases obs.len(),
{
    lemma_run_len(true, obs.drop_first());
    if j > 0 {
        lemma_stopped_run_is_idle(obs.drop_first(), j - 1);
    }
}

/// After a shutdown is observed, the broker task asks the session to
/// disconnect (unless it already had), and it publishes nothing for any later
/// observation, even a message queued behind the shutdown.
pub proof fn lemma_no_publish_after_shutdown(stopped: bool, obs: Seq<Observation>, i: int, j: int)
    requires
        0 <= i < j < obs.len(),
        is_shutdown(obs[i]),
    ensures
        !(spec_run(stopped, obs)[j] is Publish),
        spec_run(stopped, obs)[j] is Idle,
        !stopped ==> (forall|k: int| 0 <= k < i ==> !is_shutdown(#[trigger] obs[k]))
            ==> spec_run(stopped, obs)[i] is Disconnect,
    decreases obs.len(),
{
    let (next, a) = spec_step(stopped, obs[0]);
    lemma_run_len(next, obs.drop_first());
    if i == 0 {
        assert(next);
        lemma_stopped_run_is_idle(obs.drop_first(), j - 1);
    } else {
        lemma_no_publish_after_shutdown(next, obs.drop_first(), i - 1, j - 1);
        if !stopped && (forall|k: int| 0 <= k < i ==> !is_shutdown(#[trigger] obs[k])) {
            assert(!is_shutdown(obs[0]));
            assert(!next);
            assert forall|k: int| 0 <= k < i - 1 implies !is_shutdown(#[trigger] obs.drop_first()[k]) by {
                assert(obs.drop_first()[k] == obs[k + 1]);
            }
        }
    }
}

/// An acknowledgement for a pending publish removes exactly that publish;
/// a second acknowledgement for it changes nothing.
pub proof fn lemma_duplicate_ack(p: Set<u16>, id: u16)
    requires
        p.finite(),
        p.contains(id),
    ensures
        pending_after(p, BrokerEvent::PubAck(id)).len() == p.len() - 1,
        !pending_after(p, BrokerEvent::PubAck(id)).contains(id),
        pending_after(pending_after(p, BrokerEvent::PubAck(id)), BrokerEvent::PubAck(id))
            == pending_after(p, BrokerEvent::PubAck(id)),
{
    assert(p.remove(id).remove(id) =~= p.remove(id));
}

/// A publish is pending right after it is emitted, and the first matching
/// acknowledgement removes it; further acknowledgements leave the set as it is.
pub proof fn lemma_publish_then_ack(p: Set<u16>, id: u16)
    ensures
        pending_after(p, BrokerEvent::OutgoingPublish(id)).contains(id),
        !pending_after(
            pending_after(p, BrokerEvent::OutgoingPublish(id)),
            BrokerEvent::PubAck(id),
        ).contains(id),
        pending_after(
            pending_after(
                pending_after(p, BrokerEvent::OutgoingPublish(id)),
                BrokerEvent::PubAck(id),
            ),
            BrokerEvent::PubAck(id),
        ) == pending_after(
            pending_after(p, BrokerEvent::OutgoingPublish(id)),
            BrokerEvent::PubAck(id),
        ),
        pending_after(pending_after(p, BrokerEvent::OutgoingPublish(id)), BrokerEvent::PubAck(id))
            == p.remove(id),
{
    assert(p.insert(id).remove(id).remove(id) =~= p.insert(id).remove(id));
    assert(p.insert(id).remove(id) =~= p.remove(id));
}

} // verus!
