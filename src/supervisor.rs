use vstd::prelude::*;

use crate::ipc::IPCMessage;
use crate::payload::PublishMessage;

verus! {

/// The process-wide request to stop. It can be set, and never cleared.
pub struct ShutdownFlag {
    set: bool,
}

impl ShutdownFlag {
    pub closed spec fn spec_is_set(&self) -> bool {
        self.set
    }

    /// A flag that is not set.
    pub fn new() -> (r: Self)
        ensures
            !r.spec_is_set(),
    {
        ShutdownFlag { set: false }
    }

    /// Sets the flag; setting it again changes nothing.
    pub fn request(&mut self)
        ensures
            final(self).spec_is_set(),
    {
        self.set = true;
    }

    /// Whether the flag is set.
    pub fn is_set(&self) -> (r: bool)
        ensures
            r == self.spec_is_set(),
    {
        self.set
    }
}

/// What the supervisor does about the tasks it owns.
#[derive(Clone, Copy, Debug, PartialEq, Eq)]
pub enum Liveness {
    /// Leave the loop: shutdown was requested.
    Exit,
    /// Start a new data-collection task in place of the finished one.
    RestartCollector,
    /// Carry on with the current tasks.
    Continue,
}

pub open spec fn spec_liveness(shutdown_set: bool, collector_finished: bool) -> Liveness {
    if shutdown_set {
        Liveness::Exit
    } else if collector_finished {
        Liveness::RestartCollector
    } else {
        Liveness::Continue
    }
}

/// First step of each supervisor pass: leave when shutdown is requested,
/// else restart the data-collection task exactly when it has finished.
pub fn check_liveness(shutdown_set: bool, collector_finished: bool) -> (r: Liveness)
    ensures
        r == spec_liveness(shutdown_set, collector_finished),
        r is RestartCollector <==> (!shutdown_set && collector_finished),
{
    if shutdown_set {
        Liveness::Exit
    } else if collector_finished {
        Liveness::RestartCollector
    } else {
        Liveness::Continue
    }
}

/// The number of data-collection tasks running after the decision `l`, given
/// whether the current one had finished.
pub open spec fn incarnations_after(collector_finished: bool, l: Liveness) -> nat {
    (if collector_finished { 0nat } else { 1nat }) + (if l is RestartCollector { 1nat } else { 0nat })
}

/// The supervisor restarts the data-collection task if and only if it has
/// finished, so at most one incarnation runs at any time, and exactly one
/// while no shutdown is requested.
pub proof fn lemma_single_incarnation(shutdown_set: bool, collector_finished: bool)
    ensures
        spec_liveness(shutdown_set, collector_finished) is RestartCollector <==> (!shutdown_set
            && collector_finished),
        incarnations_after(collector_finished, spec_liveness(shutdown_set, collector_finished))
            <= 1,
        !shutdown_set ==> incarnations_after(
            collector_finished,
            spec_liveness(shutdown_set, collector_finished),
        ) == 1,
{
}

/// What a non-blocking receive from the collector's queue gave.
pub enum Received {
    Message(IPCMessage),
    Empty,
    Disconnected,
}

/// What the supervisor does with what it received.
pub enum Route {
    /// Send the message on to the broker task, waiting for room in its queue.
    Forward(PublishMessage),
    /// Nothing to do.
    Ignore,
    /// Report that the collector's queue has no sender left.
    ReportDisconnected,
}

pub open spec fn spec_route(r: Received) -> Route {
    match r {
        Received::Message(IPCMessage::Outbound(m)) => Route::Forward(m),
        Received::Disconnected => Route::ReportDisconnected,
        _ => Route::Ignore,
    }
}

/// Routes what came from the collector: a message for the broker is
/// forwarded unchanged; the other messages are accepted and not acted upon.
pub fn route(r: Received) -> (out: Route)
    ensures
        out == spec_route(r),
{
    match r {
        Received::Message(IPCMessage::Outbound(m)) => Route::Forward(m),
        Received::Disconnected => Route::ReportDisconnected,
        _ => Route::Ignore,
    }
}

/// How sending a message to the broker task's queue ended. The send waits
/// while the queue is full, so it ends only once the message is queued or the
/// receiver is gone.
#[derive(Clone, Copy, Debug, PartialEq, Eq)]
pub enum ForwardResult {
    Queued,
    ReceiverGone,
}

/// Whether the process must terminate after a forward: it must when the
/// broker task's queue has lost its receiver.
pub open spec fn spec_forward_is_fatal(f: ForwardResult) -> bool {
    f is ReceiverGone
}

pub fn forward_is_fatal(f: ForwardResult) -> (r: bool)
    ensures
        r == spec_forward_is_fatal(f),
{
    match f {
        ForwardResult::Queued => false,
        ForwardResult::ReceiverGone => true,
    }
}

/// No outbound message is lost without an error path: each one received is
/// forwarded as it is, and a forward either queues it (after waiting for
/// room) or, when the receiver is gone, terminates the process.
pub proof fn lemma_outbound_not_dropped(m: PublishMessage, f: ForwardResult)
    ensures
        spec_route(Received::Message(IPCMessage::Outbound(m))) == Route::Forward(m),
        f is Queued || spec_forward_is_fatal(f),
{
}

} // verus!
