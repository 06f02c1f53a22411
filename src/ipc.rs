use vstd::prelude::*;

use crate::payload::PublishMessage;

verus! {

/// A message received from the broker.
#[derive(Clone, Debug)]
pub struct InboundMessage {
    pub topic: String,
    pub payload: Vec<u8>,
}

/// What travels on the bus between tasks.
#[derive(Clone, Debug)]
pub enum IPCMessage {
    /// A message to be delivered to the broker.
    Outbound(PublishMessage),
    /// A message that came from the broker.
    Inbound(InboundMessage),
    /// A request to open a new broker session: a reason and a detail.
    PleaseReconnect(String, String),
    /// A non-fatal error report.
    Error(String),
    /// Stop processing and leave the task's loop.
    Shutdown,
}

/// Capacity of each point-to-point queue of the bus.
pub const MPSC_BUFFER_SIZE: usize = 512;

/// Capacity of each subscriber's buffer on the shutdown broadcast.
pub const BROADCAST_BUFFER_SIZE: usize = 16;

} // verus!
