//! The UDP transport to the gateway: what is taken out of a receive buffer,
//! and what the sender task and the receive loop do next. The socket and the
//! queue are the caller's.

use vstd::prelude::*;
use crate::libs::wire::copy_range;

verus! {

/// How many datagrams may wait in the send queue.
pub const SEND_QUEUE_DEPTH: usize = 100;

/// The bytes of the buffer that one read fills at most.
pub const RECEIVE_BUFFER_LEN: usize = 1024;

/// The datagram that a read of `len` bytes left in `buffer`: its first `len`
/// bytes, or all of it where it holds fewer.
pub open spec fn datagram_in(buffer: Seq<u8>, len: nat) -> Seq<u8> {
    if len <= buffer.len() {
        buffer.subrange(0, len as int)
    } else {
        buffer
    }
}

/// The datagram that a read of `len` bytes left in `buffer`.
pub fn received_datagram(buffer: &[u8], len: usize) -> (datagram: Vec<u8>)
    ensures
        datagram@ == datagram_in(buffer@, len as nat),
{
    let end: usize = if len <= buffer.len() {
        len
    } else {
        buffer.len()
    };
    copy_range(buffer, 0, end)
}

/// The step that the sender task is about to take.
#[derive(Debug, Clone, Copy, PartialEq, Eq, Structural)]
pub enum SenderStep {
    /// Wait for the next datagram in the queue.
    Take,
    /// Send the datagram to the gateway.
    Send,
    /// End the task.
    Stop,
}

/// The step that follows `step` of the sender task. The task ends when the
/// queue is closed. A datagram that could not be sent is given up, and the
/// next one is taken: the datagrams leave in the order in which they were
/// queued, one at a time.
pub open spec fn sender_next(step: SenderStep, succeeded: bool) -> SenderStep {
    match step {
        SenderStep::Take => if succeeded {
            SenderStep::Send
        } else {
            SenderStep::Stop
        },
        SenderStep::Send => SenderStep::Take,
        SenderStep::Stop => SenderStep::Stop,
    }
}

/// The sender task's first step.
pub fn sender_start() -> (step: SenderStep)
    ensures
        step == SenderStep::Take,
{
    SenderStep::Take
}

/// The step to take after `step` of the sender task ended as `succeeded`
/// says.
pub fn sender_advance(step: SenderStep, succeeded: bool) -> (next: SenderStep)
    ensures
        next == sender_next(step, succeeded),
{
    match step {
        SenderStep::Take => if succeeded {
            SenderStep::Send
        } else {
            SenderStep::Stop
        },
        SenderStep::Send => SenderStep::Take,
        SenderStep::Stop => SenderStep::Stop,
    }
}

/// The step that the receive loop is about to take.
#[derive(Debug, Clone, Copy, PartialEq, Eq, Structural)]
pub enum ReceiverStep {
    /// Read one datagram from the socket.
    Receive,
    /// Hand the datagram and its sender to the caller's handler.
    Deliver,
    /// Leave the loop and hand the read's error to the caller.
    Fail,
}

/// The step that follows `step` of the receive loop. The loop runs until a
/// read fails; it does not try again.
pub open spec fn receiver_next(step: ReceiverStep, succeeded: bool) -> ReceiverStep {
    match step {
        ReceiverStep::Receive => if succeeded {
            ReceiverStep::Deliver
        } else {
            ReceiverStep::Fail
        },
        ReceiverStep::Deliver => ReceiverStep::Receive,
        ReceiverStep::Fail => ReceiverStep::Fail,
    }
}

/// The receive loop's first step.
pub fn receiver_start() -> (step: ReceiverStep)
    ensures
        step == ReceiverStep::Receive,
{
    ReceiverStep::Receive
}

/// The step to take after `step` of the receive loop ended as `succeeded`
/// says.
pub fn receiver_advance(step: ReceiverStep, succeeded: bool) -> (next: ReceiverStep)
    ensures
        next == receiver_next(step, succeeded),
{
    match step {
        ReceiverStep::Receive => if succeeded {
            ReceiverStep::Deliver
        } else {
            ReceiverStep::Fail
        },
        ReceiverStep::Deliver => ReceiverStep::Receive,
        ReceiverStep::Fail => ReceiverStep::Fail,
    }
}

/// Only a closed queue ends the sender task, and only a failed read ends the
/// receive loop; each datagram that was taken is sent before the next one is
/// taken, and each one that was read is delivered before the next read.
pub proof fn lemma_transport_loops(sender: SenderStep, receiver: ReceiverStep, succeeded: bool)
    ensures
        sender != SenderStep::Stop && sender_next(sender, succeeded) == SenderStep::Stop ==> sender
            == SenderStep::Take && !succeeded,
        receiver != ReceiverStep::Fail && receiver_next(receiver, succeeded) == ReceiverStep::Fail
            ==> receiver == ReceiverStep::Receive && !succeeded,
        sender_next(sender, succeeded) == SenderStep::Send <==> sender == SenderStep::Take
            && succeeded,
        receiver_next(receiver, succeeded) == ReceiverStep::Deliver <==> receiver
            == ReceiverStep::Receive && succeeded,
        sender_next(SenderStep::Send, succeeded) == SenderStep::Take,
        receiver_next(ReceiverStep::Deliver, succeeded) == ReceiverStep::Receive,
{
}

} // verus!
