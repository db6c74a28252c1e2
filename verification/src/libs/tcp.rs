//! The relay worker for TCP connections: what opens a substream, and what
//! the worker and each bridged connection do next. The calls themselves,
//! connecting, accepting, reading and writing, are the caller's; here is what
//! follows from how each of them ended.

use vstd::prelude::*;
use vstd::string::StringSliceAdditionalSpecFns;
use crate::libs::error::VpnError;
use crate::libs::wire::{be16, push_all, push_be16};

verus! {

/// The first byte on a relay connection that is to carry TCP substreams.
pub const CMD_TCP: u8 = 2;

/// The seconds between two keep-alive frames of the multiplexing session.
pub const KEEP_ALIVE_SECS: u64 = 30;

/// The longest destination whose length fits the two bytes before it.
pub const MAX_TARGET_LEN: usize = 65535;

/// What a substream starts with: the length of the destination in network
/// order, then the destination itself.
pub open spec fn preamble_bytes(target: Seq<u8>) -> Seq<u8>
    recommends
        target.len() <= MAX_TARGET_LEN,
{
    be16(target.len() as u16) + target
}

/// The first bytes to write on a substream towards `target`, a destination
/// written as host, colon, port. `None` where the destination is too long for
/// its length to be written in two bytes.
pub fn substream_preamble(target: &str) -> (result: Option<Vec<u8>>)
    ensures
        target.spec_bytes().len() <= MAX_TARGET_LEN ==> (result matches Some(bytes) && bytes@
            == preamble_bytes(target.spec_bytes())),
        target.spec_bytes().len() > MAX_TARGET_LEN ==> result is None,
{
    let bytes = target.as_bytes();
    let len: usize = bytes.len();
    if len > MAX_TARGET_LEN {
        return None;
    }
    let mut out: Vec<u8> = Vec::new();
    push_be16(&mut out, len as u16);
    push_all(&mut out, bytes);
    Some(out)
}

/// The step that the worker is about to take.
#[derive(Debug, Clone, Copy, PartialEq, Eq, Structural)]
pub enum WorkerStep {
    /// Connect to the relay.
    Connect,
    /// Send the mode byte `CMD_TCP`.
    Announce,
    /// Start the multiplexing session, with its keep-alive, on the connection.
    StartSession,
    /// Take the next intercepted connection from the local stack.
    Accept,
    /// Open a substream for the connection just taken.
    OpenSubstream,
    /// Hand the connection and its substream to a task of their own.
    Dispatch,
    /// Give control back to the caller.
    Return,
}

/// The step that follows `step`, given whether it succeeded and whether the
/// liveness flag is still set. Any failure ends the worker. The flag is looked
/// at before each accept, and nowhere else.
pub open spec fn worker_next(step: WorkerStep, succeeded: bool, running: bool) -> WorkerStep {
    if !succeeded {
        WorkerStep::Return
    } else {
        match step {
            WorkerStep::Connect => WorkerStep::Announce,
            WorkerStep::Announce => WorkerStep::StartSession,
            WorkerStep::StartSession | WorkerStep::Dispatch => if running {
                WorkerStep::Accept
            } else {
                WorkerStep::Return
            },
            WorkerStep::Accept => WorkerStep::OpenSubstream,
            WorkerStep::OpenSubstream => WorkerStep::Dispatch,
            WorkerStep::Return => WorkerStep::Return,
        }
    }
}

/// The worker's first step.
pub fn worker_start() -> (step: WorkerStep)
    ensures
        step == WorkerStep::Connect,
{
    WorkerStep::Connect
}

/// The step to take after `step` ended as `succeeded` says, with the liveness
/// flag as `running` says.
pub fn worker_advance(step: WorkerStep, succeeded: bool, running: bool) -> (next: WorkerStep)
    ensures
        next == worker_next(step, succeeded, running),
{
    if !succeeded {
        return WorkerStep::Return;
    }
    match step {
        WorkerStep::Connect => WorkerStep::Announce,
        WorkerStep::Announce => WorkerStep::StartSession,
        WorkerStep::StartSession | WorkerStep::Dispatch => {
            if running {
                WorkerStep::Accept
            } else {
                WorkerStep::Return
            }
        },
        WorkerStep::Accept => WorkerStep::OpenSubstream,
        WorkerStep::OpenSubstream => WorkerStep::Dispatch,
        WorkerStep::Return => WorkerStep::Return,
    }
}

/// What the caller is told when `step` failed: the relay could not be reached
/// where the connection itself failed, a transport error where anything on
/// the connection did.
pub open spec fn failure_of(step: WorkerStep) -> VpnError {
    if step == WorkerStep::Connect {
        VpnError::ConnectFailed
    } else {
        VpnError::TransportError
    }
}

/// The error to report for a worker that ended because `step` failed.
pub fn worker_failure(step: WorkerStep) -> (error: VpnError)
    ensures
        error == failure_of(step),
{
    match step {
        WorkerStep::Connect => VpnError::ConnectFailed,
        _ => VpnError::TransportError,
    }
}

/// The worker accepts only while the liveness flag is set, dispatches only a
/// connection for which a substream was opened, and once it has returned it
/// stays so; a step that failed is always the last.
pub proof fn lemma_worker_steps(step: WorkerStep, succeeded: bool, running: bool)
    ensures
        !succeeded ==> worker_next(step, succeeded, running) == WorkerStep::Return,
        worker_next(step, succeeded, running) == WorkerStep::Accept ==> running,
        worker_next(step, succeeded, running) == WorkerStep::Dispatch ==> step
            == WorkerStep::OpenSubstream,
        worker_next(WorkerStep::Return, succeeded, running) == WorkerStep::Return,
{
}

/// The step that a bridged connection is about to take.
#[derive(Debug, Clone, Copy, PartialEq, Eq, Structural)]
pub enum BridgeStep {
    /// Make the intercepted connection usable for asynchronous reads and
    /// writes.
    Adopt,
    /// Write the substream's preamble.
    SendPreamble,
    /// Flush the substream.
    Flush,
    /// Copy bytes both ways until either side closes or fails.
    Relay,
    /// Close the substream.
    Close,
    /// Nothing is left to do.
    Done,
}

/// The step that follows `step` of a bridged connection. While the bridge is
/// set up a failure ends it at once. Relaying ends however it ends, and the
/// substream is closed after it in any case.
pub open spec fn bridge_next(step: BridgeStep, succeeded: bool) -> BridgeStep {
    match step {
        BridgeStep::Adopt => if succeeded {
            BridgeStep::SendPreamble
        } else {
            BridgeStep::Done
        },
        BridgeStep::SendPreamble => if succeeded {
            BridgeStep::Flush
        } else {
            BridgeStep::Done
        },
        BridgeStep::Flush => if succeeded {
            BridgeStep::Relay
        } else {
            BridgeStep::Done
        },
        BridgeStep::Relay => BridgeStep::Close,
        BridgeStep::Close | BridgeStep::Done => BridgeStep::Done,
    }
}

/// A bridged connection's first step.
pub fn bridge_start() -> (step: BridgeStep)
    ensures
        step == BridgeStep::Adopt,
{
    BridgeStep::Adopt
}

/// The step to take after `step` of a bridged connection ended as `succeeded`
/// says.
pub fn bridge_advance(step: BridgeStep, succeeded: bool) -> (next: BridgeStep)
    ensures
        next == bridge_next(step, succeeded),
{
    match step {
        BridgeStep::Adopt => if succeeded {
            BridgeStep::SendPreamble
        } else {
            BridgeStep::Done
        },
        BridgeStep::SendPreamble => if succeeded {
            BridgeStep::Flush
        } else {
            BridgeStep::Done
        },
        BridgeStep::Flush => if succeeded {
            BridgeStep::Relay
        } else {
            BridgeStep::Done
        },
        BridgeStep::Relay => BridgeStep::Close,
        BridgeStep::Close | BridgeStep::Done => BridgeStep::Done,
    }
}

/// How many steps a bridged connection has left at most.
pub open spec fn bridge_steps_left(step: BridgeStep) -> nat {
    match step {
        BridgeStep::Adopt => 5,
        BridgeStep::SendPreamble => 4,
        BridgeStep::Flush => 3,
        BridgeStep::Relay => 2,
        BridgeStep::Close => 1,
        BridgeStep::Done => 0,
    }
}

/// A bridged connection comes to its end: each step leaves fewer steps to
/// take. Bytes are relayed only after the preamble was written and flushed,
/// and a substream on which bytes were relayed is closed.
pub proof fn lemma_bridge_steps(step: BridgeStep, succeeded: bool)
    ensures
        step != BridgeStep::Done ==> bridge_steps_left(bridge_next(step, succeeded))
            < bridge_steps_left(step),
        bridge_next(step, succeeded) == BridgeStep::Relay ==> step == BridgeStep::Flush
            && succeeded,
        bridge_next(BridgeStep::Relay, succeeded) == BridgeStep::Close,
        bridge_next(BridgeStep::Done, succeeded) == BridgeStep::Done,
{
}

} // verus!
