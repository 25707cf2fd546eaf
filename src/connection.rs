//! The decisions of the data plane's per-connection loop. The loop itself,
//! which reads, decodes and writes, runs outside: it performs each action
//! this module returns and reports what came of it as the next event.
//!
//! A connection alternates strictly: a length prefix, its payload, one
//! reply. Any read or decode failure closes the connection with no reply
//! and no change to the registry.
use vstd::prelude::*;

use crate::device::{Peer, SimulatedDevice};
use crate::dispatch::{process_command, reply_to, table_after};
use crate::frame::{header_spec, payload_len};
use crate::messages::{ControlCommand, DataResponse};

verus! {

/// Where a connection stands.
#[derive(Clone, Copy, Debug, PartialEq, Eq, Structural)]
pub enum ConnectionState {
    /// Waiting for the 4-byte length prefix of the next request.
    AwaitingHeader,
    /// Waiting for a payload of `len` bytes.
    AwaitingPayload { len: usize },
    /// The connection is over.
    Closed,
}

/// What the loop reports back.
#[derive(Clone, Copy, Debug, PartialEq, Eq)]
pub enum ConnectionEvent {
    /// A length prefix was read in full.
    HeaderRead([u8; 4]),
    /// The payload was read in full and decoded into a command.
    CommandDecoded(ControlCommand),
    /// A read failed or the peer closed the stream before a whole frame.
    ReadFailed,
    /// The payload matched no known command layout.
    DecodeFailed,
}

/// What the loop is to do next.
#[derive(Clone, Debug, PartialEq, Eq)]
pub enum ConnectionAction {
    /// Read a payload of this many bytes and decode it.
    ReadPayload { len: usize },
    /// Send this response in a frame, then read the next length prefix.
    Reply(DataResponse),
    /// Drop the connection without sending anything.
    Close,
}

/// The state and action that follow `event` in `state`, and the registry
/// after it.
pub open spec fn step_spec(state: ConnectionState, event: ConnectionEvent, table: Seq<Peer>) -> (
    ConnectionState,
    ConnectionAction,
    Seq<Peer>,
) {
    match (state, event) {
        (ConnectionState::AwaitingHeader, ConnectionEvent::HeaderRead(h)) => match header_spec(
            h@,
        ) {
            Ok(len) => (
                ConnectionState::AwaitingPayload { len },
                ConnectionAction::ReadPayload { len },
                table,
            ),
            Err(_) => (ConnectionState::Closed, ConnectionAction::Close, table),
        },
        (ConnectionState::AwaitingPayload { .. }, ConnectionEvent::CommandDecoded(c)) => (
            ConnectionState::AwaitingHeader,
            ConnectionAction::Reply(reply_to(table, c)),
            table_after(table, c),
        ),
        _ => (ConnectionState::Closed, ConnectionAction::Close, table),
    }
}

/// Takes one step of a connection: the registry changes only on a decoded
/// command, and the lock around it need not be held across any I/O.
pub fn step(state: ConnectionState, event: ConnectionEvent, device: &mut SimulatedDevice) -> (r: (
    ConnectionState,
    ConnectionAction,
))
    ensures
        (r.0, r.1, final(device)@) == step_spec(state, event, old(device)@),
        final(device).name_spec() == old(device).name_spec(),
{
    match (state, event) {
        (ConnectionState::AwaitingHeader, ConnectionEvent::HeaderRead(h)) => match payload_len(
            h,
        ) {
            Ok(len) => (ConnectionState::AwaitingPayload { len }, ConnectionAction::ReadPayload { len }),
            Err(_) => (ConnectionState::Closed, ConnectionAction::Close),
        },
        (ConnectionState::AwaitingPayload { .. }, ConnectionEvent::CommandDecoded(c)) => {
            let response = process_command(c, device);
            (ConnectionState::AwaitingHeader, ConnectionAction::Reply(response))
        },
        _ => (ConnectionState::Closed, ConnectionAction::Close),
    }
}

/// A stream that ends, or fails to decode, in the middle of a request
/// closes the connection: no reply, and the registry stays as it was.
pub proof fn lemma_failed_read_closes(state: ConnectionState, table: Seq<Peer>)
    ensures
        step_spec(state, ConnectionEvent::ReadFailed, table) == (
            ConnectionState::Closed,
            ConnectionAction::Close,
            table,
        ),
        step_spec(state, ConnectionEvent::DecodeFailed, table) == (
            ConnectionState::Closed,
            ConnectionAction::Close,
            table,
        ),
{
}

} // verus!
