//! The command dispatcher: maps each command to an operation on the peer
//! registry and the response it earns. Dispatch never fails.
use vstd::prelude::*;

use crate::addr::{IpAddress, SocketAddress};
use crate::device::{add_peer, has_key, remove_peer, without_key, Peer, SimulatedDevice};
use crate::messages::{ControlCommand, DataResponse};

verus! {

/// The status a registry of peers reports: always up, with no traffic on
/// the simulated device.
pub open spec fn status_of(table: Seq<Peer>) -> DataResponse {
    DataResponse::Status {
        connected: true,
        num_peers: table.len() as usize,
        bytes_sent: 0,
        bytes_received: 0,
    }
}

/// Whether a peer's key differs from `key`.
pub open spec fn other_key(key: Seq<u8>) -> spec_fn(Peer) -> bool {
    |p: Peer| p.public_key@ != key
}

/// The registry after `command`.
pub open spec fn table_after(table: Seq<Peer>, command: ControlCommand) -> Seq<Peer> {
    match command {
        ControlCommand::AddPeer { public_key, allowed_ip, endpoint } => table.push(
            Peer { public_key, allowed_ip, endpoint },
        ),
        ControlCommand::RemovePeer { public_key } => without_key(table, public_key@),
        ControlCommand::GetStatus => table,
    }
}

/// The response to `command` on a registry holding `table`.
pub open spec fn reply_to(table: Seq<Peer>, command: ControlCommand) -> DataResponse {
    match command {
        ControlCommand::GetStatus => status_of(table),
        _ => DataResponse::Success,
    }
}

/// The registry after the commands of `commands`, applied one at a time in
/// their order.
pub open spec fn apply_all(table: Seq<Peer>, commands: Seq<ControlCommand>) -> Seq<Peer>
    decreases commands.len(),
{
    if commands.len() == 0 {
        table
    } else {
        table_after(apply_all(table, commands.drop_last()), commands.last())
    }
}

/// Applies `command` to the registry and returns its response.
pub fn process_command(command: ControlCommand, device: &mut SimulatedDevice) -> (r:
    DataResponse)
    ensures
        final(device)@ == table_after(old(device)@, command),
        final(device).name_spec() == old(device).name_spec(),
        r == reply_to(old(device)@, command),
{
    match command {
        ControlCommand::AddPeer { public_key, allowed_ip, endpoint } => {
            add_peer(device, public_key, allowed_ip, endpoint);
            DataResponse::Success
        },
        ControlCommand::RemovePeer { public_key } => {
            remove_peer(device, public_key);
            DataResponse::Success
        },
        ControlCommand::GetStatus => {
            DataResponse::Status {
                connected: true,
                num_peers: device.peer_count(),
                bytes_sent: 0,
                bytes_received: 0,
            }
        },
    }
}

/// Adding a peer and then asking for the status reports one peer more than
/// the registry held before.
pub proof fn lemma_add_then_status(
    table: Seq<Peer>,
    public_key: [u8; 32],
    allowed_ip: IpAddress,
    endpoint: Option<SocketAddress>,
)
    ensures
        reply_to(table, ControlCommand::AddPeer { public_key, allowed_ip, endpoint })
            == DataResponse::Success,
        table_after(table, ControlCommand::AddPeer { public_key, allowed_ip, endpoint }).len()
            == table.len() + 1,
        reply_to(
            table_after(table, ControlCommand::AddPeer { public_key, allowed_ip, endpoint }),
            ControlCommand::GetStatus,
        ) == status_of(table.push(Peer { public_key, allowed_ip, endpoint })),
{
}

/// Removing a key that no peer has succeeds and leaves the registry as it
/// was, so the peer count does not change.
pub proof fn lemma_remove_absent_key(table: Seq<Peer>, public_key: [u8; 32])
    requires
        !has_key(table, public_key@),
    ensures
        reply_to(table, ControlCommand::RemovePeer { public_key }) == DataResponse::Success,
        table_after(table, ControlCommand::RemovePeer { public_key }) == table,
    decreases table.len(),
{
    if table.len() > 0 {
        let init = table.drop_last();
        assert forall|i: int| 0 <= i < init.len() implies init[i].public_key@ != public_key@ by {
            assert(table[i] == init[i]);
        }
        lemma_remove_absent_key(init, public_key);
        assert(table.last() == table[table.len() - 1]);
        assert(init.push(table.last()) =~= table);
    }
}

/// Removing a key drops every peer that has it, however many there are, and
/// keeps every peer that does not, in its order.
pub proof fn lemma_remove_drops_all(table: Seq<Peer>, public_key: [u8; 32])
    ensures
        reply_to(table, ControlCommand::RemovePeer { public_key }) == DataResponse::Success,
        !has_key(table_after(table, ControlCommand::RemovePeer { public_key }), public_key@),
        table_after(table, ControlCommand::RemovePeer { public_key }) == table.filter(
            other_key(public_key@),
        ),
    decreases table.len(),
{
    let key = public_key@;
    let keep = other_key(key);
    if table.len() == 0 {
        assert(table.filter(keep) =~= Seq::<Peer>::empty());
    } else {
        let init = table.drop_last();
        lemma_remove_drops_all(init, public_key);
        assert(init.push(table.last()) =~= table);
        init.lemma_filter_push(table.last(), keep);
        let rest = without_key(init, key);
        if table.last().public_key@ != key {
            assert forall|i: int| 0 <= i < rest.push(table.last()).len() implies (#[trigger] rest.push(
                table.last(),
            )[i]).public_key@ != key by {
                if i < rest.len() {
                    assert(rest.push(table.last())[i] == rest[i]);
                }
            }
        }
    }
}

/// Commands that all add a peer, applied one at a time in any order (as a
/// lock that admits one of them at a time orders them), grow the registry
/// by exactly their number: no addition is lost, whatever the keys.
pub proof fn lemma_adds_accumulate(table: Seq<Peer>, commands: Seq<ControlCommand>)
    requires
        forall|i: int| 0 <= i < commands.len() ==> (#[trigger] commands[i]) is AddPeer,
    ensures
        apply_all(table, commands).len() == table.len() + commands.len(),
        forall|i: int|
            0 <= i < commands.len() ==> #[trigger] reply_to(
                apply_all(table, commands.subrange(0, i)),
                commands[i],
            ) == DataResponse::Success,
    decreases commands.len(),
{
    if commands.len() > 0 {
        let init = commands.drop_last();
        assert forall|i: int| 0 <= i < init.len() implies (#[trigger] init[i]) is AddPeer by {
            assert(init[i] == commands[i]);
        }
        lemma_adds_accumulate(table, init);
        assert(commands.last() == commands[commands.len() - 1]);
        assert forall|i: int| 0 <= i < commands.len() implies #[trigger] reply_to(
            apply_all(table, commands.subrange(0, i)),
            commands[i],
        ) == DataResponse::Success by {
            assert(commands[i] is AddPeer);
        }
    }
}

} // verus!
