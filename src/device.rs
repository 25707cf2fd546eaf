//! The simulated tunnel device: the data plane's registry of peers.
//!
//! The registry is an ordered sequence of peers. Inserting appends and does
//! not look for an existing peer with the same key; removing drops every peer
//! whose key equals the given one, byte for byte.
use vstd::prelude::*;

use crate::addr::{IpAddress, SocketAddress};

verus! {

/// A peer of the tunnel device.
#[derive(Clone, Copy, Debug, PartialEq, Eq)]
pub struct Peer {
    pub public_key: [u8; 32],
    pub allowed_ip: IpAddress,
    pub endpoint: Option<SocketAddress>,
}

/// The peers of `table` whose key differs from `key`, in their order.
pub open spec fn without_key(table: Seq<Peer>, key: Seq<u8>) -> Seq<Peer>
    decreases table.len(),
{
    if table.len() == 0 {
        Seq::<Peer>::empty()
    } else {
        let rest = without_key(table.drop_last(), key);
        if table.last().public_key@ == key {
            rest
        } else {
            rest.push(table.last())
        }
    }
}

/// Whether some peer of `table` has the key `key`.
pub open spec fn has_key(table: Seq<Peer>, key: Seq<u8>) -> bool {
    exists|i: int| 0 <= i < table.len() && (#[trigger] table[i]).public_key@ == key
}

/// Byte-for-byte equality of two public keys.
pub fn keys_equal(a: &[u8; 32], b: &[u8; 32]) -> (r: bool)
    ensures
        r == (a@ == b@),
{
    let mut i: usize = 0;
    while i < 32
        invariant
            0 <= i <= 32,
            a@.len() == 32,
            b@.len() == 32,
            forall|j: int| 0 <= j < i ==> a@[j] == b@[j],
        decreases 32 - i,
    {
        if a[i] != b[i] {
            return false;
        }
        i = i + 1;
    }
    assert(a@ =~= b@);
    true
}

/// A simulated tunnel device, standing in for a real interface.
pub struct SimulatedDevice {
    name: String,
    peers: Vec<Peer>,
}

impl View for SimulatedDevice {
    type V = Seq<Peer>;

    /// The registered peers, in the order they were added.
    closed spec fn view(&self) -> Seq<Peer> {
        self.peers@
    }
}

impl SimulatedDevice {
    /// The interface name the device was created with.
    pub closed spec fn name_spec(&self) -> Seq<char> {
        self.name@
    }

    fn new(name: String) -> (r: SimulatedDevice)
        ensures
            r@ == Seq::<Peer>::empty(),
            r.name_spec() == name@,
    {
        SimulatedDevice { name, peers: Vec::new() }
    }

    /// The interface name of the device.
    pub fn name(&self) -> (r: &str)
        ensures
            r@ == self.name_spec(),
    {
        self.name.as_str()
    }

    fn add_peer(&mut self, peer: Peer)
        ensures
            final(self)@ == old(self)@.push(peer),
            final(self).name_spec() == old(self).name_spec(),
    {
        self.peers.push(peer);
    }

    fn remove_peer(&mut self, public_key: &[u8; 32])
        ensures
            final(self)@ == without_key(old(self)@, public_key@),
            final(self).name_spec() == old(self).name_spec(),
    {
        let mut kept: Vec<Peer> = Vec::new();
        let n = self.peers.len();
        let mut i: usize = 0;
        while i < n
            invariant
                0 <= i <= n,
                n == self.peers@.len(),
                kept@ == without_key(self.peers@.subrange(0, i as int), public_key@),
            decreases n - i,
        {
            let p = self.peers[i];
            assert(self.peers@.subrange(0, i + 1).drop_last() =~= self.peers@.subrange(0, i as int));
            if !keys_equal(&p.public_key, public_key) {
                kept.push(p);
            }
            i = i + 1;
        }
        assert(self.peers@.subrange(0, n as int) =~= self.peers@);
        self.peers = kept;
    }

    /// The number of registered peers.
    pub fn peer_count(&self) -> (r: usize)
        ensures
            r == self@.len(),
    {
        self.peers.len()
    }
}

/// Creates a simulated device with no peers.
pub fn create_simulated_device(interface_name: &str) -> (r: SimulatedDevice)
    ensures
        r@ == Seq::<Peer>::empty(),
        r.name_spec() == interface_name@,
{
    SimulatedDevice::new(interface_name.to_owned())
}

/// Appends a peer to the device; no check for an existing peer with the key.
pub fn add_peer(
    device: &mut SimulatedDevice,
    public_key: [u8; 32],
    allowed_ip: IpAddress,
    endpoint: Option<SocketAddress>,
)
    ensures
        final(device)@ == old(device)@.push(Peer { public_key, allowed_ip, endpoint }),
        final(device).name_spec() == old(device).name_spec(),
{
    let peer = Peer { public_key, allowed_ip, endpoint };
    device.add_peer(peer);
}

/// Removes every peer whose key equals `public_key`; succeeds with no effect
/// where there is none.
pub fn remove_peer(device: &mut SimulatedDevice, public_key: [u8; 32])
    ensures
        final(device)@ == without_key(old(device)@, public_key@),
        final(device).name_spec() == old(device).name_spec(),
{
    device.remove_peer(&public_key);
}

} // verus!
