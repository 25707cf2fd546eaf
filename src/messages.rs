//! The two tagged unions exchanged over the control channel.
use vstd::prelude::*;

use crate::addr::{IpAddress, SocketAddress};

verus! {

/// Commands sent from the control plane to the data plane.
#[derive(Clone, Copy, Debug, PartialEq, Eq)]
pub enum ControlCommand {
    /// Add a peer to the tunnel device.
    AddPeer {
        /// The peer's public key.
        public_key: [u8; 32],
        /// The IP address the peer may use inside the tunnel.
        allowed_ip: IpAddress,
        /// Where the peer can be reached directly, if known.
        endpoint: Option<SocketAddress>,
    },
    /// Remove every peer with this public key.
    RemovePeer {
        /// The public key to match.
        public_key: [u8; 32],
    },
    /// Ask for the data plane's status.
    GetStatus,
}

/// Responses sent from the data plane back to the control plane.
#[derive(Clone, Debug, PartialEq, Eq)]
pub enum DataResponse {
    /// The operation succeeded.
    Success,
    /// The operation failed, with a message.
    Error(String),
    /// Status information.
    Status {
        /// Whether the device is up.
        connected: bool,
        /// Number of peers in the registry.
        num_peers: usize,
        /// Bytes sent through the device.
        bytes_sent: u64,
        /// Bytes received through the device.
        bytes_received: u64,
    },
}

} // verus!
