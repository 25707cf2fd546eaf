//! Control channel between the control plane and the data plane of a
//! WireGuard-style VPN: message types, length-prefixed framing, the peer
//! registry owned by the data plane, the command dispatcher that drives it,
//! and the reply checks of the control-plane client.
pub mod addr;
pub mod client;
pub mod connection;
pub mod device;
pub mod dispatch;
pub mod error;
pub mod frame;
pub mod messages;
