//! A minimal point-to-point IPv4 VPN core.
//!
//! The server side allocates tunnel addresses from a subnet pool, keeps a
//! bidirectional registry between tunnel IPs and remote UDP endpoints, and
//! decides for every datagram whether it is a handshake, a data packet to
//! inject into the TUN device, or noise to drop.  The client side is a
//! packet pump between a TUN descriptor and a datagram transport; its
//! per-event decisions (byte accounting, retry, teardown) live here as
//! verified step functions, while the surrounding I/O loops stay outside.

pub mod addr;
pub mod pool;
pub mod registry;
pub mod codec;
pub mod forwarder;
pub mod pump;

pub use codec::Route;
pub use codec::VpnClientConfig;
pub use codec::VpnError;
pub use pump::VpnCallback;
