//! Control plane for host network configuration: value types for links and
//! addresses, decoding of kernel link records, and the payloads sent to the
//! network, resolver and hostname daemons.

pub mod cli;
pub mod client;
pub mod dbus;
pub mod error;
pub mod ip;
pub mod logging;
pub mod mac;
pub mod manager;
pub mod netlink;
pub mod network;
pub mod round_trip;
pub mod services;
pub mod text;
pub mod traits;
pub mod tui;

pub use error::Error;
pub use ip::{IpAddr, Ipv4Addr, Ipv6Addr};
pub use mac::MacAddress;
pub use manager::NetworkManager;
pub use network::{DhcpMode, IpNetwork, LinkInfo, LinkState, Route};
pub use traits::NetworkDevice;
