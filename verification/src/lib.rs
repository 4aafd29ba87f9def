//! Link-layer core for PC-side applications that talk to an embedded device
//! over a serial transport.
//!
//! The crate has three parts:
//! - `discovery`: classify enumerated serial endpoints and pick the one that
//!   belongs to the target device, together with the baud rate to open it at;
//! - `link`: the connection state a host application keeps per device — an
//!   optional open channel, a status flag, and the liveness timestamps;
//! - `codec`: serialize an outbound command frame (start byte, device code,
//!   message type, payload, checksum) into the exact byte layout the device
//!   firmware expects.
//!
//! Actual serial I/O (enumerating ports, opening them, writing frames) is the
//! host application's job; this crate holds the decisions and the byte layout,
//! and every function here is verified against its contract.

pub mod codec;
pub mod discovery;
pub mod link;
pub mod status;

pub use codec::CodecError;
pub use codec::HEADER_SIZE;
pub use codec::ProtocolCatalog;
pub use codec::calc_crc;
pub use codec::encode;
pub use discovery::BaudTable;
pub use discovery::Endpoint;
pub use discovery::Selection;
pub use discovery::classify;
pub use discovery::select_endpoint;
pub use discovery::str_contains_ci;
pub use link::DISCONNECTED_TIMEOUT_MS;
pub use link::LinkError;
pub use link::SerialInterface;
pub use link::StateCommon;
pub use status::ConnectionStatus;
pub use status::ConnectionType;
