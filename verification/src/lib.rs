//! A single UDP datagram endpoint, modelled as a verified state machine.
//!
//! The library holds the endpoint's logical state — the bound address and
//! port, the running flag that rules the receive loop, and the FIFO queue of
//! outbound packets — together with the decisions the receive loop makes on
//! each iteration. The operating-system socket, the background thread and the
//! delivery of packets to caller-supplied sinks live outside the library;
//! they hand plain values in and take plain values back.

pub mod endpoint;
pub mod packet;
pub mod socket;

pub use crate::endpoint::endpoint_string;
pub use crate::packet::received_payload;
pub use crate::packet::Packet;
pub use crate::socket::outgoing_report;
pub use crate::socket::BindError;
pub use crate::socket::ConfigError;
pub use crate::socket::Socket;
