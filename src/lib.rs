//! Bulk prober for the RDP negotiation handshake.
//!
//! The library holds the logic of a scan: the classifier of negotiation
//! replies, the per-connection probe as a state machine, the admission gate
//! that bounds how many probes run at once, and the reporter that counts
//! progress and picks out the endpoints to print. Sockets, timers and the
//! terminal are driven by the caller.

pub mod endpoint;
pub mod frame;
pub mod probe;
pub mod schedule;
pub mod report;
