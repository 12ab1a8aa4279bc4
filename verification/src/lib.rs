//! Verified building blocks of the platform daemons: the TCP-to-vsock
//! forwarding core (relay state machine, session table, guest rendezvous),
//! vsock addressing, and the small values and text handling of the tools
//! around it.

pub mod delivery;
pub mod format;
pub mod forwarder;
pub mod history;
pub mod isolation;
pub mod rendezvous;
pub mod sessions;
pub mod shell;
pub mod stream;
pub mod text;
pub mod token;
pub mod trace_events;
pub mod util;
pub mod vmc;
pub mod vsock;
