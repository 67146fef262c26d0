//! Peer discovery session logic for a mobile file-sharing application.
//!
//! The library decides which local endpoints a discovery run announces,
//! keeps the per-session registry of discovered peers, advances a discovery
//! session through the events that the discovery protocol produces, and
//! builds the record that is handed to the host application for each peer.
//! Talking to the operating system, the network and the host runtime is left
//! to the caller, which feeds the results back in as plain values.
pub mod net;
pub mod registry;
pub mod host;
pub mod session;
