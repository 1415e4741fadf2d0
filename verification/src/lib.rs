//! Network orchestration and link management for an MQTT node.
//!
//! The crate holds the decisions of the node's network layer: which bus
//! operation the transceiver driver issues next, when a lost link resets the
//! stack, how the outcomes of one poll tick combine, and which names the two
//! MQTT sessions go by. Everything that touches hardware or the network is
//! left to the caller, which performs each requested action and reports the
//! result back.
pub mod hardware;
pub mod net;
pub mod scheduler;
pub mod settings;
pub mod tasks;
pub mod telemetry;
