//! Hardware-facing parts of the node: the transceiver, the socket buffers
//! and the clock that the network stack runs on.
pub mod net;
pub mod network_clock;
pub mod phy;
