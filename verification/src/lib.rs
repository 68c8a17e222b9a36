//! A process watchdog for a game server: pluggable health-check modes
//! (external ping timer, query-protocol probe, authenticated remote-console
//! probe), the shared liveness state they read and write, and the decision
//! logic of the background loop that terminates the host on sustained
//! failure.
//!
//! The library holds the protocol and decision logic with contracts; the
//! embedding layer performs the network and process I/O and feeds the
//! results back in as plain values.

pub mod errors;
pub mod heartbeat;
pub mod rcon;
pub mod state;
pub mod util;
