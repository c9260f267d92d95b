//! Verified decision logic of a TCP proxy: its settings, the limit on
//! concurrent connections, what the accept loop does with each event, and how
//! a shutdown waits for the connections that are still open.

pub mod settings;
pub mod limiter;
pub mod drain;
pub mod server;
