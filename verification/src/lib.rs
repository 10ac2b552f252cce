//! Verified core of a multi-session terminal service.
//!
//! The crate holds the bookkeeping that keeps many remote terminal sessions
//! alive inside one process: decoding raw input bytes into keys, the registry
//! of live sessions, the render schedule, idle eviction, the per-session
//! outbound queue, and the per-connection lifecycle rules. It performs no
//! I/O: the embedding program owns sockets, timers and drawing surfaces,
//! files what belongs to a connection with its session, reads the clock, and
//! carries out what the functions here decide.

pub mod keys;
pub mod outbound;
pub mod reaper;
pub mod registry;
pub mod scheduler;
pub mod server;
pub mod session;
pub mod teardown;
