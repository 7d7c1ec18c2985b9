//! A presence logger: which processes are running on a host, sampled on a fixed
//! interval, written to an append-only log and shown on a two-line status view.
//!
//! The crate holds the rules of one sampling tick and of the loop around it:
//!
//! * [`sampler`]: the distinct, filtered list of process names of one tick;
//! * [`tick`]: the snapshot of one tick and the rows it contributes to the log;
//! * [`display`]: the two status lines that show a tick;
//! * [`clock`]: the fixed-precision timestamp of a tick;
//! * [`store`]: the append-only log of rows;
//! * [`session`]: the loop as a state machine, with its shutdown handshake.
pub mod clock;
pub mod display;
pub mod sampler;
pub mod session;
pub mod store;
pub mod tick;
