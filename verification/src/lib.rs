//! Frame exchange and scripted input automation for a frame-producing simulation.
//!
//! The crate holds the decisions of a script-driven simulation host as plain,
//! verified state machines: a single-slot frame channel with a drop-when-behind
//! policy, an eight-bit input register with directional exclusion, the fixed
//! start-up input trace, the script primitives, and the life cycle of the
//! simulation thread. Threads, clocks, windows and the interpreter itself stay
//! with the host program, which performs the actions this crate hands out.

pub mod bootstrap;
pub mod button;
pub mod channel;
pub mod error;
pub mod frame;
pub mod lifecycle;
pub mod register;
pub mod sandbox;
pub mod script;
