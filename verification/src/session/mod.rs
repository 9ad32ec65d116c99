//! Workflow states, the signals that move between them, and per-session chat memory.
pub mod signal;
pub mod state;
pub mod store;
pub mod transition;

pub use store::{Session, SessionIdentity, SessionStore};
