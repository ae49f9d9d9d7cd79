//! What the daemons decide: their configuration, what they tell the
//! application, and how a task reacts to what happens to its session or to its
//! discovery socket.

pub mod config;
pub mod discovery;
pub mod discovery_laws;
pub mod driver_laws;
pub mod effect_laws;
pub mod event_laws;
pub mod events;
pub mod runtime;
pub mod session;
pub mod session_laws;
pub mod setup;
pub mod setup_laws;
pub mod timer_set;
pub mod wire_laws;
