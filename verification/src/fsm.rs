//! State machines of session and discovery. They perform no I/O: each step
//! takes an event and returns the actions that the runtime is to perform.

pub mod content_laws;
pub mod discovery_common;
pub mod discovery_modem;
pub mod discovery_router;
pub mod events;
pub mod mac_map;
pub mod message_laws;
pub mod modem_laws;
pub mod router_laws;
pub mod search_laws;
pub mod session_common;
pub mod session_laws;
pub mod session_modem;
pub mod session_router;
pub mod step_laws;
pub mod timers;
pub mod transaction;
pub mod view_laws;
