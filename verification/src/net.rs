//! What the transport layer decides without touching a socket.

pub mod addr;
pub mod discovery;
pub mod framed;
pub mod gtsm;
pub mod net_laws;
pub mod tls;
