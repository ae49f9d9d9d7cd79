//! Wire types, data items and the byte-level codec.

pub mod addr;
pub mod buffer;
pub mod codec;
pub mod codec_laws;
pub mod data_item;
pub mod duration;
pub mod error;
pub mod field;
pub mod ids;
pub mod laws;
pub mod layout;
pub mod mac;
pub mod message;
pub mod metrics;
pub mod octet_laws;
pub mod signal;
pub mod status;
pub mod subnet;
pub mod text;
pub mod value_laws;
pub mod wire;
