//! The AG-UI protocol: events, messages, and the client-side pipeline that expands chunk
//! events, checks the ordering of a run's events, and folds them into messages and state.
pub mod json;
pub mod types;
pub mod events;
pub mod text;
pub mod error;
pub mod verify;
pub mod chunks;
pub mod apply;
pub mod middleware;
pub mod media;
pub mod transform;
pub mod http;
pub mod encoder;
pub mod debug_logger;
pub mod capabilities;
pub mod clock;
pub mod factories;
pub mod id_map;
pub mod hook_buffers;
pub mod interrupts;
pub mod agent;
pub mod proto;
pub mod proto_convert;
