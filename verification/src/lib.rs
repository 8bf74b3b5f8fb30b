//! Core of the dashboard daemon's message plane: module tags, the framing of
//! messages on the local socket, the table that routes a frame to the module
//! it is addressed to, and the decisions the dispatcher takes per frame.

pub mod buffers;
pub mod frames;
pub mod tennis;
pub mod ipc_message;
pub mod wire;
pub mod channels;
pub mod registry;
pub mod daemon;
pub mod modules;
pub mod module_pool;
