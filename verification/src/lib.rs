//! Core of a clipboard synchronization tool: the wire codec for clipboard
//! messages, the registry of live peer connections, and the sequential
//! decision logic of the listener, dialer, reader and broadcast paths.
//! All I/O (sockets, the system clipboard, notifications) lives outside
//! this crate; the functions here compute on plain values and are verified.

pub mod clipboard;
pub mod codec;
pub mod errors;
pub mod framing;
pub mod manager;
pub mod messages;
pub mod notify;
pub mod registry;
pub mod watch;
pub mod wire;
