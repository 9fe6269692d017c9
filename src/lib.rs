//! Protocol engine of a party-panel client: the frame codec, the packet
//! router and the session state that a remote controller drives over one
//! connection.

pub mod catalog;
pub mod codec;
pub mod config;
pub mod heartbeat;
pub mod modifiers;
pub mod proto;
pub mod slot;
pub mod web_context;
