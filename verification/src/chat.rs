pub mod error;
pub mod laws;
pub mod message;
pub mod registry;
pub mod room;
pub mod session;
pub mod sink;
pub mod wire;
