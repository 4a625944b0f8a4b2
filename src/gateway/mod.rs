//! The gateway: its envelope codec and the session that runs over it.

pub mod events;
pub mod payload;
pub mod session;
