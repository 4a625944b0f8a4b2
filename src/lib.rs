//! A client-side connector to a real-time event gateway: the JSON envelope
//! codec, the session state machine that drives the handshake and the
//! heartbeats, and the data objects that the gateway and its REST API carry.

pub mod json;
pub mod flags;
pub mod gateway;
pub mod objects;
