//! Client registry, message model and request-parsing logic of a WebSocket
//! data pipe: clients connect with a `clientId` query parameter, subscribe to
//! (topic, group) pairs and exchange `DataPipeMessage`s.

pub mod channel;
pub mod client;
pub mod common;
pub mod configuration;
pub mod data;
pub mod services;
