//! A WebSocket connection that is opened again whenever it is lost.

pub mod channels;
pub mod config;
pub mod connect;
pub mod credentials;
pub mod error;
pub mod handler;
pub mod heartbeat;
pub mod laws;
pub mod manager;
pub mod outlets;
pub mod parser;
pub mod reconnect;
pub mod state;
