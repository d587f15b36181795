//! The decisions of a Polymarket client: which contract calls the Conditional
//! Token Framework operations make and how their outcomes are answered, and how a
//! WebSocket connection is opened, kept alive, read, written and opened again.

pub mod ctf;
pub mod text;
pub mod ws;
