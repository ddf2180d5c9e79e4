//! Decision logic of a chat bot that restores or creates a persisted chat
//! session, drives an initial and a continuous sync, and answers a trigger
//! phrase in joined rooms.

pub mod text;
pub mod config;
pub mod session;
pub mod reactor;
