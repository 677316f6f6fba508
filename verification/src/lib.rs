//! The verified core of a file sharing node.

pub mod address;
pub mod codec;
pub mod command;
pub mod event;
pub mod event_loop;
pub mod identity;
pub mod laws;
pub mod network;
pub mod peer;
pub mod search;
pub mod session;
