//! The service core of a software KVM switch: which clients there are, where on
//! the screen each of them sits, which of them are active, and what every request
//! of a frontend does to them.
//!
//! The core is a state machine on plain values. Messages to the other tasks of the
//! service are collected as [`message::Effect`]s in the order in which they are
//! caused, and [`channels::Channels`] puts them on the tasks' queues.

pub mod channels;
pub mod client;
pub mod config;
pub mod handles;
pub mod laws;
pub mod manager;
pub mod message;
pub mod model;
pub mod net;
pub mod server;
pub mod service;
pub mod text;

