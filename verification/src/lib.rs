//! A small real-time push layer: a backend pushes script and markup to
//! browsers over a socket and routes browser events to named handlers.
//!
//! This crate holds the logic of that layer: the connection registry, the
//! wire envelopes, the event router and the addressing rules of delivery.
//! The socket itself is driven by the program around the library.

pub mod connections;
pub mod envelope;
pub mod event;
pub mod listener;
pub mod send;
mod text;
pub mod tls;

pub use crate::connections::{Endpoint, Registry};
pub use serde_json::Value;
