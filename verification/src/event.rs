//! Event kinds: what is pushed to a browser, and what a browser reports.

pub mod event_type;
pub mod handler;
pub mod inbound;
pub mod kind;
