//! A client for an application store: what its answers mean, checked.
//!
//! `sanitize` turns markup into plain text, `model` reshapes the store's
//! records into what the interface shows, and `request` holds the addresses,
//! the status check and the kinds of failure with their messages.

pub mod model;
pub mod request;
pub mod sanitize;
