//! Synchronous completion bridge for session-description negotiation.
//!
//! A foreign negotiation engine reports the outcome of each operation later,
//! through a callback that carries a correlation token. This library holds the
//! verified logic that routes such a callback to the observer it belongs to
//! and stores it in a one-shot result slot, written once and read any number
//! of times by the initiating thread.

pub mod error;
pub mod cell;
pub mod sdp;
pub mod observer;
pub mod dispatch;
