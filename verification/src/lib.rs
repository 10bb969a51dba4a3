//! Signed webhooks. A producer registers subscribers, makes sure by a
//! handshake that a subscriber answers at the URL it was registered with,
//! and from then on sends it payloads under a signature that the subscriber
//! can check with the key that the handshake brought.
//!
//! Nothing here reads a socket or a store. `signing` and `hexcodec` are the
//! signature itself; `registrations` and `webhook` work out what is kept and
//! what is sent; `handlers` and `consumer` are the endpoints of producer and
//! subscriber, as state machines that say what is to be done next;
//! `protocol` states what holds when those machines are run.

pub mod consumer;
pub mod error;
pub mod handlers;
pub mod hexcodec;
pub mod models;
pub mod protocol;
pub mod registrations;
pub mod response;
pub mod signing;
pub mod webhook;
