//! A verified session core for a publish/subscribe WebSocket service.
//!
//! The crate decodes the service's session-management frames, tracks the
//! session identifier across upstream-requested reconnects, and routes
//! notification events to registered handlers.

pub mod base;
pub mod chat;
pub mod chat_decode;
pub mod classify;
pub mod config;
pub mod controller;
pub mod errors;
pub mod ids;
pub mod json;
pub mod keepalive;
pub mod notification;
pub mod reconnect;
pub mod router;
pub mod revocation;
pub mod subscriber;
pub mod time;
pub mod welcome;
