//! Real-time notification fan-out for a course platform: a registry of live
//! WebSocket sessions per user, bounded delivery channels, the per-session
//! lifecycle, and the dispatcher that publishes persisted notifications.

pub mod errors;
pub mod channel;
pub mod server;
pub mod session;
pub mod notification;
pub mod auth;
pub mod config;
pub mod logs;
pub mod models;
