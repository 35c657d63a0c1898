//! Periodic watching of remote resources: content masking, change detection with
//! edge-triggered failure reporting, and the heartbeat bookkeeping behind the
//! notification dispatcher.

pub mod config;
pub mod diff;
pub mod discord;
pub mod duration;
pub mod email;
pub mod error;
pub mod event;
pub mod mail;
pub mod mask;
pub mod notify;
pub mod schedule;
pub mod text;
pub mod watch;
