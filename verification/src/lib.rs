//! Motion-alert appliance core: configuration resolution, alert/heartbeat
//! payload framing, cron-gated scheduling, and the orchestration state
//! machine that coordinates them.
//!
//! Everything here is plain decision logic over plain values. The hardware
//! drivers, the WiFi radio, the HTTP transport and the clock-sync primitive
//! are external collaborators: a thin unverified shell performs that I/O and
//! feeds the observed values into these functions.

pub mod client;
pub mod config;
pub mod orchestrator;
pub mod payload;
pub mod resolver;
pub mod schedule;
pub mod text;
