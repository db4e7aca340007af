//! Telemetry and control gateway core for a sensor/actuator board: the
//! latest-reading cache, the sampler's tick decisions, the broadcast
//! registry of real-time subscribers, the operation envelopes and the
//! command dispatcher that ties them together.

pub mod text;
pub mod hardware;
pub mod errors;
pub mod structures;
pub mod packages;
pub mod registry;
pub mod cache;
pub mod sampler;
pub mod dispatch;
pub mod websocket;
pub mod cli;
