//! A hands-free voice relay: level monitoring, threshold calibration, a
//! conversation history with bounded length, and the relay pipeline that
//! carries one utterance from transcript to delivered reply.

pub mod calibration;
pub mod config;
pub mod eliza;
pub mod grok;
pub mod http;
pub mod pipeline;
pub mod session;
pub mod status;
pub mod text;
pub mod vad;
pub mod vrchat;
