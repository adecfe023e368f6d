//! Capture session control: the decisions that gate frames into a video
//! encoder, decode remote start/stop commands, and guarantee that each
//! encoder session is created once and finalized at most once.

pub mod number;
pub mod command;
pub mod session;
pub mod frame;
pub mod control;
pub mod laws;
pub mod media;
