//! A system-audio capture and voice-activity segmentation engine.
//!
//! The library holds the decisions of the engine: which device a source is
//! opened on, how samples are handed from the platform's callback to the
//! reader, how frames become speech segments, and how the one capture session
//! is started and stopped. The platform, the runtime and the network stay with
//! the application, which hands the library plain values and acts on what it
//! gets back.

pub mod access;
pub mod bursts;
pub mod config;
pub mod controller;
pub mod error;
pub mod launch;
pub mod lifecycle;
pub mod speaker;
pub mod token;
pub mod vad;
