//! Audio-driven lighting: a verified multi-owner sACN packet aggregator and
//! the plain-value pieces of the audio engine around it.
pub mod codec;
pub mod cycle;
pub mod effects;
pub mod engine;
pub mod errors;
pub mod filters;
pub mod input;
pub mod sender;
pub mod utils;
