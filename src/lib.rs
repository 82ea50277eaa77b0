//! Coarse musical and loudness descriptors for audio files: the integer
//! logic of the analysis pipeline, with its contracts.

pub mod fallback;
pub mod envelope;
pub mod downmix;
pub mod tempo;
pub mod artifact;
pub mod session;
