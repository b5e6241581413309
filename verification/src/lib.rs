//! An embeddable audio playback engine on 16-bit PCM samples: a decoder that
//! mixes and scales what a demuxer and codec hand it, a fixed-chunk resampler
//! in front of it, a ring-buffered output stage, and a manager that sequences
//! the three.

pub mod audio_manager;
pub mod decoder;
pub mod output;
pub mod sample;

pub use crate::audio_manager::{AudioManager, ResetError, ResetFlags, ResetMode, WriteOutputError};
