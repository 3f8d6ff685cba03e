//! Control core of a monophonic software synthesizer: the parameter store,
//! the tag slots of the signal graph, the note state machine and the
//! bookkeeping of the block render loop.
//!
//! Sample values and parameter values are real numbers on the audio side.
//! Here each normalized value is carried as the bit pattern of its
//! single-precision encoding, and transport time is counted in frames, so that
//! every rule is stated over integers.

pub mod params;
pub mod tag;
pub mod midi;
pub mod engine;
pub mod render;
pub mod laws;
pub use crate::tag::Tag;
