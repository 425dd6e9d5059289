//! Verified core of a RIFF/WAVE playback tool: a chunk-walking container
//! reader, a device registry driven by two-phase property queries, and the
//! playback session state machine that ties them together.

pub mod audio;
pub mod cli;
pub mod codec;
pub mod utils;
pub mod wav;
