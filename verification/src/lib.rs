//! Rolling capture of a live voice channel, with on-demand MP3 clips of the
//! most recent audio.

pub mod encoder;
pub mod error;
pub mod mixer;
pub mod queue;
pub mod recorder;
pub mod voice;
