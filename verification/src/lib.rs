//! The logic of a small file browser whose one action is to hand a video file
//! to an external encoder that writes its audio track as mp3.
//!
//! Nothing here touches the file system, starts a process or draws: the
//! program around the library does that, and hands over what it found.
//!
//! - [`listing`]: what is shown of a directory.
//! - [`state`]: the state and its transitions.
//! - [`view`]: the rows on the screen.
//! - [`encoder`]: the encoder's command line and the verdict on its run.
//! - [`paths`]: parents and joins of paths, asked of `std::path`.

pub mod encoder;
pub mod listing;
pub mod paths;
pub mod state;
pub mod view;
