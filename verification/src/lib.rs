//! The core of an RTSP video player.
//!
//! The library decides; the program around it talks to the multimedia framework and to the screen.
//!
//! - [`video_source`]: the source of the video, its state, its samples and its messages.
//! - [`pipeline`]: how the playback pipeline is put together, step by step.
//! - [`app`]: the player behind the user interface.
//! - [`frame`], [`image`]: decoded frames, and the images that are drawn from them.
//! - [`queue`]: the bounded queues between the source and the user interface.
//! - [`laws`]: what the operations come to, said of their inputs and results directly.
//! - [`text`]: decimal numbers, joined strings, and the test for a blank input.

pub mod app;
pub mod frame;
pub mod image;
pub mod laws;
pub mod pipeline;
pub mod queue;
pub mod text;
pub mod video_source;
