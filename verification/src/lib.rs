//! Verified core of a small video editor: the text fields of its screens,
//! the crop geometry, the edit pipeline, gif playback and the command lines
//! that are handed to ffmpeg.

pub mod decimal;
pub mod input;
pub mod video;
pub mod screens;
pub mod bottom_bar;
pub mod pipeline;
pub mod ffmpeg;
pub mod gifplayer;
pub mod style;
pub mod editor;
