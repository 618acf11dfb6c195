//! Core of a local media-playback engine: rational timestamp conversion,
//! an in-memory decoded-audio buffer with position/time mapping, the audio
//! cursor and output controller state, the video pipeline's accurate-seek
//! state machine, duration estimation, pixel-format conversion, and the
//! audio/video drift monitor.

pub mod audio;
pub mod media_info;
pub mod pixel;
pub mod playback;
pub mod timebase;
pub mod video;
