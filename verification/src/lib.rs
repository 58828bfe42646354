//! Verified core of a streaming audio player.
//!
//! The crate holds the decisions of gapless streaming playback as plain
//! state machines: the transport state a caller asks for, the small pool of
//! rotating buffers, and the worker that decodes, submits and reclaims them.
//! Decoding, the output device and the worker thread itself live outside;
//! they hand this crate plain values and carry out the actions it returns.

pub mod buffer_pool;
pub mod controller;
pub mod error;
pub mod laws;
pub mod machine;
pub mod playback;
pub mod states;
pub mod stream_info;
