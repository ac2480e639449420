//! Screen casting core: frames, their wire format, and the decisions of the
//! capture, broadcast, receive and record loops.

pub mod endian;
pub mod frame;
pub mod wire;
pub mod receiver;
pub mod pacing;
pub mod broadcast;
pub mod image_buffer;
pub mod capture;
pub mod recording;
pub mod state;
pub mod hotkeys;
pub mod control;
pub mod transcription;
