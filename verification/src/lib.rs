//! Replay of recorded video messages into hardware-backed image buffers:
//! the decisions of the frame pipeline, stated and proved.

pub mod format;
pub mod fourcc;
pub mod image;
pub mod manager;
pub mod message;
pub mod physical;
pub mod route;
pub mod services;
pub mod session;
pub mod session_laws;
pub mod setup;
pub mod surface;
pub mod topics;
pub mod version;
pub mod video_decode;
