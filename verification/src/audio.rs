//! The playback engine: decoded audio, the resampling plan, the stream
//! buffer, the playback state machine and the transport on top of it.

pub mod decoded;
pub mod device;
pub mod player;
pub mod resample;
pub mod state;
pub mod stream;
