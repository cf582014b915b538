//! Verified core of the Discord2 voice client.
//!
//! The client captures the microphone, sends 20 ms Opus frames of 48 kHz
//! stereo to a voice server over UDP and plays what the server relays.
//! This library holds what the client decides along the way:
//!
//! - `session`: the session state, the protocol messages and the step
//!   function that answers each user command and periodic check;
//! - `audio`: shaping captured and decoded sample streams;
//! - `queue`: the bounded sample queues between audio callbacks and the
//!   network, over the ring buffer of `ring`;
//! - `device`: choosing capture and playback devices;
//! - `config`: the text of the device configuration file.
pub mod ring;
pub mod audio;
pub mod queue;
pub mod session;
pub mod device;
pub mod config;
