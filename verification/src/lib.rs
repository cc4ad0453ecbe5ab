//! Verified core of a peer-to-peer streaming tool: the text and state
//! decisions that sit between the WebRTC, audio, input and clock I/O.

pub mod decimal;
pub mod latency;
pub mod communication;
pub mod track_reader;
pub mod input;
pub mod connection;
pub mod receiver_side;
pub mod audio;
pub mod constants;
