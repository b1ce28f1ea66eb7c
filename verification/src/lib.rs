//! Translates button presses, received as MIDI Control Change messages, into
//! MIDI Machine Control commands that drive a recorder's transport.

pub mod builder;
pub mod decoder;
pub mod event;
pub mod laws;
pub mod mmc;
pub mod transport;
