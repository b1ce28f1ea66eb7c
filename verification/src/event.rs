//! Structured MIDI channel events and the grammar that maps a status byte and
//! its data bytes to one.

use vstd::prelude::*;

verus! {

/// A decoded MIDI channel message.
///
/// Only `ControlChange` drives the transport; the other variants are carried
/// so that callers can log what arrived.
#[derive(Clone, Copy, Debug, PartialEq, Eq, Structural)]
pub enum DecodedEvent {
    NoteOff { channel: u8, note: u8, velocity: u8 },
    NoteOn { channel: u8, note: u8, velocity: u8 },
    PolyphonicKeyPressure { channel: u8, note: u8, velocity: u8 },
    ControlChange { channel: u8, controller: u8, value: u8 },
    ProgramChange { channel: u8, program: u8 },
    ChannelPressure { channel: u8, pressure: u8 },
    PitchBendChange { channel: u8, bend: i16 },
    /// Any status that is not a channel voice message (System Exclusive,
    /// real-time, or a stray data byte in status position).
    Unknown { channel: u8 },
}

/// Why a raw buffer could not be decoded.
#[derive(Clone, Copy, Debug, PartialEq, Eq, Structural)]
pub enum DecodeError {
    /// The buffer is empty, or fewer data bytes follow the status byte than
    /// the status calls for.
    MalformedMessage,
}

/// A MIDI data byte has its top bit clear; a byte with the top bit set is a
/// status byte.
pub open spec fn is_data_byte(byte: u8) -> bool {
    byte < 0x80
}

/// How many data bytes the message introduced by `status` carries.
pub open spec fn data_bytes_needed(status: u8) -> u8 {
    let high = status & 0xf0;
    if (0x80 <= high && high <= 0xb0) || high == 0xe0 {
        2
    } else if high == 0xc0 || high == 0xd0 {
        1
    } else {
        0
    }
}

/// The pitch bend amount reported for a least and a most significant data
/// byte.
pub open spec fn pitch_bend(lsb: u8, msb: u8) -> i16 {
    ((((msb as u16) << 8) & (lsb as u16)) as i16 - 8192) as i16
}

/// The event that `status` followed by `data` stands for. `data` holds at
/// least `data_bytes_needed(status)` bytes.
pub open spec fn event_of(status: u8, data: Seq<u8>) -> DecodedEvent
    recommends
        data.len() >= data_bytes_needed(status),
{
    let high = status & 0xf0;
    let channel = status & 0x0f;
    if high == 0x80 {
        DecodedEvent::NoteOff { channel, note: data[0], velocity: data[1] }
    } else if high == 0x90 {
        DecodedEvent::NoteOn { channel, note: data[0], velocity: data[1] }
    } else if high == 0xa0 {
        DecodedEvent::PolyphonicKeyPressure { channel, note: data[0], velocity: data[1] }
    } else if high == 0xb0 {
        DecodedEvent::ControlChange { channel, controller: data[0], value: data[1] }
    } else if high == 0xc0 {
        DecodedEvent::ProgramChange { channel, program: data[0] }
    } else if high == 0xd0 {
        DecodedEvent::ChannelPressure { channel, pressure: data[0] }
    } else if high == 0xe0 {
        DecodedEvent::PitchBendChange { channel, bend: pitch_bend(data[0], data[1]) }
    } else {
        DecodedEvent::Unknown { channel }
    }
}

impl DecodedEvent {
    /// Channel numbers fit in four bits, and every data field in seven.
    pub open spec fn well_formed(self) -> bool {
        match self {
            DecodedEvent::NoteOff { channel, note, velocity } => {
                channel < 16 && is_data_byte(note) && is_data_byte(velocity)
            },
            DecodedEvent::NoteOn { channel, note, velocity } => {
                channel < 16 && is_data_byte(note) && is_data_byte(velocity)
            },
            DecodedEvent::PolyphonicKeyPressure { channel, note, velocity } => {
                channel < 16 && is_data_byte(note) && is_data_byte(velocity)
            },
            DecodedEvent::ControlChange { channel, controller, value } => {
                channel < 16 && is_data_byte(controller) && is_data_byte(value)
            },
            DecodedEvent::ProgramChange { channel, program } => {
                channel < 16 && is_data_byte(program)
            },
            DecodedEvent::ChannelPressure { channel, pressure } => {
                channel < 16 && is_data_byte(pressure)
            },
            DecodedEvent::PitchBendChange { channel, bend } => channel < 16,
            DecodedEvent::Unknown { channel } => channel < 16,
        }
    }
}

} // verus!
