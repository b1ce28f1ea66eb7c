//! The transport translator: one flag of state, and the policy that maps a
//! button press to a transport command.

use vstd::prelude::*;
use crate::decoder::{decode, decode_spec};
use crate::event::{DecodeError, DecodedEvent};
use crate::mmc::MmcCommand;

verus! {

/// The value a button sends when it is pressed.
pub const CC_ON_VALUE: u8 = 0x7f;

pub const CC_RECORD: u8 = 50;

pub const CC_STOP: u8 = 51;

pub const CC_PLAY: u8 = 54;

pub const MICROS_PER_SECOND: u64 = 1_000_000;

/// What the translator remembers between messages.
#[derive(Clone, Copy, Debug, PartialEq, Eq, Structural)]
pub struct TransportState {
    /// Time of the latest message, in microseconds. Diagnostic only: no
    /// decision reads it.
    pub last_event_time_us: u64,
    /// Whether the transport is currently rolling.
    pub playing: bool,
}

/// What handling one message produced.
#[derive(Clone, Copy, Debug, PartialEq, Eq)]
pub struct Handled {
    /// Microseconds since the previous message; zero if the clock went back.
    pub delta_us: u64,
    /// What the message decoded to.
    pub event: Result<DecodedEvent, DecodeError>,
    /// The command to send, if the message calls for one.
    pub command: Option<MmcCommand>,
}

/// Time from `last` to `now`, never negative.
pub open spec fn elapsed(last: u64, now: u64) -> u64 {
    if now >= last {
        (now - last) as u64
    } else {
        0
    }
}

/// Whether `event` is a press of the button with controller number
/// `controller`.
pub open spec fn is_press(event: DecodedEvent, controller: u8) -> bool {
    event matches DecodedEvent::ControlChange { controller: c, value: v, .. }
        && c == controller && v == CC_ON_VALUE
}

/// The command that `event` calls for when the transport is in state
/// `playing`.
///
/// Record answers to every value; stop and play answer to a press only.
pub open spec fn command_for(playing: bool, event: DecodedEvent) -> Option<MmcCommand> {
    match event {
        DecodedEvent::ControlChange { controller, value, .. } => {
            if controller == CC_RECORD {
                Some(if value == CC_ON_VALUE { MmcCommand::RecordPause } else { MmcCommand::RecordExit })
            } else if value != CC_ON_VALUE {
                None
            } else if controller == CC_STOP {
                Some(if playing { MmcCommand::Stop } else { MmcCommand::GotoZero })
            } else if controller == CC_PLAY {
                Some(if playing { MmcCommand::Pause } else { MmcCommand::Play })
            } else {
                None
            }
        },
        _ => None,
    }
}

/// The transport flag after `event`: stop clears it, play flips it, and
/// nothing else touches it.
pub open spec fn playing_after(playing: bool, event: DecodedEvent) -> bool {
    if is_press(event, CC_STOP) {
        false
    } else if is_press(event, CC_PLAY) {
        !playing
    } else {
        playing
    }
}

/// The state after a message with timestamp `time` and content `bytes`.
pub open spec fn next_state(state: TransportState, time: u64, bytes: Seq<u8>) -> TransportState {
    TransportState {
        last_event_time_us: time,
        playing: match decode_spec(bytes) {
            Ok(event) => playing_after(state.playing, event),
            Err(_) => state.playing,
        },
    }
}

/// What handling a message with timestamp `time` and content `bytes`
/// reports.
pub open spec fn outcome(state: TransportState, time: u64, bytes: Seq<u8>) -> Handled {
    Handled {
        delta_us: elapsed(state.last_event_time_us, time),
        event: decode_spec(bytes),
        command: match decode_spec(bytes) {
            Ok(event) => command_for(state.playing, event),
            Err(_) => None,
        },
    }
}

impl TransportState {
    /// The state at startup: stopped, with the clock at zero.
    pub fn new() -> (state: Self)
        ensures
            state == (TransportState { last_event_time_us: 0, playing: false }),
    {
        TransportState { last_event_time_us: 0, playing: false }
    }

    /// Records the arrival of a message at `time` and returns the time since
    /// the previous one.
    pub fn stamp(&mut self, time: u64) -> (delta: u64)
        ensures
            delta == elapsed(old(self).last_event_time_us, time),
            final(self).last_event_time_us == time,
            final(self).playing == old(self).playing,
    {
        let delta = time.saturating_sub(self.last_event_time_us);
        self.last_event_time_us = time;
        delta
    }

    /// Applies the button policy to one decoded event.
    pub fn translate(&mut self, event: &DecodedEvent) -> (command: Option<MmcCommand>)
        ensures
            command == command_for(old(self).playing, *event),
            final(self).playing == playing_after(old(self).playing, *event),
            final(self).last_event_time_us == old(self).last_event_time_us,
    {
        if let DecodedEvent::ControlChange { channel: _, controller, value } = *event {
            if controller == CC_RECORD {
                if value == CC_ON_VALUE {
                    Some(MmcCommand::RecordPause)
                } else {
                    Some(MmcCommand::RecordExit)
                }
            } else if controller == CC_STOP && value == CC_ON_VALUE {
                if self.playing {
                    self.playing = false;
                    Some(MmcCommand::Stop)
                } else {
                    // if we weren't playing when STOP was pressed, rewind
                    Some(MmcCommand::GotoZero)
                }
            } else if controller == CC_PLAY && value == CC_ON_VALUE {
                if self.playing {
                    // if we were already playing when PLAY was pressed, pause instead
                    self.playing = false;
                    Some(MmcCommand::Pause)
                } else {
                    self.playing = true;
                    Some(MmcCommand::Play)
                }
            } else {
                None
            }
        } else {
            None
        }
    }
}

/// Handles one incoming message: stamps it, decodes it, and decides which
/// command, if any, to send.
///
/// A message that does not decode leaves the transport flag alone and yields
/// no command; the timestamp is recorded all the same.
pub fn handler(time: u64, midi_data: &[u8], data: &mut TransportState) -> (handled: Handled)
    ensures
        handled == outcome(*old(data), time, midi_data@),
        *final(data) == next_state(*old(data), time, midi_data@),
{
    let delta_us = data.stamp(time);
    let event = decode(midi_data);
    let command = match event {
        Ok(decoded) => data.translate(&decoded),
        Err(_) => None,
    };
    Handled { delta_us, event, command }
}

/// Splits a time in microseconds into whole seconds and the remaining
/// microseconds.
pub fn split_micros(time_us: u64) -> (parts: (u64, u64))
    ensures
        parts.0 == time_us / MICROS_PER_SECOND,
        parts.1 == time_us % MICROS_PER_SECOND,
{
    (time_us / MICROS_PER_SECOND, time_us % MICROS_PER_SECOND)
}

} // verus!
