//! What holds of the translator for every state and every message.
//!
//! Each statement is over `outcome` and `next_state`, the two functions that
//! `handler` is specified by.

use vstd::prelude::*;
use crate::decoder::{decode_spec, is_control_change, is_truncated, lemma_control_change_decodes};
use crate::event::{DecodeError, DecodedEvent};
use crate::mmc::MmcCommand;
use crate::transport::{
    elapsed, next_state, outcome, TransportState, CC_ON_VALUE, CC_PLAY, CC_RECORD, CC_STOP,
};

verus! {

/// Pressing stop while the transport is stopped sends the locate-to-zero
/// command and leaves the transport stopped.
pub proof fn stop_while_stopped_returns_to_start(state: TransportState, time: u64, bytes: Seq<u8>)
    requires
        is_control_change(bytes, CC_STOP, CC_ON_VALUE),
        !state.playing,
    ensures
        outcome(state, time, bytes).command == Some(MmcCommand::GotoZero),
        !next_state(state, time, bytes).playing,
{
    lemma_control_change_decodes(bytes, CC_STOP, CC_ON_VALUE);
}

/// Pressing stop while the transport is rolling sends stop and marks the
/// transport stopped.
pub proof fn stop_while_playing_stops(state: TransportState, time: u64, bytes: Seq<u8>)
    requires
        is_control_change(bytes, CC_STOP, CC_ON_VALUE),
        state.playing,
    ensures
        outcome(state, time, bytes).command == Some(MmcCommand::Stop),
        !next_state(state, time, bytes).playing,
{
    lemma_control_change_decodes(bytes, CC_STOP, CC_ON_VALUE);
}

/// Pressing play twice from a stopped transport first sends play and marks
/// the transport rolling, then sends pause and marks it stopped again.
pub proof fn play_pressed_twice_round_trips(
    state: TransportState,
    first_time: u64,
    first: Seq<u8>,
    second_time: u64,
    second: Seq<u8>,
)
    requires
        is_control_change(first, CC_PLAY, CC_ON_VALUE),
        is_control_change(second, CC_PLAY, CC_ON_VALUE),
        !state.playing,
    ensures
        outcome(state, first_time, first).command == Some(MmcCommand::Play),
        next_state(state, first_time, first).playing,
        outcome(next_state(state, first_time, first), second_time, second).command == Some(
            MmcCommand::Pause,
        ),
        !next_state(next_state(state, first_time, first), second_time, second).playing,
{
    lemma_control_change_decodes(first, CC_PLAY, CC_ON_VALUE);
    lemma_control_change_decodes(second, CC_PLAY, CC_ON_VALUE);
}

/// The record button answers to every value: a press starts recording, any
/// other value ends it. Neither reads nor changes the transport flag.
pub proof fn record_follows_value(state: TransportState, time: u64, bytes: Seq<u8>, value: u8)
    requires
        is_control_change(bytes, CC_RECORD, value),
    ensures
        value == CC_ON_VALUE ==> outcome(state, time, bytes).command == Some(
            MmcCommand::RecordPause,
        ),
        value != CC_ON_VALUE ==> outcome(state, time, bytes).command == Some(
            MmcCommand::RecordExit,
        ),
        next_state(state, time, bytes).playing == state.playing,
{
    lemma_control_change_decodes(bytes, CC_RECORD, value);
}

/// A controller that is none of record, stop and play does nothing, and
/// neither does a stop or play message with a value other than the press
/// value.
pub proof fn unmapped_input_is_ignored(
    state: TransportState,
    time: u64,
    bytes: Seq<u8>,
    controller: u8,
    value: u8,
)
    requires
        is_control_change(bytes, controller, value),
        (controller != CC_RECORD && controller != CC_STOP && controller != CC_PLAY) || ((controller
            == CC_STOP || controller == CC_PLAY) && value != CC_ON_VALUE),
    ensures
        outcome(state, time, bytes).command is None,
        next_state(state, time, bytes).playing == state.playing,
{
    lemma_control_change_decodes(bytes, controller, value);
}

/// A command is only ever sent for a Control Change message from one of the
/// three buttons, and the transport flag only ever changes on a press of
/// stop or play.
pub proof fn only_buttons_act(state: TransportState, time: u64, bytes: Seq<u8>)
    ensures
        outcome(state, time, bytes).command is Some ==> bytes.len() >= 3 && (is_control_change(
            bytes,
            CC_RECORD,
            bytes[2],
        ) || is_control_change(bytes, CC_STOP, CC_ON_VALUE) || is_control_change(
            bytes,
            CC_PLAY,
            CC_ON_VALUE,
        )),
        next_state(state, time, bytes).playing != state.playing ==> is_control_change(
            bytes,
            CC_STOP,
            CC_ON_VALUE,
        ) || is_control_change(bytes, CC_PLAY, CC_ON_VALUE),
{
    if bytes.len() >= 3 {
        lemma_control_change_decodes(bytes, bytes[1], bytes[2]);
        let status = bytes[0];
        assert((0xb0 <= status && status <= 0xbf) <==> status & 0xf0 == 0xb0) by (bit_vector);
    }
}

/// The translator never chooses the rewind command: returning to the start
/// is always done by locating to zero.
pub proof fn rewind_is_never_sent(state: TransportState, time: u64, bytes: Seq<u8>)
    ensures
        outcome(state, time, bytes).command != Some(MmcCommand::Rewind),
{
}

/// An empty buffer, and one that ends before the data bytes its status byte
/// announces, does not decode.
pub proof fn truncated_message_does_not_decode(bytes: Seq<u8>)
    requires
        is_truncated(bytes),
    ensures
        decode_spec(bytes) == Err::<DecodedEvent, DecodeError>(DecodeError::MalformedMessage),
{
}

/// A message that does not decode yields no command and leaves the transport
/// flag alone. Apart from the recorded timestamp, whatever message comes next
/// is handled as if the bad one had never arrived.
pub proof fn malformed_is_skipped(
    state: TransportState,
    time: u64,
    bytes: Seq<u8>,
    later_time: u64,
    later: Seq<u8>,
)
    requires
        decode_spec(bytes) is Err,
    ensures
        outcome(state, time, bytes).command is None,
        next_state(state, time, bytes).playing == state.playing,
        next_state(state, time, bytes).last_event_time_us == time,
        outcome(next_state(state, time, bytes), later_time, later).command == outcome(
            state,
            later_time,
            later,
        ).command,
        outcome(next_state(state, time, bytes), later_time, later).event == outcome(
            state,
            later_time,
            later,
        ).event,
        next_state(next_state(state, time, bytes), later_time, later) == next_state(
            state,
            later_time,
            later,
        ),
{
}

/// The reported delta between two messages is the saturating difference of
/// their timestamps, whatever the messages hold and whether or not they
/// decode.
pub proof fn delta_ignores_content(
    state: TransportState,
    first_time: u64,
    first: Seq<u8>,
    second_time: u64,
    second: Seq<u8>,
)
    ensures
        outcome(next_state(state, first_time, first), second_time, second).delta_us == elapsed(
            first_time,
            second_time,
        ),
        second_time >= first_time ==> elapsed(first_time, second_time) == second_time - first_time,
        second_time < first_time ==> elapsed(first_time, second_time) == 0,
{
}

} // verus!
