//! Decoding of one raw MIDI message into a `DecodedEvent`.

use ghakuf::messages::MidiEventBuilder;
use vstd::prelude::*;
use crate::builder::{build_event, builder_data, builder_shortage, builder_status};
use crate::event::{data_bytes_needed, event_of, is_data_byte, DecodeError, DecodedEvent};

verus! {

/// Whether `need` data bytes follow the status byte at the head of `bytes`.
/// A byte with its top bit set does not count: it is a status byte that cut
/// the message short.
pub open spec fn has_data_bytes(bytes: Seq<u8>, need: int) -> bool {
    &&& bytes.len() > need
    &&& forall|i: int| 1 <= i <= need ==> is_data_byte(#[trigger] bytes[i])
}

/// What a raw buffer decodes to.
///
/// The first byte is the status byte. It fixes how many data bytes belong to
/// the message; anything after those is ignored. A buffer that is empty, or
/// lacks some of those data bytes, is malformed.
pub open spec fn decode_spec(bytes: Seq<u8>) -> Result<DecodedEvent, DecodeError> {
    if bytes.len() == 0 {
        Err(DecodeError::MalformedMessage)
    } else {
        let need = data_bytes_needed(bytes[0]) as int;
        if has_data_bytes(bytes, need) {
            Ok(event_of(bytes[0], bytes.subrange(1, 1 + need)))
        } else {
            Err(DecodeError::MalformedMessage)
        }
    }
}

/// Whether `bytes` is a complete Control Change message that reports `value`
/// for `controller`. The channel and any bytes after the third are free.
pub open spec fn is_control_change(bytes: Seq<u8>, controller: u8, value: u8) -> bool {
    &&& bytes.len() >= 3
    &&& 0xb0 <= bytes[0] <= 0xbf
    &&& bytes[1] == controller && is_data_byte(controller)
    &&& bytes[2] == value && is_data_byte(value)
}

/// Whether `bytes` is empty or ends before the data bytes that its status
/// byte announces.
pub open spec fn is_truncated(bytes: Seq<u8>) -> bool {
    bytes.len() == 0 || bytes.len() - 1 < data_bytes_needed(bytes[0])
}

/// A buffer decodes to a Control Change event exactly when it is a Control
/// Change message; the event carries the channel from the status byte's low
/// nibble and the two data bytes as they came.
pub proof fn lemma_control_change_decodes(bytes: Seq<u8>, controller: u8, value: u8)
    ensures
        is_control_change(bytes, controller, value) <==> decode_spec(bytes) == Ok::<
            DecodedEvent,
            DecodeError,
        >(DecodedEvent::ControlChange { channel: bytes[0] & 0x0f, controller, value }),
{
    if bytes.len() > 0 {
        let status = bytes[0];
        assert((0xb0 <= status && status <= 0xbf) <==> status & 0xf0 == 0xb0) by (bit_vector);
        if status & 0xf0 == 0xb0 && bytes.len() >= 3 {
            let data = bytes.subrange(1, 3);
            assert(data[0] == bytes[1] && data[1] == bytes[2]);
        }
    }
}

/// Every event that comes out of the decoder has a four-bit channel and
/// seven-bit data fields.
pub proof fn lemma_decoded_is_well_formed(bytes: Seq<u8>)
    ensures
        decode_spec(bytes) matches Ok(event) ==> event.well_formed(),
{
    if bytes.len() > 0 {
        let status = bytes[0];
        let need = data_bytes_needed(status) as int;
        assert(status & 0x0f < 16) by (bit_vector);
        if has_data_bytes(bytes, need) {
            let data = bytes.subrange(1, 1 + need);
            if need >= 1 {
                assert(data[0] == bytes[1]);
            }
            if need >= 2 {
                assert(data[1] == bytes[2]);
            }
        }
    }
}

/// Decodes one raw MIDI message.
///
/// Fails exactly when the buffer is empty or the status byte is not followed
/// by as many data bytes as it calls for.
pub fn decode(bytes: &[u8]) -> (result: Result<DecodedEvent, DecodeError>)
    ensures
        result == decode_spec(bytes@),
        result matches Ok(event) ==> event.well_formed(),
{
    proof {
        lemma_decoded_is_well_formed(bytes@);
    }
    if bytes.len() == 0 {
        return Err(DecodeError::MalformedMessage);
    }
    let status = bytes[0];
    let mut builder = MidiEventBuilder::new(status);
    let mut next: usize = 1;
    while builder.shortage() > 0
        invariant
            1 <= next <= bytes.len(),
            status == bytes[0],
            builder_status(builder) == status,
            builder_data(builder) == bytes@.subrange(1, next as int),
            builder_shortage(builder) + builder_data(builder).len() == data_bytes_needed(status),
            forall|i: int| 1 <= i < next ==> is_data_byte(#[trigger] bytes[i]),
        decreases builder_shortage(builder),
    {
        if next >= bytes.len() || bytes[next] >= 0x80 {
            return Err(DecodeError::MalformedMessage);
        }
        builder.push(bytes[next]);
        next += 1;
    }
    Ok(build_event(&builder))
}

} // verus!
