//! The boundary to `ghakuf`, whose `MidiEventBuilder` assembles an event from
//! a status byte and the data bytes pushed after it.
//!
//! Nothing in this module is proved. Each contract restates what the builder's
//! source does, over three ghost projections of a builder's state.

use ghakuf::messages::{MidiEvent, MidiEventBuilder};
use vstd::prelude::*;
use crate::event::{data_bytes_needed, event_of, DecodedEvent};

verus! {

/// `ghakuf::messages::MidiEventBuilder`, opaque to the verifier.
#[verifier::external_type_specification]
#[verifier::external_body]
pub struct ExMidiEventBuilder(ghakuf::messages::MidiEventBuilder);

/// The status byte a builder was created with.
pub uninterp spec fn builder_status(builder: MidiEventBuilder) -> u8;

/// The data bytes a builder has accepted so far, oldest first.
pub uninterp spec fn builder_data(builder: MidiEventBuilder) -> Seq<u8>;

/// How many more data bytes a builder will accept.
pub uninterp spec fn builder_shortage(builder: MidiEventBuilder) -> u8;

/// `MidiEventBuilder::new` records the status byte, starts with no data, and
/// sets the shortage from the status byte's high nibble: two for note off,
/// note on, key pressure, control change and pitch bend, one for program
/// change and channel pressure, none otherwise.
pub assume_specification[ ghakuf::messages::MidiEventBuilder::new ](status: u8) -> (builder: MidiEventBuilder)
    ensures
        builder_status(builder) == status,
        builder_data(builder) == Seq::<u8>::empty(),
        builder_shortage(builder) == data_bytes_needed(status),
;

/// `MidiEventBuilder::push` appends the byte and lowers the shortage by one
/// while the shortage is positive; once it is zero the byte is dropped and
/// the builder stays as it was.
pub assume_specification[ ghakuf::messages::MidiEventBuilder::push ](builder: &mut MidiEventBuilder, data: u8)
    ensures
        builder_status(*final(builder)) == builder_status(*old(builder)),
        builder_shortage(*old(builder)) > 0 ==> {
            &&& builder_data(*final(builder)) == builder_data(*old(builder)).push(data)
            &&& builder_shortage(*final(builder)) == builder_shortage(*old(builder)) - 1
        },
        builder_shortage(*old(builder)) == 0 ==> {
            &&& builder_data(*final(builder)) == builder_data(*old(builder))
            &&& builder_shortage(*final(builder)) == 0
        },
;

/// `MidiEventBuilder::shortage` reports how many data bytes are still missing.
pub assume_specification[ ghakuf::messages::MidiEventBuilder::shortage ](builder: &MidiEventBuilder) -> (shortage: u8)
    ensures
        shortage == builder_shortage(*builder),
;

/// `MidiEventBuilder::build` picks the variant by the status byte's high
/// nibble, takes the channel from its low nibble, and reads the fields from
/// the first one or two data bytes. It indexes those bytes without a check, so
/// they have to be there.
#[verifier::external_body]
pub(crate) fn build_event(builder: &MidiEventBuilder) -> (event: DecodedEvent)
    requires
        builder_data(*builder).len() >= data_bytes_needed(builder_status(*builder)),
    ensures
        event == event_of(builder_status(*builder), builder_data(*builder)),
{
    match builder.build() {
        MidiEvent::NoteOff { ch, note, velocity } => DecodedEvent::NoteOff { channel: ch, note, velocity },
        MidiEvent::NoteOn { ch, note, velocity } => DecodedEvent::NoteOn { channel: ch, note, velocity },
        MidiEvent::PolyphonicKeyPressure { ch, note, velocity } => DecodedEvent::PolyphonicKeyPressure { channel: ch, note, velocity },
        MidiEvent::ControlChange { ch, control, data } => DecodedEvent::ControlChange { channel: ch, controller: control, value: data },
        MidiEvent::ProgramChange { ch, program } => DecodedEvent::ProgramChange { channel: ch, program },
        MidiEvent::ChannelPressure { ch, pressure } => DecodedEvent::ChannelPressure { channel: ch, pressure },
        MidiEvent::PitchBendChange { ch, data } => DecodedEvent::PitchBendChange { channel: ch, bend: data },
        MidiEvent::Unknown { ch } => DecodedEvent::Unknown { channel: ch },
    }
}

} // verus!
