//! MIDI Machine Control commands and their System Exclusive wire format.

use vstd::prelude::*;

verus! {

// see https://en.wikipedia.org/wiki/MIDI_Machine_Control
pub const MMC_STOP: [u8; 6] = [0xf0, 0x7f, 0x00, 0x06, 0x01, 0xf7];

pub const MMC_PLAY: [u8; 6] = [0xf0, 0x7f, 0x00, 0x06, 0x02, 0xf7];

pub const MMC_REWIND: [u8; 6] = [0xf0, 0x7f, 0x00, 0x06, 0x05, 0xf7];

/// Record exit: stops recording.
pub const MMC_RECE: [u8; 6] = [0xf0, 0x7f, 0x00, 0x06, 0x07, 0xf7];

/// Record pause: arms and starts recording.
pub const MMC_RECP: [u8; 6] = [0xf0, 0x7f, 0x00, 0x06, 0x08, 0xf7];

pub const MMC_PAUSE: [u8; 6] = [0xf0, 0x7f, 0x00, 0x06, 0x09, 0xf7];

/// LOCATE with an all-zero target. Ardour does not respond to Rewind, so this
/// is what "return to start" sends.
pub const MMC_GOTO0: [u8; 13] = [
    0xf0, 0x7f, 0x00, 0x06, 0x44, 0x06, 0x01, 0x00, 0x00, 0x00, 0x00, 0x00, 0xf7,
];

/// One of the transport commands this crate can emit.
#[derive(Clone, Copy, Debug, PartialEq, Eq, Structural)]
pub enum MmcCommand {
    Stop,
    Play,
    Pause,
    /// Defined for completeness; the translator never chooses it.
    Rewind,
    RecordPause,
    RecordExit,
    GotoZero,
}

impl MmcCommand {
    /// The exact bytes that go on the wire for this command.
    pub open spec fn wire(self) -> Seq<u8> {
        match self {
            MmcCommand::Stop => seq![0xf0u8, 0x7fu8, 0x00u8, 0x06u8, 0x01u8, 0xf7u8],
            MmcCommand::Play => seq![0xf0u8, 0x7fu8, 0x00u8, 0x06u8, 0x02u8, 0xf7u8],
            MmcCommand::Rewind => seq![0xf0u8, 0x7fu8, 0x00u8, 0x06u8, 0x05u8, 0xf7u8],
            MmcCommand::RecordExit => seq![0xf0u8, 0x7fu8, 0x00u8, 0x06u8, 0x07u8, 0xf7u8],
            MmcCommand::RecordPause => seq![0xf0u8, 0x7fu8, 0x00u8, 0x06u8, 0x08u8, 0xf7u8],
            MmcCommand::Pause => seq![0xf0u8, 0x7fu8, 0x00u8, 0x06u8, 0x09u8, 0xf7u8],
            MmcCommand::GotoZero => seq![
                0xf0u8, 0x7fu8, 0x00u8, 0x06u8, 0x44u8, 0x06u8, 0x01u8,
                0x00u8, 0x00u8, 0x00u8, 0x00u8, 0x00u8, 0xf7u8,
            ],
        }
    }

    /// The buffer to hand to the MIDI output for this command.
    pub fn bytes(self) -> (out: &'static [u8])
        ensures
            out@ == self.wire(),
    {
        match self {
            MmcCommand::Stop => &MMC_STOP,
            MmcCommand::Play => &MMC_PLAY,
            MmcCommand::Rewind => &MMC_REWIND,
            MmcCommand::RecordExit => &MMC_RECE,
            MmcCommand::RecordPause => &MMC_RECP,
            MmcCommand::Pause => &MMC_PAUSE,
            MmcCommand::GotoZero => &MMC_GOTO0,
        }
    }
}

} // verus!
