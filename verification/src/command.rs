//! The command frames that go to the sensor, and the frames by which it
//! acknowledges them.

use crate::checksum::{be16, checksum, checksum_of, hi_byte, lo_byte, word_bytes};
use vstd::prelude::*;

verus! {

/// First byte of every frame.
pub const MN1: u8 = 0x42;

/// Second byte of every frame.
pub const MN2: u8 = 0x4D;

/// Number of bytes of a command frame.
pub const CMD_FRAME_SIZE: usize = 7;

/// Number of bytes of an acknowledgement.
pub const RESPONSE_FRAME_SIZE: usize = 8;

/// Command code that selects the reporting mode: data 0 for passive, 1 for active.
pub const CMD_MODE: u8 = 0xE1;

/// Command code that asks for one measurement in passive mode.
pub const CMD_REQUEST: u8 = 0xE2;

/// Command code that sets the power state: data 0 for sleep, 1 for wake.
pub const CMD_POWER: u8 = 0xE4;

/// The five bytes of a command frame that its checksum covers.
pub open spec fn command_head(cmd: u8, data: u16) -> Seq<u8> {
    seq![MN1, MN2, cmd, hi_byte(data), lo_byte(data)]
}

/// The command frame for `cmd` and `data`: the start bytes, the command
/// code, the data word and the checksum of those five bytes, every word
/// big-endian.
pub open spec fn command_frame(cmd: u8, data: u16) -> Seq<u8> {
    let head = command_head(cmd, data);
    let sum = checksum_of(head);
    head.push(hi_byte(sum)).push(lo_byte(sum))
}

/// Builds the command frame for `cmd` and `data`. Neither is judged: any
/// code and any data word give a frame.
pub fn create_command(cmd: u8, data: u16) -> (frame: [u8; 7])
    ensures
        frame@ == command_frame(cmd, data),
{
    let mut frame: [u8; 7] = [0u8; 7];
    let data_bytes: (u8, u8) = word_bytes(data);
    frame[0] = MN1;
    frame[1] = MN2;
    frame[2] = cmd;
    frame[3] = data_bytes.0;
    frame[4] = data_bytes.1;
    assert(frame@.take(5) =~= command_head(cmd, data));
    let sum: u16 = checksum(frame.as_slice(), CMD_FRAME_SIZE - 2);
    let sum_bytes: (u8, u8) = word_bytes(sum);
    frame[5] = sum_bytes.0;
    frame[6] = sum_bytes.1;
    assert(frame@ =~= command_frame(cmd, data));
    frame
}

/// The command code and the data word that `frame` carries: none unless
/// `frame` has the length of a command frame, starts with the two start
/// bytes and ends with the checksum of the five bytes before it.
pub open spec fn command_fields(frame: Seq<u8>) -> Option<(u8, u16)> {
    if frame.len() == CMD_FRAME_SIZE && frame[0] == MN1 && frame[1] == MN2 && be16(
        frame[5],
        frame[6],
    ) == checksum_of(frame.take(5)) {
        Some((frame[2], be16(frame[3], frame[4])))
    } else {
        None
    }
}

/// A word is spelled by its own two bytes.
pub proof fn lemma_word_round_trip(word: u16)
    ensures
        be16(hi_byte(word), lo_byte(word)) == word,
{
}

/// A command frame gives back what it was built from: read with the same
/// checksum, the frame for `cmd` and `data` carries `cmd` and `data`.
pub proof fn law_command_round_trip(cmd: u8, data: u16)
    ensures
        command_fields(command_frame(cmd, data)) == Some((cmd, data)),
{
    let frame = command_frame(cmd, data);
    assert(frame.take(5) =~= command_head(cmd, data));
    lemma_word_round_trip(data);
    lemma_word_round_trip(checksum_of(command_head(cmd, data)));
}

/// The acknowledgements that the sensor sends.
#[derive(Clone, Copy, Debug, PartialEq, Eq, Structural)]
pub enum Ack {
    /// The sensor now reports on request only.
    Passive,
    /// The sensor now reports continuously.
    Active,
    /// The sensor goes to sleep.
    Sleep,
}

/// The eight bytes by which the sensor acknowledges `ack`.
pub open spec fn ack_frame(ack: Ack) -> Seq<u8> {
    match ack {
        Ack::Passive => seq![0x42u8, 0x4Du8, 0x00u8, 0x04u8, 0xE1u8, 0x00u8, 0x01u8, 0x74u8],
        Ack::Active => seq![0x42u8, 0x4Du8, 0x00u8, 0x04u8, 0xE1u8, 0x01u8, 0x01u8, 0x75u8],
        Ack::Sleep => seq![0x42u8, 0x4Du8, 0x00u8, 0x04u8, 0xE4u8, 0x00u8, 0x01u8, 0x77u8],
    }
}

impl Ack {
    /// The frame that is expected for this acknowledgement.
    pub fn template(self) -> (frame: [u8; 8])
        ensures
            frame@ == ack_frame(self),
    {
        let frame: [u8; 8] = match self {
            Ack::Passive => [MN1, MN2, 0x00, 0x04, 0xE1, 0x00, 0x01, 0x74],
            Ack::Active => [MN1, MN2, 0x00, 0x04, 0xE1, 0x01, 0x01, 0x75],
            Ack::Sleep => [MN1, MN2, 0x00, 0x04, 0xE4, 0x00, 0x01, 0x77],
        };
        assert(frame@ =~= ack_frame(self));
        frame
    }
}

} // verus!
