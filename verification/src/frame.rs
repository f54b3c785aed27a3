//! The measurement frame that the sensor sends, and how it is decoded.

use crate::checksum::{be16, byte_sum, checksum, checksum_of, lemma_byte_sum_bound, word};
use crate::error::Error;
use vstd::prelude::*;

verus! {

/// Number of bytes of a measurement frame on the wire.
pub const OUTPUT_FRAME_SIZE: usize = 32;

/// Number of bytes that a frame's trailing checksum takes.
pub const CHECKSUM_SIZE: usize = 2;

/// One measurement as the sensor reports it. Every field but the two start
/// bytes is a big-endian 16-bit word on the wire, in the order given here.
#[derive(Clone, Copy, Debug, PartialEq, Eq, Structural)]
pub struct OutputFrame {
    /// First start byte.
    pub start1: u8,
    /// Second start byte.
    pub start2: u8,
    /// Number of bytes that follow the length field.
    pub frame_length: u16,
    /// PM1.0 concentration, standard particle.
    pub pm1_0: u16,
    /// PM2.5 concentration, standard particle.
    pub pm2_5: u16,
    /// PM10 concentration, standard particle.
    pub pm10: u16,
    /// PM1.0 concentration, under atmospheric environment.
    pub pm1_0_atm: u16,
    /// PM2.5 concentration, under atmospheric environment.
    pub pm2_5_atm: u16,
    /// PM10 concentration, under atmospheric environment.
    pub pm10_atm: u16,
    /// Particles beyond 0.3 um in 0.1 l of air.
    pub beyond_0_3: u16,
    /// Particles beyond 0.5 um in 0.1 l of air.
    pub beyond_0_5: u16,
    /// Particles beyond 1.0 um in 0.1 l of air.
    pub beyond_1_0: u16,
    /// Particles beyond 2.5 um in 0.1 l of air.
    pub beyond_2_5: u16,
    /// Particles beyond 5.0 um in 0.1 l of air.
    pub beyond_5_0: u16,
    /// Particles beyond 10 um in 0.1 l of air.
    pub beyond_10_0: u16,
    /// Reserved by the sensor.
    pub reserved: u16,
    /// The checksum that the frame carried.
    pub check: u16,
}

/// The fields that the 32 bytes `wire` spell, whether or not the frame is intact.
pub open spec fn fields_of(wire: Seq<u8>) -> OutputFrame {
    OutputFrame {
        start1: wire[0],
        start2: wire[1],
        frame_length: be16(wire[2], wire[3]),
        pm1_0: be16(wire[4], wire[5]),
        pm2_5: be16(wire[6], wire[7]),
        pm10: be16(wire[8], wire[9]),
        pm1_0_atm: be16(wire[10], wire[11]),
        pm2_5_atm: be16(wire[12], wire[13]),
        pm10_atm: be16(wire[14], wire[15]),
        beyond_0_3: be16(wire[16], wire[17]),
        beyond_0_5: be16(wire[18], wire[19]),
        beyond_1_0: be16(wire[20], wire[21]),
        beyond_2_5: be16(wire[22], wire[23]),
        beyond_5_0: be16(wire[24], wire[25]),
        beyond_10_0: be16(wire[26], wire[27]),
        reserved: be16(wire[28], wire[29]),
        check: be16(wire[30], wire[31]),
    }
}

/// A measurement frame is intact when its last two bytes spell the checksum
/// of the thirty before them.
pub open spec fn intact(wire: Seq<u8>) -> bool {
    &&& wire.len() == OUTPUT_FRAME_SIZE
    &&& be16(wire[30], wire[31]) == checksum_of(wire.take(30))
}

/// The measurement that `wire` decodes to: none unless the frame is intact.
pub open spec fn decoded(wire: Seq<u8>) -> Option<OutputFrame> {
    if intact(wire) {
        Some(fields_of(wire))
    } else {
        None
    }
}

/// A frame whose checksum was changed is turned down: where `sent` is
/// intact and `got` differs from it in one or both of the checksum bytes and
/// nowhere else, `got` decodes to nothing.
pub proof fn law_changed_checksum_rejected(sent: Seq<u8>, got: Seq<u8>)
    requires
        intact(sent),
        got.len() == sent.len(),
        got.take(30) == sent.take(30),
        got[30] != sent[30] || got[31] != sent[31],
    ensures
        decoded(got).is_none(),
{
}

/// Putting `byte` in place of the byte at `at` changes the sum by the
/// difference of the two.
pub proof fn lemma_byte_sum_update(bytes: Seq<u8>, at: int, byte: u8)
    requires
        0 <= at < bytes.len(),
    ensures
        byte_sum(bytes.update(at, byte)) == byte_sum(bytes) - bytes[at] + byte,
    decreases bytes.len(),
{
    let changed = bytes.update(at, byte);
    if at == bytes.len() - 1 {
        assert(changed.drop_last() =~= bytes.drop_last());
    } else {
        assert(changed.drop_last() =~= bytes.drop_last().update(at, byte));
        lemma_byte_sum_update(bytes.drop_last(), at, byte);
    }
}

/// A frame of which one measured byte was changed is turned down: where
/// `sent` is intact and `got` is `sent` with another byte at one place
/// before the checksum, `got` decodes to nothing.
pub proof fn law_changed_byte_rejected(sent: Seq<u8>, at: int, byte: u8)
    requires
        intact(sent),
        0 <= at < 30,
        byte != sent[at],
    ensures
        decoded(sent.update(at, byte)).is_none(),
{
    let got = sent.update(at, byte);
    assert(got.take(30) =~= sent.take(30).update(at, byte));
    lemma_byte_sum_update(sent.take(30), at, byte);
    lemma_byte_sum_bound(sent.take(30));
    lemma_byte_sum_bound(got.take(30));
}

impl OutputFrame {
    /// Decodes a measurement frame. The frame is taken to start with the two
    /// start bytes; they are copied out, not judged. A frame that is not
    /// intact gives `ChecksumError`, and nothing of it is handed out.
    pub fn from_buffer<E>(buffer: &[u8; 32]) -> (r: Result<Self, Error<E>>)
        ensures
            match decoded(buffer@) {
                Some(frame) => r == Ok::<OutputFrame, Error<E>>(frame),
                None => r == Err::<OutputFrame, Error<E>>(Error::ChecksumError),
            },
    {
        let sum: u16 = checksum(buffer.as_slice(), OUTPUT_FRAME_SIZE - CHECKSUM_SIZE);
        let frame = OutputFrame {
            start1: buffer[0],
            start2: buffer[1],
            frame_length: word(buffer[2], buffer[3]),
            pm1_0: word(buffer[4], buffer[5]),
            pm2_5: word(buffer[6], buffer[7]),
            pm10: word(buffer[8], buffer[9]),
            pm1_0_atm: word(buffer[10], buffer[11]),
            pm2_5_atm: word(buffer[12], buffer[13]),
            pm10_atm: word(buffer[14], buffer[15]),
            beyond_0_3: word(buffer[16], buffer[17]),
            beyond_0_5: word(buffer[18], buffer[19]),
            beyond_1_0: word(buffer[20], buffer[21]),
            beyond_2_5: word(buffer[22], buffer[23]),
            beyond_5_0: word(buffer[24], buffer[25]),
            beyond_10_0: word(buffer[26], buffer[27]),
            reserved: word(buffer[28], buffer[29]),
            check: word(buffer[30], buffer[31]),
        };
        if sum != frame.check {
            return Err(Error::ChecksumError);
        }
        Ok(frame)
    }
}

impl Default for OutputFrame {
    /// The frame whose every field is zero.
    fn default() -> (frame: Self)
        ensures
            frame == fields_of(Seq::new(32, |i: int| 0u8)),
    {
        OutputFrame {
            start1: 0,
            start2: 0,
            frame_length: 0,
            pm1_0: 0,
            pm2_5: 0,
            pm10: 0,
            pm1_0_atm: 0,
            pm2_5_atm: 0,
            pm10_atm: 0,
            beyond_0_3: 0,
            beyond_0_5: 0,
            beyond_1_0: 0,
            beyond_2_5: 0,
            beyond_5_0: 0,
            beyond_10_0: 0,
            reserved: 0,
            check: 0,
        }
    }
}

} // verus!
