//! What the machine does on a given stream.
//!
//! [`crate::resync::resync`] says in terms of bytes alone which frame a read
//! takes from a stream. The machine of [`crate::sensor`] gets the stream in
//! the pieces that it asks for. This module plays a stream to the machine
//! and proves that the two agree.

use crate::checksum::{be16, byte_sum, checksum_of};
use crate::command::{ack_frame, Ack, MN1, MN2};
use crate::error::Error;
use crate::frame::{fields_of, intact};
use crate::resync::{
    frame_start, law_false_start_skipped, law_resync_drops_noise, passes_over, resync, Scan,
    Synced,
};
use crate::sensor::{judged, taken, wanted, Phase, Progress, Reply};
use vstd::prelude::*;

verus! {

/// The end of an exchange and the number of bytes that it took.
#[verifier::reject_recursive_types(E)]
pub ghost struct Played<E> {
    /// How the exchange ended.
    pub end: Progress<E>,
    /// Number of bytes taken from the stream.
    pub consumed: nat,
}

/// `played`, with `by` more bytes taken before it.
pub open spec fn later<E>(played: Option<Played<E>>, by: nat) -> Option<Played<E>> {
    match played {
        Some(p) => Some(Played { end: p.end, consumed: p.consumed + by }),
        None => None,
    }
}

/// How the read of `reply` ends, from the point where the search stands at
/// `scan`, when every read is served from the front of `stream` and none
/// fails; none where `stream` holds fewer bytes than the machine asks for
/// before the exchange is over.
pub open spec fn played<E>(reply: Reply, scan: Scan, stream: Seq<u8>) -> Option<Played<E>>
    decreases stream.len(),
{
    let due = wanted(Phase::Receiving(reply, scan));
    if stream.len() < due {
        None
    } else if scan is Locked {
        Some(Played { end: taken::<E>(reply, scan, stream.take(due as int)).1, consumed: due })
    } else {
        later(played(reply, scan.next(stream[0]), stream.skip(1)), 1)
    }
}

/// What a read makes of the frame that the search has found.
pub open spec fn read_of<E>(reply: Reply, found: Option<Synced>) -> Option<Played<E>> {
    match found {
        Some(synced) => Some(
            Played { end: judged::<E>(reply, synced.frame), consumed: synced.consumed() },
        ),
        None => None,
    }
}

/// The machine reads the frame that [`resync`] names, and takes as many
/// bytes: played a stream, a read of `reply` ends as the frame of that
/// length which `resync` finds in the stream is judged; where `resync`
/// finds none, the read is not over when the stream is.
pub proof fn law_read_follows_resync<E>(reply: Reply, stream: Seq<u8>)
    ensures
        played::<E>(reply, Scan::Hunting, stream) == read_of::<E>(
            reply,
            resync(stream, reply.frame_len()),
        ),
    decreases stream.len(),
{
    let len = reply.frame_len();
    reveal_with_fuel(played, 3);
    if stream.len() == 0 {
    } else if stream[0] != MN1 {
        let tail = stream.skip(1);
        law_read_follows_resync::<E>(reply, tail);
        if stream.len() >= 2 {
            if let Some(at) = frame_start(tail) {
                if at + len <= tail.len() {
                    assert(stream.subrange((at + 1) as int, (at + 1 + len) as int) =~= tail.subrange(
                        at as int,
                        (at + len) as int,
                    ));
                }
            }
        }
    } else if stream.len() == 1 {
        assert(played::<E>(reply, Scan::Armed, stream.skip(1)).is_none());
    } else if stream[1] != MN2 {
        let tail = stream.skip(2);
        assert(stream.skip(1).skip(1) =~= tail);
        law_read_follows_resync::<E>(reply, tail);
        if let Some(at) = frame_start(tail) {
            if at + len <= tail.len() {
                assert(stream.subrange((at + 2) as int, (at + 2 + len) as int) =~= tail.subrange(
                    at as int,
                    (at + len) as int,
                ));
            }
        }
    } else {
        let body = stream.skip(1).skip(1);
        if len <= stream.len() {
            assert(seq![MN1, MN2] + body.take(len - 2) =~= stream.subrange(0, len as int));
        }
    }
}

/// A measurement behind noise is read whole: where the search passes over
/// `noise` and `frame` is an intact measurement frame that begins with the
/// two start bytes, a read from a stream that holds `noise`, then `frame`,
/// then anything at all, brings the fields of `frame` and takes the noise
/// and the frame, nothing more.
pub proof fn law_read_brings_frame_behind_noise<E>(noise: Seq<u8>, frame: Seq<u8>, rest: Seq<u8>)
    requires
        passes_over(noise),
        intact(frame),
        frame[0] == MN1,
        frame[1] == MN2,
    ensures
        played::<E>(Reply::Measurement, Scan::Hunting, noise + frame + rest) == Some(
            Played::<E> { end: Progress::Measured(fields_of(frame)), consumed: noise.len() + 32 },
        ),
{
    let body = frame.skip(2);
    let stream = noise + frame + rest;
    assert(frame =~= seq![MN1, MN2] + body);
    assert(stream =~= noise + seq![MN1, MN2] + body + rest);
    law_resync_drops_noise(noise, body, rest, 32);
    law_read_follows_resync::<E>(Reply::Measurement, stream);
}

/// A measurement that is not intact fails the read with `ChecksumError`,
/// and the read takes the frame all the same: nothing of it is looked at
/// again.
pub proof fn law_read_fails_on_broken_frame<E>(noise: Seq<u8>, frame: Seq<u8>, rest: Seq<u8>)
    requires
        passes_over(noise),
        frame.len() == 32,
        !intact(frame),
        frame[0] == MN1,
        frame[1] == MN2,
    ensures
        played::<E>(Reply::Measurement, Scan::Hunting, noise + frame + rest) == Some(
            Played::<E> { end: Progress::Failed(Error::ChecksumError), consumed: noise.len() + 32 },
        ),
{
    let body = frame.skip(2);
    let stream = noise + frame + rest;
    assert(frame =~= seq![MN1, MN2] + body);
    assert(stream =~= noise + seq![MN1, MN2] + body + rest);
    law_resync_drops_noise(noise, body, rest, 32);
    law_read_follows_resync::<E>(Reply::Measurement, stream);
}

/// The machine goes on behind a false start: where the search has reached a
/// first start byte and the byte behind it is not the second, the read ends
/// as it would end on the stream behind the two, with those bytes and all
/// before them taken as well.
pub proof fn law_read_goes_on_behind_false_start<E>(
    reply: Reply,
    before: Seq<u8>,
    after: u8,
    rest: Seq<u8>,
)
    requires
        passes_over(before),
        after != MN2,
    ensures
        played::<E>(reply, Scan::Hunting, before + seq![MN1, after] + rest) == later(
            played::<E>(reply, Scan::Hunting, rest),
            before.len() + 2,
        ),
{
    law_false_start_skipped(before, after, rest, reply.frame_len());
    law_read_follows_resync::<E>(reply, before + seq![MN1, after] + rest);
    law_read_follows_resync::<E>(reply, rest);
}

/// Every acknowledgement carries the checksum of its own first six bytes: a
/// frame that is turned down as an acknowledgement is not turned down for
/// its checksum.
pub proof fn law_ack_frames_carry_checksum(ack: Ack)
    ensures
        ack_frame(ack).len() == 8,
        ack_frame(ack)[0] == MN1,
        ack_frame(ack)[1] == MN2,
        be16(ack_frame(ack)[6], ack_frame(ack)[7]) == checksum_of(ack_frame(ack).take(6)),
{
    let head = ack_frame(ack).take(6);
    reveal_with_fuel(byte_sum, 7);
    assert(head.drop_last() =~= ack_frame(ack).take(5));
    assert(head.drop_last().drop_last() =~= ack_frame(ack).take(4));
    assert(head.drop_last().drop_last().drop_last() =~= ack_frame(ack).take(3));
    assert(head.drop_last().drop_last().drop_last().drop_last() =~= ack_frame(ack).take(2));
    assert(head.drop_last().drop_last().drop_last().drop_last().drop_last() =~= ack_frame(
        ack,
    ).take(1));
    assert(head.drop_last().drop_last().drop_last().drop_last().drop_last().drop_last()
        =~= ack_frame(ack).take(0));
}

/// The acknowledgement of one command is not taken for that of another:
/// where the sensor answers with the acknowledgement `got` while `expected`
/// is due, the exchange fails with `IncorrectResponse`, though the frame
/// that came is intact, and has taken the noise and the eight bytes of the
/// frame.
pub proof fn law_other_ack_is_incorrect_response<E>(
    expected: Ack,
    got: Ack,
    noise: Seq<u8>,
    rest: Seq<u8>,
)
    requires
        expected != got,
        passes_over(noise),
    ensures
        played::<E>(Reply::Ack(expected), Scan::Hunting, noise + ack_frame(got) + rest) == Some(
            Played::<E> {
                end: Progress::Failed(Error::IncorrectResponse),
                consumed: noise.len() + 8,
            },
        ),
{
    let frame = ack_frame(got);
    let body = frame.skip(2);
    let stream = noise + frame + rest;
    assert(frame =~= seq![MN1, MN2] + body);
    assert(stream =~= noise + seq![MN1, MN2] + body + rest);
    law_resync_drops_noise(noise, body, rest, 8);
    law_read_follows_resync::<E>(Reply::Ack(expected), stream);
    assert(ack_frame(expected)[4] != ack_frame(got)[4] || ack_frame(expected)[5] != ack_frame(
        got,
    )[5]);
}

/// The acknowledgement that is due ends the exchange well, whatever noise
/// the search has passed over before it.
pub proof fn law_due_ack_is_done<E>(expected: Ack, noise: Seq<u8>, rest: Seq<u8>)
    requires
        passes_over(noise),
    ensures
        played::<E>(Reply::Ack(expected), Scan::Hunting, noise + ack_frame(expected) + rest)
            == Some(Played::<E> { end: Progress::Done, consumed: noise.len() + 8 }),
{
    let frame = ack_frame(expected);
    let body = frame.skip(2);
    let stream = noise + frame + rest;
    assert(frame =~= seq![MN1, MN2] + body);
    assert(stream =~= noise + seq![MN1, MN2] + body + rest);
    law_resync_drops_noise(noise, body, rest, 8);
    law_read_follows_resync::<E>(Reply::Ack(expected), stream);
}

} // verus!
