//! Where a frame starts in a running byte stream.
//!
//! The sensor sends without being asked, so a reader may join the stream in
//! the middle of a frame. It finds its place again by the two start bytes:
//! bytes are dropped until one equals [`MN1`]; if the byte after it equals
//! [`MN2`] a frame starts there, else both are dropped and the search goes
//! on behind them. The byte that was turned down is not looked at a second
//! time, even where it is itself an [`MN1`].

use crate::command::{MN1, MN2};
use vstd::prelude::*;

verus! {

/// How far the search for the start of a frame has come.
#[derive(Clone, Copy, Debug, PartialEq, Eq, Structural)]
pub enum Scan {
    /// No start byte is pending: the next byte is held against [`MN1`].
    Hunting,
    /// The last byte was [`MN1`]: the next byte is held against [`MN2`].
    Armed,
    /// Both start bytes have come, one behind the other.
    Locked,
}

impl Scan {
    /// The state of the search once `byte` has been read.
    pub open spec fn next(self, byte: u8) -> Scan {
        match self {
            Scan::Hunting => if byte == MN1 {
                Scan::Armed
            } else {
                Scan::Hunting
            },
            Scan::Armed => if byte == MN2 {
                Scan::Locked
            } else {
                Scan::Hunting
            },
            Scan::Locked => Scan::Locked,
        }
    }

    /// Takes one byte of the stream into the search.
    pub fn feed(self, byte: u8) -> (next: Scan)
        ensures
            next == self.next(byte),
    {
        match self {
            Scan::Hunting => if byte == MN1 {
                Scan::Armed
            } else {
                Scan::Hunting
            },
            Scan::Armed => if byte == MN2 {
                Scan::Locked
            } else {
                Scan::Hunting
            },
            Scan::Locked => Scan::Locked,
        }
    }
}

/// `found`, counted from `by` bytes further to the left.
pub open spec fn shifted(found: Option<nat>, by: nat) -> Option<nat> {
    match found {
        Some(at) => Some(at + by),
        None => None,
    }
}

/// The index in `stream` of the start bytes that the search accepts; none
/// where `stream` ends before the search does.
pub open spec fn frame_start(stream: Seq<u8>) -> Option<nat>
    decreases stream.len(),
{
    if stream.len() < 2 {
        None
    } else if stream[0] != MN1 {
        shifted(frame_start(stream.skip(1)), 1)
    } else if stream[1] != MN2 {
        shifted(frame_start(stream.skip(2)), 2)
    } else {
        Some(0)
    }
}

/// The search runs through all of `noise`, accepts nothing in it and has
/// no byte of it left to decide on: behind `noise` it starts afresh.
pub open spec fn passes_over(noise: Seq<u8>) -> bool
    decreases noise.len(),
{
    if noise.len() == 0 {
        true
    } else if noise[0] != MN1 {
        passes_over(noise.skip(1))
    } else if noise.len() == 1 || noise[1] == MN2 {
        false
    } else {
        passes_over(noise.skip(2))
    }
}

/// A frame found in a stream.
pub ghost struct Synced {
    /// Index of the frame's first byte.
    pub start: nat,
    /// The bytes of the frame.
    pub frame: Seq<u8>,
}

impl Synced {
    /// Number of bytes taken from the stream when the frame is complete:
    /// what was dropped, and the frame.
    pub open spec fn consumed(self) -> nat {
        self.start + self.frame.len()
    }
}

/// The frame of `len` bytes that a resynchronizing read takes from `stream`;
/// none where `stream` ends before the frame is complete.
pub open spec fn resync(stream: Seq<u8>, len: nat) -> Option<Synced> {
    match frame_start(stream) {
        Some(start) => if start + len <= stream.len() {
            Some(Synced { start, frame: stream.subrange(start as int, (start + len) as int) })
        } else {
            None
        },
        None => None,
    }
}

/// `found`, with its start counted from `by` bytes further to the left.
pub open spec fn moved(found: Option<Synced>, by: nat) -> Option<Synced> {
    match found {
        Some(synced) => Some(Synced { start: synced.start + by, frame: synced.frame }),
        None => None,
    }
}

/// Behind bytes that the search passes over, it finds what it would find
/// had the stream started there.
pub proof fn lemma_frame_start_behind(noise: Seq<u8>, rest: Seq<u8>)
    requires
        passes_over(noise),
    ensures
        frame_start(noise + rest) == shifted(frame_start(rest), noise.len()),
    decreases noise.len(),
{
    let stream = noise + rest;
    if noise.len() == 0 {
        assert(stream =~= rest);
    } else if noise[0] != MN1 {
        assert(stream.skip(1) =~= noise.skip(1) + rest);
        lemma_frame_start_behind(noise.skip(1), rest);
        if stream.len() < 2 {
            assert(rest.len() == 0);
            assert(noise.skip(1) + rest =~= rest);
        }
    } else {
        assert(stream.skip(2) =~= noise.skip(2) + rest);
        lemma_frame_start_behind(noise.skip(2), rest);
    }
}

/// Where the search accepts start bytes, they are the two start bytes, and
/// the search has passed over everything before them.
pub proof fn lemma_frame_start_sound(stream: Seq<u8>)
    ensures
        match frame_start(stream) {
            Some(start) => {
                &&& start + 2 <= stream.len()
                &&& stream[start as int] == MN1
                &&& stream[(start + 1) as int] == MN2
                &&& passes_over(stream.take(start as int))
            },
            None => true,
        },
    decreases stream.len(),
{
    if stream.len() < 2 {
    } else if stream[0] != MN1 {
        let tail = stream.skip(1);
        lemma_frame_start_sound(tail);
        if let Some(at) = frame_start(tail) {
            let head = stream.take((at + 1) as int);
            assert(head.skip(1) =~= tail.take(at as int));
        }
    } else if stream[1] != MN2 {
        let tail = stream.skip(2);
        lemma_frame_start_sound(tail);
        if let Some(at) = frame_start(tail) {
            let head = stream.take((at + 2) as int);
            assert(head.skip(2) =~= tail.take(at as int));
        }
    } else {
        assert(stream.take(0).len() == 0);
    }
}

/// Noise that holds no first start byte at all is passed over.
pub proof fn law_quiet_noise_is_passed_over(noise: Seq<u8>)
    requires
        forall|i: int| 0 <= i < noise.len() ==> noise[i] != MN1,
    ensures
        passes_over(noise),
    decreases noise.len(),
{
    if noise.len() > 0 {
        law_quiet_noise_is_passed_over(noise.skip(1));
    }
}

/// Leading noise is dropped and the frame behind it is returned whole: where
/// the search passes over `noise`, a read of `len` bytes from a stream that
/// holds `noise`, then the start bytes and `len - 2` more bytes, then
/// anything at all, returns those `len` bytes and takes nothing of what
/// follows them.
pub proof fn law_resync_drops_noise(noise: Seq<u8>, body: Seq<u8>, rest: Seq<u8>, len: nat)
    requires
        len >= 2,
        body.len() == len - 2,
        passes_over(noise),
    ensures
        resync(noise + seq![MN1, MN2] + body + rest, len) == Some(
            Synced { start: noise.len(), frame: seq![MN1, MN2] + body },
        ),
{
    let frame = seq![MN1, MN2] + body;
    let tail = frame + rest;
    let stream = noise + seq![MN1, MN2] + body + rest;
    assert(stream =~= noise + tail);
    assert(frame_start(tail) == Some(0nat));
    lemma_frame_start_behind(noise, tail);
    assert(stream.subrange(noise.len() as int, (noise.len() + len) as int) =~= frame);
}

/// Noise that the search does not pass over hides the frame behind it: the
/// read then returns another frame, or none. Together with
/// [`law_resync_drops_noise`] this says for which noise the frame is found.
pub proof fn law_resync_misled_by_noise(noise: Seq<u8>, body: Seq<u8>, rest: Seq<u8>, len: nat)
    requires
        len >= 2,
        body.len() == len - 2,
        !passes_over(noise),
    ensures
        match resync(noise + seq![MN1, MN2] + body + rest, len) {
            Some(synced) => synced.start != noise.len(),
            None => true,
        },
{
    let stream = noise + seq![MN1, MN2] + body + rest;
    lemma_frame_start_sound(stream);
    if let Some(start) = frame_start(stream) {
        if start == noise.len() {
            assert(stream.take(start as int) =~= noise);
        }
    }
}

/// A false start is not taken for a frame: where the search has reached a
/// first start byte and the byte behind it is not the second, no frame
/// starts at either of the two, and the read returns what it would return
/// from the stream behind them.
pub proof fn law_false_start_skipped(before: Seq<u8>, after: u8, rest: Seq<u8>, len: nat)
    requires
        passes_over(before),
        after != MN2,
    ensures
        resync(before + seq![MN1, after] + rest, len) == moved(
            resync(rest, len),
            before.len() + 2,
        ),
        match resync(before + seq![MN1, after] + rest, len) {
            Some(synced) => synced.start >= before.len() + 2,
            None => true,
        },
{
    let pair = seq![MN1, after];
    let tail = pair + rest;
    let stream = before + pair + rest;
    assert(stream =~= before + tail);
    assert(tail.skip(2) =~= rest);
    assert(frame_start(tail) == shifted(frame_start(rest), 2));
    lemma_frame_start_behind(before, tail);
    if let Some(at) = frame_start(rest) {
        let start = at + before.len() + 2;
        if at + len <= rest.len() {
            assert(stream.subrange(start as int, (start + len) as int) =~= rest.subrange(
                at as int,
                (at + len) as int,
            ));
        }
    }
}

} // verus!
