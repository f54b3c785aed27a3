//! The sensor's protocol as a machine that never touches the link.
//!
//! An exchange is started by one of [`PmsX003Sensor::read`],
//! [`PmsX003Sensor::request`], [`PmsX003Sensor::passive`],
//! [`PmsX003Sensor::active`], [`PmsX003Sensor::sleep`] and
//! [`PmsX003Sensor::wake`], which returns the first [`Action`]: the transport
//! work to do. Whoever owns the transport does that work and reports what
//! came of it with [`PmsX003Sensor::advance`], which says how to go on, until
//! the exchange is over. The machine decides, the owner of the transport
//! only reads and writes; how long it waits for a byte is up to the
//! transport.

use crate::command::{
    ack_frame, command_frame, create_command, Ack, CMD_MODE, CMD_POWER, CMD_REQUEST, MN1, MN2,
};
use crate::error::Error;
use crate::frame::{decoded, OutputFrame};
use crate::resync::Scan;
use embedded_io::ReadExactError;
use vstd::prelude::*;

verus! {

/// The frame that ends an exchange.
#[derive(Clone, Copy, Debug, PartialEq, Eq, Structural)]
pub enum Reply {
    /// A measurement frame.
    Measurement,
    /// The acknowledgement of a command.
    Ack(Ack),
}

impl Reply {
    /// Number of bytes of the frame, start bytes and checksum included.
    pub open spec fn frame_len(self) -> nat {
        match self {
            Reply::Measurement => 32,
            Reply::Ack(_) => 8,
        }
    }

    /// Number of bytes of the frame, start bytes and checksum included.
    pub fn len(self) -> (len: usize)
        ensures
            len == self.frame_len(),
    {
        match self {
            Reply::Measurement => 32,
            Reply::Ack(_) => 8,
        }
    }
}

/// Where the machine stands.
#[derive(Clone, Copy, Debug, PartialEq, Eq, Structural)]
pub enum Phase {
    /// No exchange is under way.
    Idle,
    /// A command was handed out to be written. It is followed by the
    /// acknowledgement named here, or by nothing.
    Sending(Option<Ack>),
    /// A reply is being read; the search for its start has come this far.
    Receiving(Reply, Scan),
}

/// Transport work that the machine asks for.
#[derive(Clone, Copy, Debug, PartialEq, Eq)]
pub enum Action {
    /// Write all of these bytes.
    Send([u8; 7]),
    /// Read exactly this many bytes.
    Receive(usize),
}

/// What came of the transport work that the machine asked for. `E` is the
/// transport's own error.
#[derive(Debug)]
#[verifier::reject_recursive_types(E)]
pub enum Event<'a, E> {
    /// The bytes of a [`Action::Send`] were written, all of them.
    Sent,
    /// The bytes of a [`Action::Send`] could not be written.
    SendFailed(E),
    /// The bytes asked for by a [`Action::Receive`], as they were read.
    Received(&'a [u8]),
    /// The bytes asked for by a [`Action::Receive`] could not be read.
    ReceiveFailed(ReadExactError<E>),
}

/// How an exchange goes on after an event.
#[derive(Debug)]
#[verifier::reject_recursive_types(E)]
pub enum Progress<E> {
    /// The exchange is not over: this is to be done next.
    Next(Action),
    /// The exchange is over and has brought a measurement.
    Measured(OutputFrame),
    /// The exchange is over: the command went out and, where one is due,
    /// its acknowledgement came.
    Done,
    /// The exchange is over and has failed.
    Failed(Error<E>),
}

/// Number of bytes that the machine in `phase` waits for: none unless a
/// reply is being read, one while the start of the frame is searched for,
/// and the rest of the frame once it is found.
pub open spec fn wanted(phase: Phase) -> nat {
    match phase {
        Phase::Receiving(reply, Scan::Locked) => (reply.frame_len() - 2) as nat,
        Phase::Receiving(_, _) => 1,
        _ => 0,
    }
}

/// The end of an exchange whose reply has come as `frame`. A measurement
/// frame is decoded, and fails on its checksum alone. An acknowledgement is
/// held against the frame that was expected, byte for byte, and against
/// nothing else.
pub open spec fn judged<E>(reply: Reply, frame: Seq<u8>) -> Progress<E> {
    match reply {
        Reply::Measurement => match decoded(frame) {
            Some(measurement) => Progress::Measured(measurement),
            None => Progress::Failed(Error::ChecksumError),
        },
        Reply::Ack(ack) => if frame == ack_frame(ack) {
            Progress::Done
        } else {
            Progress::Failed(Error::IncorrectResponse)
        },
    }
}

/// What the machine makes of the bytes it waited for while it reads `reply`
/// and the search stands at `scan`: the phase it enters, and how the
/// exchange goes on.
pub open spec fn taken<E>(reply: Reply, scan: Scan, bytes: Seq<u8>) -> (Phase, Progress<E>) {
    if scan is Locked {
        (Phase::Idle, judged(reply, seq![MN1, MN2] + bytes))
    } else {
        let phase = Phase::Receiving(reply, scan.next(bytes[0]));
        (phase, Progress::Next(Action::Receive(wanted(phase) as usize)))
    }
}

/// The machine's one rule: the phase it enters from `phase` on `event`, and
/// how the exchange goes on. There is none where `event` does not report on
/// the work that the machine in `phase` waits for: a write while it sends,
/// a read of [`wanted`] bytes while it receives.
pub open spec fn step<E>(phase: Phase, event: Event<E>) -> Option<(Phase, Progress<E>)> {
    match (phase, event) {
        (Phase::Sending(None), Event::Sent) => Some((Phase::Idle, Progress::Done)),
        (Phase::Sending(Some(ack)), Event::Sent) => Some(
            (Phase::Receiving(Reply::Ack(ack), Scan::Hunting), Progress::Next(Action::Receive(1))),
        ),
        (Phase::Sending(_), Event::SendFailed(_)) => Some(
            (Phase::Idle, Progress::Failed(Error::NoResponse)),
        ),
        (Phase::Receiving(reply, scan), Event::Received(bytes)) => if bytes@.len() == wanted(
            phase,
        ) {
            Some(taken(reply, scan, bytes@))
        } else {
            None
        },
        (Phase::Receiving(_, _), Event::ReceiveFailed(error)) => Some(
            (Phase::Idle, Progress::Failed(Error::Read(error))),
        ),
        _ => None,
    }
}

/// Puts the two start bytes in front of the bytes that were read behind them.
fn assemble<const N: usize>(body: &[u8]) -> (frame: [u8; N])
    requires
        N >= 2,
        body@.len() == N - 2,
    ensures
        frame@ == seq![MN1, MN2] + body@,
{
    let mut frame: [u8; N] = [0u8; N];
    frame[0] = MN1;
    frame[1] = MN2;
    let mut i: usize = 0;
    while i < body.len()
        invariant
            N >= 2,
            body@.len() == N - 2,
            i <= body@.len(),
            frame@[0] == MN1,
            frame@[1] == MN2,
            forall|k: int| 0 <= k < i ==> frame@[k + 2] == body@[k],
        decreases body@.len() - i,
    {
        frame[i + 2] = body[i];
        i += 1;
    }
    assert(frame@ =~= seq![MN1, MN2] + body@);
    frame
}

/// Holds a response frame against the acknowledgement that is due.
pub fn receive_response<E>(frame: &[u8; 8], expected: Ack) -> (r: Result<(), Error<E>>)
    ensures
        frame@ == ack_frame(expected) ==> r == Ok::<(), Error<E>>(()),
        frame@ != ack_frame(expected) ==> r == Err::<(), Error<E>>(Error::IncorrectResponse),
{
    let template: [u8; 8] = expected.template();
    let mut i: usize = 0;
    while i < 8
        invariant
            i <= 8,
            template@ == ack_frame(expected),
            forall|k: int| 0 <= k < i ==> frame@[k] == template@[k],
        decreases 8 - i,
    {
        if frame[i] != template[i] {
            return Err(Error::IncorrectResponse);
        }
        i += 1;
    }
    assert(frame@ =~= template@);
    Ok(())
}

/// The protocol machine of one sensor.
pub struct PmsX003Sensor {
    phase: Phase,
}

impl View for PmsX003Sensor {
    type V = Phase;

    closed spec fn view(&self) -> Phase {
        self.phase
    }
}

impl PmsX003Sensor {
    /// A machine with no exchange under way.
    pub fn new() -> (sensor: Self)
        ensures
            sensor@ == Phase::Idle,
    {
        PmsX003Sensor { phase: Phase::Idle }
    }

    /// Where the machine stands.
    pub fn phase(&self) -> (phase: Phase)
        ensures
            phase == self@,
    {
        self.phase
    }

    /// Hands out the command frame for `cmd` and `data` and waits for word
    /// of it.
    fn send_cmd(&mut self, cmd: u8, data: u16, due: Option<Ack>) -> (action: Action)
        ensures
            final(self)@ == Phase::Sending(due),
            action matches Action::Send(frame) && frame@ == command_frame(cmd, data),
    {
        self.phase = Phase::Sending(due);
        Action::Send(create_command(cmd, data))
    }

    /// Starts the read of one measurement. Nothing is sent: the stream is
    /// searched for the start of a frame, 32 bytes are taken from there and
    /// decoded. Whatever was under way is given up.
    pub fn read(&mut self) -> (action: Action)
        ensures
            final(self)@ == Phase::Receiving(Reply::Measurement, Scan::Hunting),
            action == Action::Receive(1),
    {
        self.phase = Phase::Receiving(Reply::Measurement, Scan::Hunting);
        Action::Receive(1)
    }

    /// Starts the exchange that puts the sensor to sleep: the power command
    /// with data 0, then its acknowledgement. Whatever was under way is
    /// given up.
    pub fn sleep(&mut self) -> (action: Action)
        ensures
            final(self)@ == Phase::Sending(Some(Ack::Sleep)),
            action matches Action::Send(frame) && frame@ == command_frame(CMD_POWER, 0),
    {
        self.send_cmd(CMD_POWER, 0, Some(Ack::Sleep))
    }

    /// Starts the exchange that wakes the sensor: the power command with
    /// data 1, which the sensor does not acknowledge. Whatever was under
    /// way is given up.
    pub fn wake(&mut self) -> (action: Action)
        ensures
            final(self)@ == Phase::Sending(None),
            action matches Action::Send(frame) && frame@ == command_frame(CMD_POWER, 1),
    {
        self.send_cmd(CMD_POWER, 1, None)
    }

    /// Starts the exchange that makes the sensor report on request only:
    /// the mode command with data 0, then its acknowledgement. Whatever was
    /// under way is given up.
    pub fn passive(&mut self) -> (action: Action)
        ensures
            final(self)@ == Phase::Sending(Some(Ack::Passive)),
            action matches Action::Send(frame) && frame@ == command_frame(CMD_MODE, 0),
    {
        self.send_cmd(CMD_MODE, 0, Some(Ack::Passive))
    }

    /// Starts the exchange that makes the sensor report continuously: the
    /// mode command with data 1, then its acknowledgement. Whatever was
    /// under way is given up.
    pub fn active(&mut self) -> (action: Action)
        ensures
            final(self)@ == Phase::Sending(Some(Ack::Active)),
            action matches Action::Send(frame) && frame@ == command_frame(CMD_MODE, 1),
    {
        self.send_cmd(CMD_MODE, 1, Some(Ack::Active))
    }

    /// Starts the exchange that asks a sensor in passive mode for one
    /// measurement: the request command with data 0, which is not
    /// acknowledged. The measurement is then had by [`Self::read`].
    /// Whatever was under way is given up.
    pub fn request(&mut self) -> (action: Action)
        ensures
            final(self)@ == Phase::Sending(None),
            action matches Action::Send(frame) && frame@ == command_frame(CMD_REQUEST, 0),
    {
        self.send_cmd(CMD_REQUEST, 0, None)
    }

    /// Takes the bytes that were read for a reply.
    fn read_from_device<E>(&mut self, reply: Reply, scan: Scan, bytes: &[u8]) -> (progress:
        Progress<E>)
        requires
            old(self)@ == Phase::Receiving(reply, scan),
            bytes@.len() == wanted(old(self)@),
        ensures
            (final(self)@, progress) == taken::<E>(reply, scan, bytes@),
    {
        match scan {
            Scan::Locked => {
                self.phase = Phase::Idle;
                match reply {
                    Reply::Measurement => {
                        let frame: [u8; 32] = assemble(bytes);
                        match OutputFrame::from_buffer::<E>(&frame) {
                            Ok(measurement) => Progress::Measured(measurement),
                            Err(error) => Progress::Failed(error),
                        }
                    },
                    Reply::Ack(ack) => {
                        let frame: [u8; 8] = assemble(bytes);
                        match receive_response::<E>(&frame, ack) {
                            Ok(()) => Progress::Done,
                            Err(error) => Progress::Failed(error),
                        }
                    },
                }
            },
            _ => {
                let next: Scan = scan.feed(bytes[0]);
                self.phase = Phase::Receiving(reply, next);
                let more: usize = match next {
                    Scan::Locked => reply.len() - 2,
                    _ => 1,
                };
                Progress::Next(Action::Receive(more))
            },
        }
    }

    /// Takes word of the work that the machine asked for last, and says how
    /// the exchange goes on.
    ///
    /// While the start of a frame is searched for, one byte is asked for at
    /// a time; once both start bytes have come, the rest of the frame is
    /// asked for in one piece and the reply is judged. A failed write ends
    /// the exchange with `NoResponse`, whatever the transport's error was; a
    /// failed read ends it with the transport's error. The search has no
    /// limit of its own: it goes on for as long as bytes come.
    ///
    /// An event that does not report on the work asked for last is turned
    /// down: the result is `None` and the machine stays as it is.
    pub fn advance<E>(&mut self, event: Event<'_, E>) -> (progress: Option<Progress<E>>)
        ensures
            match step(old(self)@, event) {
                Some((phase, next)) => final(self)@ == phase && progress == Some(next),
                None => final(self)@ == old(self)@ && progress.is_none(),
            },
    {
        match self.phase {
            Phase::Idle => None,
            Phase::Sending(due) => match event {
                Event::Sent => match due {
                    Some(ack) => {
                        self.phase = Phase::Receiving(Reply::Ack(ack), Scan::Hunting);
                        Some(Progress::Next(Action::Receive(1)))
                    },
                    None => {
                        self.phase = Phase::Idle;
                        Some(Progress::Done)
                    },
                },
                Event::SendFailed(_) => {
                    self.phase = Phase::Idle;
                    Some(Progress::Failed(Error::NoResponse))
                },
                _ => None,
            },
            Phase::Receiving(reply, scan) => match event {
                Event::Received(bytes) => {
                    let due: usize = match scan {
                        Scan::Locked => reply.len() - 2,
                        _ => 1,
                    };
                    if bytes.len() == due {
                        Some(self.read_from_device(reply, scan, bytes))
                    } else {
                        None
                    }
                },
                Event::ReceiveFailed(error) => {
                    self.phase = Phase::Idle;
                    Some(Progress::Failed(Error::Read(error)))
                },
                _ => None,
            },
        }
    }
}

} // verus!
