use embedded_io::{ErrorKind, ErrorType, Read, ReadExactError, Write};
use pmsx003::command::Ack;
use pmsx003::resync::Scan;
use pmsx003::sensor::{Action, Event, Phase, Progress, Reply};
use pmsx003::{Error, OutputFrame, PmsX003Sensor};

/// A link that serves reads from one queue of bytes and keeps what is written.
struct Link {
    incoming: Vec<u8>,
    taken: usize,
    written: Vec<u8>,
    reads: Vec<usize>,
    refuse_writes: bool,
    fail_reads_at: Option<usize>,
}

impl Link {
    fn with(incoming: &[u8]) -> Link {
        Link {
            incoming: incoming.to_vec(),
            taken: 0,
            written: Vec::new(),
            reads: Vec::new(),
            refuse_writes: false,
            fail_reads_at: None,
        }
    }

    fn left(&self) -> &[u8] {
        &self.incoming[self.taken..]
    }
}

impl ErrorType for Link {
    type Error = ErrorKind;
}

impl Read for Link {
    fn read(&mut self, buf: &mut [u8]) -> Result<usize, ErrorKind> {
        if self.fail_reads_at == Some(self.taken) {
            return Err(ErrorKind::TimedOut);
        }
        let mut n = buf.len().min(self.incoming.len() - self.taken);
        if let Some(at) = self.fail_reads_at {
            if at > self.taken {
                n = n.min(at - self.taken);
            }
        }
        buf[..n].copy_from_slice(&self.incoming[self.taken..self.taken + n]);
        self.taken += n;
        Ok(n)
    }

    fn read_exact(&mut self, buf: &mut [u8]) -> Result<(), ReadExactError<ErrorKind>> {
        self.reads.push(buf.len());
        let mut filled = 0;
        while filled < buf.len() {
            match self.read(&mut buf[filled..]) {
                Ok(0) => return Err(ReadExactError::UnexpectedEof),
                Ok(n) => filled += n,
                Err(e) => return Err(ReadExactError::Other(e)),
            }
        }
        Ok(())
    }
}

impl Write for Link {
    fn write(&mut self, buf: &[u8]) -> Result<usize, ErrorKind> {
        if self.refuse_writes {
            return Err(ErrorKind::BrokenPipe);
        }
        self.written.extend_from_slice(buf);
        Ok(buf.len())
    }

    fn flush(&mut self) -> Result<(), ErrorKind> {
        Ok(())
    }
}

/// Does the transport work that the machine asks for until the exchange is over.
fn drive<U: Read + Write>(
    uart: &mut U,
    sensor: &mut PmsX003Sensor,
    first: Action,
) -> Result<Option<OutputFrame>, Error<U::Error>> {
    let mut action = first;
    let mut buffer = [0u8; 32];
    loop {
        let progress = match action {
            Action::Send(bytes) => match uart.write_all(&bytes) {
                Ok(()) => sensor.advance(Event::Sent),
                Err(e) => sensor.advance(Event::SendFailed(e)),
            },
            Action::Receive(count) => match uart.read_exact(&mut buffer[..count]) {
                Ok(()) => sensor.advance(Event::Received(&buffer[..count])),
                Err(e) => sensor.advance(Event::ReceiveFailed(e)),
            },
        };
        match progress {
            Some(Progress::Next(next)) => action = next,
            Some(Progress::Measured(frame)) => return Ok(Some(frame)),
            Some(Progress::Done) => return Ok(None),
            Some(Progress::Failed(error)) => return Err(error),
            None => panic!("the machine turned down the answer to its own request"),
        }
    }
}

fn read(link: &mut Link) -> Result<OutputFrame, Error<ErrorKind>> {
    let mut sensor = PmsX003Sensor::new();
    let first = sensor.read();
    let r = drive(link, &mut sensor, first);
    assert_eq!(sensor.phase(), Phase::Idle);
    r.map(|frame| frame.unwrap())
}

/// A measurement frame with PM2.5 set to `pm2_5`, intact.
fn measurement(pm2_5: u16) -> [u8; 32] {
    let mut wire = [0u8; 32];
    wire[0] = 0x42;
    wire[1] = 0x4D;
    wire[3] = 28;
    wire[6] = (pm2_5 >> 8) as u8;
    wire[7] = (pm2_5 & 0xFF) as u8;
    let sum: u32 = wire[..30].iter().map(|b| *b as u32).sum();
    wire[30] = (sum >> 8) as u8;
    wire[31] = (sum & 0xFF) as u8;
    wire
}

fn stream(parts: &[&[u8]]) -> Vec<u8> {
    parts.concat()
}

#[test]
fn read_takes_a_frame_at_the_start_of_the_stream() {
    let mut link = Link::with(&stream(&[&measurement(35), &[0xAA, 0xBB]]));
    let frame = read(&mut link).unwrap();
    assert_eq!(frame.pm2_5, 35);
    assert_eq!(frame.start1, 0x42);
    assert_eq!(frame.start2, 0x4D);
    assert_eq!(link.left(), &[0xAA, 0xBB]);
    assert!(link.written.is_empty());
}

#[test]
fn read_asks_for_single_bytes_and_then_for_the_rest() {
    let mut link = Link::with(&stream(&[&[0x00, 0x01], &measurement(7)]));
    read(&mut link).unwrap();
    assert_eq!(link.reads, vec![1, 1, 1, 1, 30]);
}

#[test]
fn read_drops_leading_noise() {
    let noise: [u8; 9] = [0x00, 0xFF, 0x4D, 0x4D, 0x13, 0x42, 0x00, 0x4D, 0x41];
    let mut link = Link::with(&stream(&[&noise, &measurement(1234), &[0x99]]));
    let frame = read(&mut link).unwrap();
    assert_eq!(frame.pm2_5, 1234);
    assert_eq!(link.taken, 9 + 32);
    assert_eq!(link.left(), &[0x99]);
}

#[test]
fn read_drops_noise_of_every_length() {
    for n in 0..70usize {
        let noise: Vec<u8> = (0..n).map(|i| (i * 7 % 0x42) as u8).collect();
        let mut link = Link::with(&stream(&[&noise, &measurement(n as u16), &[0x42, 0x4D]]));
        let frame = read(&mut link).unwrap();
        assert_eq!(frame.pm2_5, n as u16);
        assert_eq!(link.taken, n + 32);
    }
}

#[test]
fn false_start_is_not_taken_for_a_frame() {
    // 0x42 0x00 is no start; had a frame been read from there, PM2.5 would
    // not be 500 and the bytes taken would be 32, not 34.
    let mut link = Link::with(&stream(&[&[0x42, 0x00], &measurement(500)]));
    let frame = read(&mut link).unwrap();
    assert_eq!(frame.pm2_5, 500);
    assert_eq!(link.taken, 34);
    assert_eq!(link.reads, vec![1, 1, 1, 1, 30]);
}

#[test]
fn byte_turned_down_is_not_looked_at_again() {
    // The second 0x42 is turned down as a second start byte and dropped, so
    // the frame that starts with it is missed and the next one is taken.
    let mut link =
        Link::with(&stream(&[&[0x42], &measurement(1), &[0x00], &measurement(2), &[0x55]]));
    let frame = read(&mut link).unwrap();
    assert_eq!(frame.pm2_5, 2);
    assert_eq!(link.taken, 1 + 32 + 1 + 32);
    assert_eq!(link.left(), &[0x55]);
}

#[test]
fn start_bytes_inside_noise_start_the_frame() {
    let mut wire = [0u8; 32];
    wire[0] = 0x42;
    wire[1] = 0x4D;
    wire[2] = 0x42;
    wire[3] = 0x4D;
    // 0x42 + 0x4D + 0x42 + 0x4D = 0x011E
    wire[30] = 0x01;
    wire[31] = 0x1E;
    let mut link = Link::with(&stream(&[&[0x07], &wire, &measurement(9)]));
    let frame = read(&mut link).unwrap();
    assert_eq!(frame.frame_length, 0x424D);
    assert_eq!(link.taken, 33);
}

#[test]
fn read_fails_on_a_frame_that_is_not_intact() {
    let mut wire = measurement(80);
    wire[31] ^= 0x01;
    let mut link = Link::with(&stream(&[&[0x01, 0x02], &wire, &measurement(81)]));
    assert!(matches!(read(&mut link), Err(Error::ChecksumError)));
    assert_eq!(link.taken, 34);
    // Nothing is tried again: the next read takes the next frame.
    assert_eq!(read(&mut link).unwrap().pm2_5, 81);
}

#[test]
fn read_fails_when_the_stream_ends_in_the_search() {
    let mut link = Link::with(&[0x01, 0x02, 0x42]);
    assert!(matches!(read(&mut link), Err(Error::Read(ReadExactError::UnexpectedEof))));
    assert_eq!(link.taken, 3);
}

#[test]
fn read_fails_when_the_stream_ends_in_the_frame() {
    let wire = measurement(3);
    let mut link = Link::with(&wire[..31]);
    assert!(matches!(read(&mut link), Err(Error::Read(ReadExactError::UnexpectedEof))));
}

#[test]
fn read_fails_on_an_empty_stream() {
    let mut link = Link::with(&[]);
    assert!(matches!(read(&mut link), Err(Error::Read(ReadExactError::UnexpectedEof))));
    assert_eq!(link.reads, vec![1]);
}

#[test]
fn read_hands_on_the_error_of_the_transport() {
    for at in [0usize, 1, 2, 3, 20] {
        let mut link = Link::with(&stream(&[&[0x00], &measurement(3)]));
        link.fail_reads_at = Some(at);
        let r = read(&mut link);
        assert!(matches!(r, Err(Error::Read(ReadExactError::Other(ErrorKind::TimedOut)))));
    }
}

fn command(
    link: &mut Link,
    start: fn(&mut PmsX003Sensor) -> Action,
) -> Result<(), Error<ErrorKind>> {
    let mut sensor = PmsX003Sensor::new();
    let first = start(&mut sensor);
    let r = drive(link, &mut sensor, first);
    assert_eq!(sensor.phase(), Phase::Idle);
    r.map(|frame| assert!(frame.is_none()))
}

#[test]
fn wake_needs_no_response() {
    let mut link = Link::with(&[0x42, 0x4D, 0x00, 0x04]);
    assert!(matches!(command(&mut link, PmsX003Sensor::wake), Ok(())));
    assert_eq!(link.written, vec![0x42, 0x4D, 0xE4, 0x00, 0x01, 0x01, 0x74]);
    assert_eq!(link.taken, 0);
    assert!(link.reads.is_empty());

    let mut silent = Link::with(&[]);
    assert!(matches!(command(&mut silent, PmsX003Sensor::wake), Ok(())));
    assert!(silent.reads.is_empty());
}

#[test]
fn request_needs_no_response() {
    let mut link = Link::with(&measurement(12));
    assert!(matches!(command(&mut link, PmsX003Sensor::request), Ok(())));
    assert_eq!(link.written, vec![0x42, 0x4D, 0xE2, 0x00, 0x00, 0x01, 0x71]);
    assert_eq!(link.taken, 0);
    assert_eq!(read(&mut link).unwrap().pm2_5, 12);
}

#[test]
fn passive_is_acknowledged() {
    let mut link = Link::with(&[0x42, 0x4D, 0x00, 0x04, 0xE1, 0x00, 0x01, 0x74, 0x11]);
    assert!(matches!(command(&mut link, PmsX003Sensor::passive), Ok(())));
    assert_eq!(link.written, vec![0x42, 0x4D, 0xE1, 0x00, 0x00, 0x01, 0x70]);
    assert_eq!(link.left(), &[0x11]);
    assert_eq!(link.reads, vec![1, 1, 6]);
}

#[test]
fn active_is_acknowledged() {
    let mut link = Link::with(&[0x42, 0x4D, 0x00, 0x04, 0xE1, 0x01, 0x01, 0x75]);
    assert!(matches!(command(&mut link, PmsX003Sensor::active), Ok(())));
    assert_eq!(link.written, vec![0x42, 0x4D, 0xE1, 0x00, 0x01, 0x01, 0x71]);
    assert_eq!(link.taken, 8);
}

#[test]
fn sleep_is_acknowledged() {
    let mut link = Link::with(&[0x00, 0x42, 0x4D, 0x00, 0x04, 0xE4, 0x00, 0x01, 0x77]);
    assert!(matches!(command(&mut link, PmsX003Sensor::sleep), Ok(())));
    assert_eq!(link.written, vec![0x42, 0x4D, 0xE4, 0x00, 0x00, 0x01, 0x73]);
    assert_eq!(link.taken, 9);
}

#[test]
fn passive_answered_by_the_active_acknowledgement_is_incorrect() {
    let mut link = Link::with(&Ack::Active.template());
    let r = command(&mut link, PmsX003Sensor::passive);
    assert!(matches!(r, Err(Error::IncorrectResponse)));
    assert!(!matches!(r, Err(Error::ChecksumError)));
    assert_eq!(link.taken, 8);
}

#[test]
fn every_other_acknowledgement_is_incorrect() {
    let starts: [(fn(&mut PmsX003Sensor) -> Action, Ack); 3] = [
        (PmsX003Sensor::passive, Ack::Passive),
        (PmsX003Sensor::active, Ack::Active),
        (PmsX003Sensor::sleep, Ack::Sleep),
    ];
    for (start, due) in starts {
        for got in [Ack::Passive, Ack::Active, Ack::Sleep] {
            let mut link = Link::with(&got.template());
            let r = command(&mut link, start);
            if got == due {
                assert!(matches!(r, Ok(())));
            } else {
                assert!(matches!(r, Err(Error::IncorrectResponse)));
            }
        }
    }
}

#[test]
fn response_with_a_wrong_checksum_is_incorrect() {
    let mut link = Link::with(&[0x42, 0x4D, 0x00, 0x04, 0xE4, 0x00, 0x01, 0x78]);
    let r = command(&mut link, PmsX003Sensor::sleep);
    assert!(matches!(r, Err(Error::IncorrectResponse)));
}

#[test]
fn measurement_before_the_acknowledgement_is_incorrect() {
    // A measurement that was under way when the command went out comes
    // first: its first eight bytes are taken for the response.
    let mut link = Link::with(&stream(&[&measurement(40), &Ack::Sleep.template()]));
    let r = command(&mut link, PmsX003Sensor::sleep);
    assert!(matches!(r, Err(Error::IncorrectResponse)));
    assert_eq!(link.taken, 8);
}

#[test]
fn refused_write_is_no_response() {
    let starts: [fn(&mut PmsX003Sensor) -> Action; 5] = [
        PmsX003Sensor::wake,
        PmsX003Sensor::request,
        PmsX003Sensor::passive,
        PmsX003Sensor::active,
        PmsX003Sensor::sleep,
    ];
    for start in starts {
        let mut link = Link::with(&Ack::Sleep.template());
        link.refuse_writes = true;
        let r = command(&mut link, start);
        assert!(matches!(r, Err(Error::NoResponse)));
        assert!(link.reads.is_empty());
    }
}

#[test]
fn missing_acknowledgement_is_a_read_error() {
    let mut link = Link::with(&[0x42, 0x4D, 0x00]);
    let r = command(&mut link, PmsX003Sensor::sleep);
    assert!(matches!(r, Err(Error::Read(ReadExactError::UnexpectedEof))));
    assert_eq!(link.written.len(), 7);
}

#[test]
fn new_machine_is_idle() {
    let sensor = PmsX003Sensor::new();
    assert_eq!(sensor.phase(), Phase::Idle);
}

#[test]
fn idle_machine_turns_every_event_down() {
    let mut sensor = PmsX003Sensor::new();
    assert!(sensor.advance::<ErrorKind>(Event::Sent).is_none());
    assert!(sensor.advance(Event::SendFailed(ErrorKind::Other)).is_none());
    assert!(sensor.advance::<ErrorKind>(Event::Received(&[0x42])).is_none());
    assert!(sensor.advance(Event::ReceiveFailed(ReadExactError::Other(ErrorKind::Other))).is_none());
    assert_eq!(sensor.phase(), Phase::Idle);
}

#[test]
fn event_for_other_work_is_turned_down() {
    let mut sensor = PmsX003Sensor::new();
    assert_eq!(sensor.read(), Action::Receive(1));
    assert!(sensor.advance::<ErrorKind>(Event::Sent).is_none());
    assert!(sensor.advance(Event::SendFailed(ErrorKind::Other)).is_none());
    assert_eq!(sensor.phase(), Phase::Receiving(Reply::Measurement, Scan::Hunting));

    assert!(matches!(sensor.sleep(), Action::Send(_)));
    assert!(sensor.advance::<ErrorKind>(Event::Received(&[0x42])).is_none());
    assert!(sensor.advance(Event::ReceiveFailed(ReadExactError::Other(ErrorKind::Other))).is_none());
    assert_eq!(sensor.phase(), Phase::Sending(Some(Ack::Sleep)));
}

#[test]
fn bytes_of_another_count_are_turned_down() {
    let mut sensor = PmsX003Sensor::new();
    sensor.read();
    assert!(sensor.advance::<ErrorKind>(Event::Received(&[])).is_none());
    assert!(sensor.advance::<ErrorKind>(Event::Received(&[0x42, 0x4D])).is_none());
    assert_eq!(sensor.phase(), Phase::Receiving(Reply::Measurement, Scan::Hunting));
    assert!(sensor.advance::<ErrorKind>(Event::Received(&[0x42])).is_some());
    assert!(sensor.advance::<ErrorKind>(Event::Received(&[0x4D])).is_some());
    assert_eq!(sensor.phase(), Phase::Receiving(Reply::Measurement, Scan::Locked));
    assert!(sensor.advance::<ErrorKind>(Event::Received(&[0u8; 29])).is_none());
    assert!(sensor.advance::<ErrorKind>(Event::Received(&[0u8; 31])).is_none());
    assert!(sensor.advance::<ErrorKind>(Event::Received(&[0u8; 6])).is_none());
    assert_eq!(sensor.phase(), Phase::Receiving(Reply::Measurement, Scan::Locked));
}

#[test]
fn machine_goes_through_its_phases() {
    let mut sensor = PmsX003Sensor::new();
    let first = sensor.active();
    assert_eq!(first, Action::Send([0x42, 0x4D, 0xE1, 0x00, 0x01, 0x01, 0x71]));
    assert_eq!(sensor.phase(), Phase::Sending(Some(Ack::Active)));

    let p = sensor.advance::<ErrorKind>(Event::Sent);
    assert!(matches!(p, Some(Progress::Next(Action::Receive(1)))));
    assert_eq!(sensor.phase(), Phase::Receiving(Reply::Ack(Ack::Active), Scan::Hunting));

    let p = sensor.advance::<ErrorKind>(Event::Received(&[0x4D]));
    assert!(matches!(p, Some(Progress::Next(Action::Receive(1)))));
    assert_eq!(sensor.phase(), Phase::Receiving(Reply::Ack(Ack::Active), Scan::Hunting));

    let p = sensor.advance::<ErrorKind>(Event::Received(&[0x42]));
    assert!(matches!(p, Some(Progress::Next(Action::Receive(1)))));
    assert_eq!(sensor.phase(), Phase::Receiving(Reply::Ack(Ack::Active), Scan::Armed));

    let p = sensor.advance::<ErrorKind>(Event::Received(&[0x42]));
    assert!(matches!(p, Some(Progress::Next(Action::Receive(1)))));
    assert_eq!(sensor.phase(), Phase::Receiving(Reply::Ack(Ack::Active), Scan::Hunting));

    sensor.advance::<ErrorKind>(Event::Received(&[0x42]));
    let p = sensor.advance::<ErrorKind>(Event::Received(&[0x4D]));
    assert!(matches!(p, Some(Progress::Next(Action::Receive(6)))));
    assert_eq!(sensor.phase(), Phase::Receiving(Reply::Ack(Ack::Active), Scan::Locked));

    let p = sensor.advance::<ErrorKind>(Event::Received(&[0x00, 0x04, 0xE1, 0x01, 0x01, 0x75]));
    assert!(matches!(p, Some(Progress::Done)));
    assert_eq!(sensor.phase(), Phase::Idle);
}

#[test]
fn new_exchange_gives_up_the_one_under_way() {
    let mut sensor = PmsX003Sensor::new();
    sensor.sleep();
    sensor.advance::<ErrorKind>(Event::Sent);
    sensor.advance::<ErrorKind>(Event::Received(&[0x42]));
    assert_eq!(sensor.read(), Action::Receive(1));
    assert_eq!(sensor.phase(), Phase::Receiving(Reply::Measurement, Scan::Hunting));
    assert!(matches!(sensor.wake(), Action::Send(_)));
    assert_eq!(sensor.phase(), Phase::Sending(None));
}

#[test]
fn search_moves_byte_by_byte() {
    assert_eq!(Scan::Hunting.feed(0x00), Scan::Hunting);
    assert_eq!(Scan::Hunting.feed(0x4D), Scan::Hunting);
    assert_eq!(Scan::Hunting.feed(0x42), Scan::Armed);
    assert_eq!(Scan::Armed.feed(0x4D), Scan::Locked);
    assert_eq!(Scan::Armed.feed(0x42), Scan::Hunting);
    assert_eq!(Scan::Armed.feed(0x00), Scan::Hunting);
    assert_eq!(Scan::Locked.feed(0x00), Scan::Locked);
}

#[test]
fn replies_have_their_lengths() {
    assert_eq!(Reply::Measurement.len(), 32);
    assert_eq!(Reply::Ack(Ack::Passive).len(), 8);
    assert_eq!(Reply::Ack(Ack::Active).len(), 8);
    assert_eq!(Reply::Ack(Ack::Sleep).len(), 8);
}
