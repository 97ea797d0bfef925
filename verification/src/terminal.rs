//! A run of the terminal, from its banner to the relaying of bytes, as a
//! state machine.
//!
//! The machine performs nothing itself. It names the next thing to do (a
//! `Command`), the caller does it and reports what happened (an `Event`), and
//! `Session::step` moves on. `run` starts a session that goes straight to
//! relaying; `run_loader` starts one that first pushes an image to the device:
//! it waits for the device's ready signal, loads the image, sends its size,
//! waits for the acknowledgement, and sends the image in chunks.

use crate::line::bytes_of;
use crate::line::line_at;
use crate::line::LineConfig;
use crate::line::ReadOutcome;
use crate::line::ReadOutcomeView;
use crate::outcome::status_of;
use crate::outcome::Failure;
use crate::outcome::Notice;
use crate::outcome::Outcome;
use crate::ready::has_ready_signal;
use crate::ready::ReadyDetector;
use crate::wire::ack;
use crate::wire::chunk;
use crate::wire::chunk_count;
use crate::wire::chunk_from;
use crate::wire::chunks;
use crate::wire::fits_header;
use crate::wire::header_of;
use crate::wire::is_ack;
use crate::wire::lemma_chunk_lengths;
use crate::wire::next_chunk;
use crate::wire::size_header;
use vstd::prelude::*;
use vstd::string::StringExecFns;

verus! {

/// How many bytes are asked of the device at a time while its ready signal is awaited.
pub const REQUEST_READ_SIZE: usize = 4096;

/// How many bytes are asked of the device for its acknowledgement.
pub const ACK_READ_SIZE: usize = 2;

/// How long to wait before looking for a missing device again, in seconds.
pub const PROBE_PAUSE_SECS: u64 = 1;

/// The steps of sending the size.
#[derive(Clone, Copy, Debug, PartialEq, Eq, Structural)]
pub enum SizeStage {
    /// The image is being loaded.
    LoadImage,
    /// The size header is being written.
    WriteHeader,
    /// The device's acknowledgement is awaited.
    AwaitAck,
}

/// Where a session stands.
#[derive(Clone, Copy, Debug, PartialEq, Eq, Structural)]
pub enum Phase {
    /// The banner is to be shown.
    Greeting,
    /// The interrupt handler is to be installed.
    Arming,
    /// The serial device is looked for.
    Probing,
    /// The serial device was not there; a pause before the next look.
    Waiting,
    /// The serial device is to be opened.
    Opening,
    /// A second handle to the device is to be made, for the other direction.
    Cloning,
    /// The device's request for the image is awaited.
    AwaitPayloadRequest,
    /// The size of the image is sent and its acknowledgement awaited.
    SendSize(SizeStage),
    /// The image is sent, chunk by chunk.
    SendPayload,
    /// All chunks are sent.
    Complete,
    /// Bytes are relayed between console and device.
    Handoff,
    /// The run is over.
    Stopped(Outcome),
}

/// What happened to the last command, or to the process.
#[derive(Debug, PartialEq, Eq)]
pub enum Event {
    /// The command was carried out.
    Done,
    /// The command failed.
    Failed,
    /// The serial device is there.
    Present,
    /// The serial device is not there.
    Absent,
    /// What the read gave.
    Read(ReadOutcome),
    /// The image, loaded.
    Image(Vec<u8>),
    /// The user interrupted the run.
    Interrupted,
}

/// An `Event` with its bytes as sequences.
pub enum EventView {
    Done,
    Failed,
    Present,
    Absent,
    Read(ReadOutcomeView),
    Image(Seq<u8>),
    Interrupted,
}

impl View for Event {
    type V = EventView;

    open spec fn view(&self) -> EventView {
        match self {
            Event::Done => EventView::Done,
            Event::Failed => EventView::Failed,
            Event::Present => EventView::Present,
            Event::Absent => EventView::Absent,
            Event::Read(outcome) => EventView::Read(outcome@),
            Event::Image(bytes) => EventView::Image(bytes@),
            Event::Interrupted => EventView::Interrupted,
        }
    }
}

/// The next thing to do.
#[derive(Debug, PartialEq, Eq)]
pub enum Command {
    /// Print the banner. Answered by `Done`.
    ShowIntro,
    /// Install the handler that reports an interrupt. Answered by `Done` or `Failed`.
    InstallInterruptHandler,
    /// See whether the serial device is there. Answered by `Present` or `Absent`.
    ProbeDevice,
    /// Sleep. Answered by `Done`.
    Pause { seconds: u64 },
    /// Open the serial device with the session's line settings. Answered by
    /// `Done` or `Failed`.
    OpenDevice,
    /// Make a second handle to the device. Answered by `Done` or `Failed`.
    CloneHandle,
    /// Read up to `capacity` bytes from the device. Answered by `Read`.
    Read { capacity: usize },
    /// Read the image file. Answered by `Image` or `Failed`.
    LoadImage,
    /// Write these bytes to the device, all of them. Answered by `Done` or `Failed`.
    Write(Vec<u8>),
    /// Close the progress display. Answered by `Done`.
    FinishProgress,
    /// Relay bytes between console and device from now on.
    Bridge,
    /// End the process with this status.
    Exit { status: i32 },
}

/// A `Command` with its bytes as a sequence.
pub enum CommandView {
    ShowIntro,
    InstallInterruptHandler,
    ProbeDevice,
    Pause { seconds: u64 },
    OpenDevice,
    CloneHandle,
    Read { capacity: usize },
    LoadImage,
    Write(Seq<u8>),
    FinishProgress,
    Bridge,
    Exit { status: i32 },
}

impl View for Command {
    type V = CommandView;

    open spec fn view(&self) -> CommandView {
        match self {
            Command::ShowIntro => CommandView::ShowIntro,
            Command::InstallInterruptHandler => CommandView::InstallInterruptHandler,
            Command::ProbeDevice => CommandView::ProbeDevice,
            Command::Pause { seconds } => CommandView::Pause { seconds: *seconds },
            Command::OpenDevice => CommandView::OpenDevice,
            Command::CloneHandle => CommandView::CloneHandle,
            Command::Read { capacity } => CommandView::Read { capacity: *capacity },
            Command::LoadImage => CommandView::LoadImage,
            Command::Write(bytes) => CommandView::Write(bytes@),
            Command::FinishProgress => CommandView::FinishProgress,
            Command::Bridge => CommandView::Bridge,
            Command::Exit { status } => CommandView::Exit { status: *status },
        }
    }
}

/// What a step of the session asks of the caller.
#[derive(Debug, PartialEq, Eq)]
pub struct Step {
    /// A line to print, if there is one.
    pub notice: Option<Notice>,
    /// Bytes from the device to show on the console as they are.
    pub echo: Vec<u8>,
    /// The next thing to do.
    pub command: Command,
}

/// A `Step` with its bytes as sequences.
#[verifier::ext_equal]
pub struct StepView {
    pub notice: Option<Notice>,
    pub echo: Seq<u8>,
    pub command: CommandView,
}

impl View for Step {
    type V = StepView;

    open spec fn view(&self) -> StepView {
        StepView { notice: self.notice, echo: self.echo@, command: self.command@ }
    }
}

/// One run of the terminal.
pub struct Session {
    device: String,
    baud: u32,
    image_path: Option<String>,
    phase: Phase,
    announced: bool,
    detector: ReadyDetector,
    image: Vec<u8>,
    sent: usize,
    writes: Ghost<Seq<Seq<u8>>>,
}

/// What a session is, to its contracts.
#[verifier::ext_equal]
pub struct SessionView {
    /// The path of the serial device.
    pub device: Seq<char>,
    /// The baud rate of the line.
    pub baud: u32,
    /// The path of the image to push, where there is one.
    pub image_path: Option<Seq<char>>,
    pub phase: Phase,
    /// Whether the user has been told that the device is waited for.
    pub announced: bool,
    /// Every byte that the device sent while its ready signal was awaited.
    pub heard: Seq<u8>,
    /// The image; empty until it is loaded.
    pub image: Seq<u8>,
    /// How many bytes of the image the device has been sent.
    pub sent: nat,
    /// The writes to the device that were carried out, in order.
    pub writes: Seq<Seq<u8>>,
}

impl SessionView {
    /// The session as it begins.
    pub open spec fn initial(
        device: Seq<char>,
        baud: u32,
        image_path: Option<Seq<char>>,
    ) -> SessionView {
        SessionView {
            device,
            baud,
            image_path,
            phase: Phase::Greeting,
            announced: false,
            heard: Seq::empty(),
            image: Seq::empty(),
            sent: 0,
            writes: Seq::empty(),
        }
    }

    /// Whether the session pushes an image before it relays.
    pub open spec fn is_loader(self) -> bool {
        self.image_path is Some
    }

    /// The line settings that the device is opened with.
    pub open spec fn line(self) -> LineConfig {
        line_at(self.baud)
    }

    /// This session in another phase.
    pub open spec fn at(self, phase: Phase) -> SessionView {
        SessionView { phase, ..self }
    }

    /// This session, ended by `failure`.
    pub open spec fn failed(self, failure: Failure) -> SessionView {
        self.at(Phase::Stopped(Outcome::Failed(failure)))
    }

    /// Everything that a complete push writes to the device, write by write:
    /// the size header, then the chunks of the image.
    pub open spec fn planned_writes(self) -> Seq<Seq<u8>> {
        seq![header_of(self.image.len())] + chunks(self.image, chunk_count(self.image.len()))
    }

    /// The next thing to do.
    pub open spec fn pending(self) -> CommandView {
        match self.phase {
            Phase::Greeting => CommandView::ShowIntro,
            Phase::Arming => CommandView::InstallInterruptHandler,
            Phase::Probing => CommandView::ProbeDevice,
            Phase::Waiting => CommandView::Pause { seconds: 1 },
            Phase::Opening => CommandView::OpenDevice,
            Phase::Cloning => CommandView::CloneHandle,
            Phase::AwaitPayloadRequest => CommandView::Read { capacity: 4096 },
            Phase::SendSize(SizeStage::LoadImage) => CommandView::LoadImage,
            Phase::SendSize(SizeStage::WriteHeader) => CommandView::Write(
                header_of(self.image.len()),
            ),
            Phase::SendSize(SizeStage::AwaitAck) => CommandView::Read { capacity: 2 },
            Phase::SendPayload => CommandView::Write(chunk_from(self.image, self.sent)),
            Phase::Complete => CommandView::FinishProgress,
            Phase::Handoff => CommandView::Bridge,
            Phase::Stopped(outcome) => CommandView::Exit { status: status_of(outcome) as i32 },
        }
    }

    /// The session after `event`.
    ///
    /// An interrupt ends the run wherever it stands. Any other event counts
    /// only as the answer to the pending command; one that is no answer to it
    /// changes nothing. A read that times out, or brings no byte, changes
    /// nothing either. An image whose length the size header cannot state is
    /// not taken: the run ends before anything is written to the device.
    pub open spec fn next(self, event: EventView) -> SessionView {
        if event is Interrupted {
            self.at(Phase::Stopped(Outcome::Interrupted))
        } else {
            match self.phase {
                Phase::Greeting => match event {
                    EventView::Done => self.at(Phase::Arming),
                    _ => self,
                },
                Phase::Arming => match event {
                    EventView::Done => self.at(Phase::Probing),
                    EventView::Failed => self.failed(Failure::InterruptHandler),
                    _ => self,
                },
                Phase::Probing => match event {
                    EventView::Present => self.at(Phase::Opening),
                    EventView::Absent => SessionView {
                        phase: Phase::Waiting,
                        announced: true,
                        ..self
                    },
                    _ => self,
                },
                Phase::Waiting => match event {
                    EventView::Done => self.at(Phase::Probing),
                    _ => self,
                },
                Phase::Opening => match event {
                    EventView::Done => self.at(Phase::Cloning),
                    EventView::Failed => self.failed(Failure::DeviceUnavailable),
                    _ => self,
                },
                Phase::Cloning => match event {
                    EventView::Done => if self.is_loader() {
                        self.at(Phase::AwaitPayloadRequest)
                    } else {
                        self.at(Phase::Handoff)
                    },
                    EventView::Failed => self.failed(Failure::SecondHandle),
                    _ => self,
                },
                Phase::AwaitPayloadRequest => match event {
                    EventView::Read(ReadOutcomeView::Data(bytes)) => SessionView {
                        heard: self.heard + bytes,
                        phase: if has_ready_signal(self.heard + bytes) {
                            Phase::SendSize(SizeStage::LoadImage)
                        } else {
                            Phase::AwaitPayloadRequest
                        },
                        ..self
                    },
                    EventView::Read(ReadOutcomeView::Failed) => self.failed(Failure::DeviceRead),
                    _ => self,
                },
                Phase::SendSize(SizeStage::LoadImage) => match event {
                    EventView::Image(bytes) => if bytes.len() <= u32::MAX {
                        SessionView {
                            image: bytes,
                            phase: Phase::SendSize(SizeStage::WriteHeader),
                            ..self
                        }
                    } else {
                        self.failed(Failure::ImageTooLarge)
                    },
                    EventView::Failed => self.failed(Failure::ImageRead),
                    _ => self,
                },
                Phase::SendSize(SizeStage::WriteHeader) => match event {
                    EventView::Done => SessionView {
                        writes: self.writes.push(header_of(self.image.len())),
                        phase: Phase::SendSize(SizeStage::AwaitAck),
                        ..self
                    },
                    EventView::Failed => self.failed(Failure::SizeWrite),
                    _ => self,
                },
                Phase::SendSize(SizeStage::AwaitAck) => match event {
                    EventView::Read(ReadOutcomeView::Data(bytes)) => if bytes.len() == 0 {
                        self
                    } else if bytes == ack() {
                        if self.image.len() == 0 {
                            self.at(Phase::Complete)
                        } else {
                            self.at(Phase::SendPayload)
                        }
                    } else {
                        self.failed(Failure::Desync)
                    },
                    EventView::Read(ReadOutcomeView::Failed) => self.failed(Failure::DeviceRead),
                    _ => self,
                },
                Phase::SendPayload => match event {
                    EventView::Done => {
                        let piece = chunk_from(self.image, self.sent);
                        let sent = self.sent + piece.len();
                        SessionView {
                            writes: self.writes.push(piece),
                            sent,
                            phase: if sent == self.image.len() {
                                Phase::Complete
                            } else {
                                Phase::SendPayload
                            },
                            ..self
                        }
                    },
                    EventView::Failed => self.failed(Failure::PayloadWrite),
                    _ => self,
                },
                Phase::Complete => match event {
                    EventView::Done => self.at(Phase::Handoff),
                    _ => self,
                },
                Phase::Handoff => self,
                Phase::Stopped(_) => self,
            }
        }
    }

    /// The line to print when `event` arrives, if there is one: the farewell
    /// or the diagnostic when the run ends, and otherwise what the user needs
    /// to know of the device.
    pub open spec fn notice(self, event: EventView) -> Option<Notice> {
        let after = self.next(event);
        if after.phase != self.phase && after.phase is Stopped {
            match after.phase {
                Phase::Stopped(Outcome::Failed(failure)) => Some(Notice::Error(failure)),
                _ => Some(Notice::Farewell),
            }
        } else if self.phase == Phase::Probing && event is Absent && !self.announced {
            Some(Notice::Waiting)
        } else if self.phase == Phase::Opening && event is Done {
            Some(Notice::Connected)
        } else if self.phase == Phase::Cloning && event is Done && self.is_loader() {
            Some(Notice::PowerTarget)
        } else {
            None
        }
    }

    /// The bytes to show on the console when `event` arrives: what the device
    /// sends while its ready signal is awaited, all of it.
    pub open spec fn echo(self, event: EventView) -> Seq<u8> {
        match event {
            EventView::Read(read) if self.phase == Phase::AwaitPayloadRequest => bytes_of(read),
            _ => Seq::empty(),
        }
    }

    /// The session after each of `events`, in order.
    pub open spec fn after(self, events: Seq<EventView>) -> SessionView
        decreases events.len(),
    {
        if events.len() == 0 {
            self
        } else {
            self.after(events.drop_last()).next(events.last())
        }
    }

    /// Whether the session can have come about.
    ///
    /// Not more is sent than the image holds, and the image is no longer than
    /// its size header can state. What has been written to the
    /// device is the beginning of what a complete push writes, and nothing
    /// where no image is pushed. The ready signal has been heard exactly when
    /// the session has gone on from awaiting it. What has been sent is whole
    /// chunks, but for the last.
    pub open spec fn wf(self) -> bool {
        &&& self.sent <= self.image.len()
        &&& self.image.len() <= u32::MAX
        &&& self.writes.len() <= self.planned_writes().len()
        &&& self.writes == self.planned_writes().take(self.writes.len() as int)
        &&& !self.is_loader() ==> self.untouched()
        &&& match self.phase {
            Phase::Greeting | Phase::Arming | Phase::Probing | Phase::Waiting | Phase::Opening
            | Phase::Cloning => self.untouched(),
            Phase::AwaitPayloadRequest => {
                &&& self.is_loader()
                &&& !has_ready_signal(self.heard)
                &&& self.image.len() == 0
                &&& self.sent == 0
                &&& self.writes.len() == 0
            },
            Phase::SendSize(SizeStage::LoadImage) => {
                &&& self.is_loader()
                &&& has_ready_signal(self.heard)
                &&& self.image.len() == 0
                &&& self.sent == 0
                &&& self.writes.len() == 0
            },
            Phase::SendSize(SizeStage::WriteHeader) => {
                &&& self.is_loader()
                &&& has_ready_signal(self.heard)
                &&& self.sent == 0
                &&& self.writes.len() == 0
            },
            Phase::SendSize(SizeStage::AwaitAck) => {
                &&& self.is_loader()
                &&& has_ready_signal(self.heard)
                &&& self.sent == 0
                &&& self.writes.len() == 1
            },
            Phase::SendPayload => {
                &&& self.is_loader()
                &&& has_ready_signal(self.heard)
                &&& self.sent < self.image.len()
                &&& self.sent % 512 == 0
                &&& self.writes.len() == 1 + self.sent / 512
            },
            Phase::Complete => self.pushed(),
            Phase::Handoff => if self.is_loader() {
                self.pushed()
            } else {
                self.untouched()
            },
            Phase::Stopped(Outcome::Failed(Failure::Desync)) => {
                &&& self.is_loader()
                &&& has_ready_signal(self.heard)
                &&& self.sent == 0
                &&& self.writes.len() == 1
            },
            Phase::Stopped(_) => true,
        }
    }

    /// Nothing has been heard from the device, and nothing sent to it.
    pub open spec fn untouched(self) -> bool {
        &&& self.heard.len() == 0
        &&& self.image.len() == 0
        &&& self.sent == 0
        &&& self.writes.len() == 0
    }

    /// The whole image has been pushed.
    pub open spec fn pushed(self) -> bool {
        &&& self.is_loader()
        &&& has_ready_signal(self.heard)
        &&& self.sent == self.image.len()
        &&& self.writes.len() == 1 + chunk_count(self.image.len())
    }
}

impl View for Session {
    type V = SessionView;

    closed spec fn view(&self) -> SessionView {
        SessionView {
            device: self.device@,
            baud: self.baud,
            image_path: match self.image_path {
                Some(path) => Some(path@),
                None => None,
            },
            phase: self.phase,
            announced: self.announced,
            heard: self.detector.heard(),
            image: self.image@,
            sent: self.sent as nat,
            writes: self.writes@,
        }
    }
}

/// Starts a run that relays bytes between the console and the serial device
/// at `device`, opened at `baud`.
pub fn run(device: &str, baud: u32) -> (session: Session)
    ensures
        session.wf(),
        session@.wf(),
        session@ == SessionView::initial(device@, baud, None),
{
    let session = Session {
        device: String::from_str(device),
        baud,
        image_path: None,
        phase: Phase::Greeting,
        announced: false,
        detector: ReadyDetector::new(),
        image: Vec::new(),
        sent: 0,
        writes: Ghost(Seq::empty()),
    };
    proof {
        assert(session@ =~= SessionView::initial(device@, baud, None));
        lemma_initial_is_wf(device@, baud, None);
    }
    session
}

/// Starts a run that pushes the image in the file `image` to the device
/// before it relays bytes.
pub fn run_loader(device: &str, baud: u32, image: &str) -> (session: Session)
    ensures
        session.wf(),
        session@.wf(),
        session@ == SessionView::initial(device@, baud, Some(image@)),
{
    let session = Session {
        device: String::from_str(device),
        baud,
        image_path: Some(String::from_str(image)),
        phase: Phase::Greeting,
        announced: false,
        detector: ReadyDetector::new(),
        image: Vec::new(),
        sent: 0,
        writes: Ghost(Seq::empty()),
    };
    proof {
        assert(session@ =~= SessionView::initial(device@, baud, Some(image@)));
        lemma_initial_is_wf(device@, baud, Some(image@));
    }
    session
}

impl Session {
    /// Whether the session's parts agree with each other, and its view is one
    /// that can have come about.
    pub closed spec fn wf(&self) -> bool {
        &&& self.detector.wf()
        &&& self@.wf()
    }

    /// A well-formed session has a well-formed view.
    pub proof fn lemma_view_is_wf(&self)
        requires
            self.wf(),
        ensures
            self@.wf(),
    {
    }

    /// Where the session stands.
    pub fn phase(&self) -> (phase: Phase)
        ensures
            phase == self@.phase,
    {
        self.phase
    }

    /// The path of the serial device.
    pub fn device(&self) -> (path: &str)
        ensures
            path@ == self@.device,
    {
        self.device.as_str()
    }

    /// The line settings to open the device with.
    pub fn line(&self) -> (line: LineConfig)
        ensures
            line == self@.line(),
    {
        LineConfig::new(self.baud)
    }

    /// The path of the image to push, where the session pushes one.
    pub fn image_path(&self) -> (path: Option<&str>)
        ensures
            match path {
                Some(p) => self@.image_path == Some(p@),
                None => self@.image_path is None,
            },
    {
        match &self.image_path {
            Some(path) => Some(path.as_str()),
            None => None,
        }
    }

    /// How many bytes the image has; 0 until it is loaded.
    pub fn total(&self) -> (total: usize)
        ensures
            total == self@.image.len(),
    {
        self.image.len()
    }

    /// How many bytes of the image have been sent. This only ever grows, and
    /// never beyond `total`.
    pub fn sent(&self) -> (sent: usize)
        requires
            self.wf(),
        ensures
            sent == self@.sent,
            sent <= self@.image.len(),
    {
        self.sent
    }

    /// How far the push is, as the bytes sent and the bytes of the image,
    /// from the acknowledgement of the size until the session goes on to
    /// relay; `None` before and after.
    pub fn progress(&self) -> (progress: Option<(usize, usize)>)
        requires
            self.wf(),
        ensures
            progress == if self@.phase == Phase::SendPayload || self@.phase == Phase::Complete {
                Some((self@.sent as usize, self@.image.len() as usize))
            } else {
                None
            },
            progress matches Some((sent, total)) ==> sent <= total,
    {
        match self.phase {
            Phase::SendPayload | Phase::Complete => Some((self.sent, self.image.len())),
            _ => None,
        }
    }

    /// The next thing to do.
    pub fn pending(&self) -> (command: Command)
        requires
            self.wf(),
        ensures
            command@ == self@.pending(),
    {
        match self.phase {
            Phase::Greeting => Command::ShowIntro,
            Phase::Arming => Command::InstallInterruptHandler,
            Phase::Probing => Command::ProbeDevice,
            Phase::Waiting => Command::Pause { seconds: PROBE_PAUSE_SECS },
            Phase::Opening => Command::OpenDevice,
            Phase::Cloning => Command::CloneHandle,
            Phase::AwaitPayloadRequest => Command::Read { capacity: REQUEST_READ_SIZE },
            Phase::SendSize(SizeStage::LoadImage) => Command::LoadImage,
            Phase::SendSize(SizeStage::WriteHeader) => Command::Write(
                size_header(self.image.len()),
            ),
            Phase::SendSize(SizeStage::AwaitAck) => Command::Read { capacity: ACK_READ_SIZE },
            Phase::SendPayload => Command::Write(next_chunk(self.image.as_slice(), self.sent)),
            Phase::Complete => Command::FinishProgress,
            Phase::Handoff => Command::Bridge,
            Phase::Stopped(outcome) => Command::Exit { status: outcome.exit_status() },
        }
    }

    /// Takes what happened and says what to do next.
    pub fn step(&mut self, event: Event) -> (step: Step)
        requires
            old(self).wf(),
        ensures
            final(self).wf(),
            final(self)@.wf(),
            final(self)@ == old(self)@.next(event@),
            step@ == (StepView {
                notice: old(self)@.notice(event@),
                echo: old(self)@.echo(event@),
                command: final(self)@.pending(),
            }),
    {
        let ghost before = self@;
        let ghost happened = event@;
        proof {
            lemma_next_keeps_wf(before, happened);
        }
        let phase = self.phase;
        let mut notice: Option<Notice> = None;
        let mut echo: Vec<u8> = Vec::new();
        match event {
            Event::Interrupted => {
                match phase {
                    Phase::Stopped(Outcome::Interrupted) => {},
                    _ => {
                        notice = Some(Notice::Farewell);
                    },
                }
                self.phase = Phase::Stopped(Outcome::Interrupted);
            },
            Event::Done => match phase {
                Phase::Greeting => {
                    self.phase = Phase::Arming;
                },
                Phase::Arming => {
                    self.phase = Phase::Probing;
                },
                Phase::Waiting => {
                    self.phase = Phase::Probing;
                },
                Phase::Opening => {
                    notice = Some(Notice::Connected);
                    self.phase = Phase::Cloning;
                },
                Phase::Cloning => {
                    if self.image_path.is_some() {
                        notice = Some(Notice::PowerTarget);
                        self.phase = Phase::AwaitPayloadRequest;
                    } else {
                        self.phase = Phase::Handoff;
                    }
                },
                Phase::SendSize(SizeStage::WriteHeader) => {
                    proof {
                        self.writes@ = self.writes@.push(header_of(self.image@.len()));
                    }
                    self.phase = Phase::SendSize(SizeStage::AwaitAck);
                },
                Phase::SendPayload => {
                    let left = self.image.len() - self.sent;
                    let size: usize = if left >= 512 {
                        512
                    } else {
                        left
                    };
                    proof {
                        self.writes@ = self.writes@.push(chunk_from(self.image@, self.sent as nat));
                    }
                    self.sent = self.sent + size;
                    if self.sent == self.image.len() {
                        self.phase = Phase::Complete;
                    }
                },
                Phase::Complete => {
                    self.phase = Phase::Handoff;
                },
                _ => {},
            },
            Event::Failed => match phase {
                Phase::Arming => {
                    notice = Some(self.fail(Failure::InterruptHandler));
                },
                Phase::Opening => {
                    notice = Some(self.fail(Failure::DeviceUnavailable));
                },
                Phase::Cloning => {
                    notice = Some(self.fail(Failure::SecondHandle));
                },
                Phase::SendSize(SizeStage::LoadImage) => {
                    notice = Some(self.fail(Failure::ImageRead));
                },
                Phase::SendSize(SizeStage::WriteHeader) => {
                    notice = Some(self.fail(Failure::SizeWrite));
                },
                Phase::SendPayload => {
                    notice = Some(self.fail(Failure::PayloadWrite));
                },
                _ => {},
            },
            Event::Present => match phase {
                Phase::Probing => {
                    self.phase = Phase::Opening;
                },
                _ => {},
            },
            Event::Absent => match phase {
                Phase::Probing => {
                    if !self.announced {
                        notice = Some(Notice::Waiting);
                    }
                    self.announced = true;
                    self.phase = Phase::Waiting;
                },
                _ => {},
            },
            Event::Read(outcome) => match phase {
                Phase::AwaitPayloadRequest => match outcome {
                    ReadOutcome::Data(bytes) => {
                        if self.detector.feed(bytes.as_slice()) {
                            self.phase = Phase::SendSize(SizeStage::LoadImage);
                        }
                        echo = bytes;
                    },
                    ReadOutcome::TimedOut => {},
                    ReadOutcome::Failed => {
                        notice = Some(self.fail(Failure::DeviceRead));
                    },
                },
                Phase::SendSize(SizeStage::AwaitAck) => match outcome {
                    ReadOutcome::Data(bytes) => {
                        if bytes.len() == 0 {
                        } else if is_ack(bytes.as_slice()) {
                            if self.image.len() == 0 {
                                self.phase = Phase::Complete;
                            } else {
                                self.phase = Phase::SendPayload;
                            }
                        } else {
                            notice = Some(self.fail(Failure::Desync));
                        }
                    },
                    ReadOutcome::TimedOut => {},
                    ReadOutcome::Failed => {
                        notice = Some(self.fail(Failure::DeviceRead));
                    },
                },
                _ => {},
            },
            Event::Image(bytes) => match phase {
                Phase::SendSize(SizeStage::LoadImage) => {
                    if fits_header(bytes.len()) {
                        self.image = bytes;
                        self.phase = Phase::SendSize(SizeStage::WriteHeader);
                    } else {
                        notice = Some(self.fail(Failure::ImageTooLarge));
                    }
                },
                _ => {},
            },
        }
        assert(self@ =~= before.next(happened));
        assert(notice == before.notice(happened));
        assert(echo@ =~= before.echo(happened));
        let command = self.pending();
        Step { notice, echo, command }
    }

    /// Ends the run with `failure` and gives the line that reports it.
    fn fail(&mut self, failure: Failure) -> (notice: Notice)
        ensures
            final(self)@ == old(self)@.failed(failure),
            final(self).detector == old(self).detector,
            notice == Notice::Error(failure),
    {
        self.phase = Phase::Stopped(Outcome::Failed(failure));
        Notice::Error(failure)
    }
}

/// A session begins well-formed.
pub proof fn lemma_initial_is_wf(device: Seq<char>, baud: u32, image_path: Option<Seq<char>>)
    ensures
        SessionView::initial(device, baud, image_path).wf(),
{
    let s = SessionView::initial(device, baud, image_path);
    assert(s.writes =~= s.planned_writes().take(0));
}

/// What a complete push writes: the header first, then the chunks, of
/// which the one with index `count` starts after `count` whole chunks.
proof fn lemma_planned_write(s: SessionView, count: int)
    requires
        0 <= count < chunk_count(s.image.len()),
    ensures
        s.planned_writes().len() == 1 + chunk_count(s.image.len()),
        s.planned_writes()[0] == header_of(s.image.len()),
        s.planned_writes()[1 + count] == chunk_from(s.image, (count * 512) as nat),
        s.planned_writes().take(1 + count).push(chunk_from(s.image, (count * 512) as nat))
            == s.planned_writes().take(2 + count),
{
    let plan = s.planned_writes();
    assert(plan[1 + count] == chunks(s.image, chunk_count(s.image.len()))[count]);
    assert(plan.take(1 + count).push(plan[1 + count]) =~= plan.take(2 + count));
}

/// No event takes a session out of the well-formed ones.
pub proof fn lemma_next_keeps_wf(s: SessionView, event: EventView)
    requires
        s.wf(),
    ensures
        s.next(event).wf(),
{
    let t = s.next(event);
    let plan = s.planned_writes();
    if event is Interrupted {
    } else {
        match s.phase {
            Phase::AwaitPayloadRequest => {},
            Phase::SendSize(SizeStage::LoadImage) => {
                assert(t.writes =~= t.planned_writes().take(0));
            },
            Phase::SendSize(SizeStage::WriteHeader) => {
                if event is Done {
                    assert(t.writes =~= plan.take(1));
                }
            },
            Phase::SendPayload => {
                if event is Done {
                    let count: int = s.sent as int / 512;
                    assert(count * 512 == s.sent);
                    lemma_planned_write(s, count);
                    lemma_chunk_lengths(s.image, count as nat);
                    assert(t.writes =~= plan.take(2 + count));
                }
            },
            _ => {},
        }
    }
}

} // verus!
