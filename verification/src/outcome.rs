//! How a run can end, and what the user is told on the way.

use vstd::prelude::*;
use vstd::string::StringExecFns;

verus! {

/// What can go wrong once the command line is read. Each of these ends the
/// process with status 1, but for `DeviceRead` while bytes are relayed: there
/// it ends only the relaying from device to console.
#[derive(Clone, Copy, Debug, PartialEq, Eq, Structural)]
pub enum Failure {
    /// The serial device could not be opened.
    DeviceUnavailable,
    /// The interrupt handler could not be installed.
    InterruptHandler,
    /// No second handle to the serial device could be had.
    SecondHandle,
    /// Reading from the serial device failed, other than by timing out.
    DeviceRead,
    /// The image file could not be read.
    ImageRead,
    /// The image is longer than the size header can state.
    ImageTooLarge,
    /// Writing the size header to the device failed.
    SizeWrite,
    /// The device answered the size header with something other than `OK`.
    Desync,
    /// Writing a chunk of the image to the device failed.
    PayloadWrite,
    /// Writing to the console, or flushing it, failed.
    ConsoleWrite,
    /// Reading the console failed.
    ConsoleRead,
    /// Writing a keystroke to the device failed.
    DeviceWrite,
}

/// The diagnostic for `failure`. `detail` is what the operating system said
/// of the error; it appears in the diagnostic of an error that comes from it.
pub open spec fn report_text(failure: Failure, detail: Seq<char>) -> Seq<char> {
    match failure {
        Failure::DeviceUnavailable => "🚫 "@ + detail + ". Maybe try with 'sudo'."@,
        Failure::InterruptHandler => "Error setting Ctrl-C handler.: "@ + detail,
        Failure::SecondHandle => "Error creating second serial connection: "@ + detail,
        Failure::DeviceRead => "Error getting target serial input: "@ + detail,
        Failure::ImageRead => "Error reading kernel image: "@ + detail,
        Failure::ImageTooLarge =>
            "Error reading kernel image: its size does not fit in 32 bits."@,
        Failure::SizeWrite => "Error writing the size to target serial.: "@ + detail,
        Failure::Desync =>
            "Error reading OK confirmation after sending image size to target serial."@,
        Failure::PayloadWrite => "Error loading image to target serial.: "@ + detail,
        Failure::ConsoleWrite => "Error writing to stdout.: "@ + detail,
        Failure::ConsoleRead => "Error with stdin stream.: "@ + detail,
        Failure::DeviceWrite => "Error writing to target serial.: "@ + detail,
    }
}

impl Failure {
    /// The diagnostic to print before the process ends.
    pub fn report(&self, detail: &str) -> (text: String)
        ensures
            text@ == report_text(*self, detail@),
    {
        match self {
            Failure::DeviceUnavailable => String::from_str("🚫 ").concat(detail).concat(
                ". Maybe try with 'sudo'.",
            ),
            Failure::InterruptHandler => String::from_str("Error setting Ctrl-C handler.: ").concat(
                detail,
            ),
            Failure::SecondHandle => String::from_str(
                "Error creating second serial connection: ",
            ).concat(detail),
            Failure::DeviceRead => String::from_str("Error getting target serial input: ").concat(
                detail,
            ),
            Failure::ImageRead => String::from_str("Error reading kernel image: ").concat(detail),
            Failure::ImageTooLarge => String::from_str(
                "Error reading kernel image: its size does not fit in 32 bits.",
            ),
            Failure::SizeWrite => String::from_str(
                "Error writing the size to target serial.: ",
            ).concat(detail),
            Failure::Desync => String::from_str(
                "Error reading OK confirmation after sending image size to target serial.",
            ),
            Failure::PayloadWrite => String::from_str(
                "Error loading image to target serial.: ",
            ).concat(detail),
            Failure::ConsoleWrite => String::from_str("Error writing to stdout.: ").concat(detail),
            Failure::ConsoleRead => String::from_str("Error with stdin stream.: ").concat(detail),
            Failure::DeviceWrite => String::from_str("Error writing to target serial.: ").concat(
                detail,
            ),
        }
    }

    /// The status the process ends with after this failure.
    pub fn exit_status(&self) -> (status: i32)
        ensures
            status == 1,
    {
        1
    }
}

/// Why the process ends.
#[derive(Clone, Copy, Debug, PartialEq, Eq, Structural)]
pub enum Outcome {
    /// The user interrupted it.
    Interrupted,
    /// Something failed.
    Failed(Failure),
}

/// The exit status that goes with `outcome`: 0 after an interrupt, 1 after a failure.
pub open spec fn status_of(outcome: Outcome) -> int {
    match outcome {
        Outcome::Interrupted => 0,
        Outcome::Failed(_) => 1,
    }
}

impl Outcome {
    /// The status the process ends with.
    pub fn exit_status(&self) -> (status: i32)
        ensures
            status == status_of(*self),
    {
        match self {
            Outcome::Interrupted => 0,
            Outcome::Failed(_) => 1,
        }
    }
}

/// Something to tell the user.
#[derive(Clone, Copy, Debug, PartialEq, Eq, Structural)]
pub enum Notice {
    /// The serial device is not there yet.
    Waiting,
    /// The serial device is open.
    Connected,
    /// The target may be switched on: its request for the image is awaited.
    PowerTarget,
    /// The user interrupted the run.
    Farewell,
    /// The run failed.
    Error(Failure),
}

/// The line for `notice`. `device` is the path of the serial device, and
/// `detail` what the operating system said of an error, if there was one.
pub open spec fn notice_text(notice: Notice, device: Seq<char>, detail: Seq<char>) -> Seq<char> {
    match notice {
        Notice::Waiting => "⏳ Waiting for "@ + device,
        Notice::Connected => "✅ Serial connected"@,
        Notice::PowerTarget => "🔌 Please power the target now."@,
        Notice::Farewell => "\nBye 👋"@,
        Notice::Error(failure) => report_text(failure, detail),
    }
}

impl Notice {
    /// The line to print.
    pub fn text(&self, device: &str, detail: &str) -> (line: String)
        ensures
            line@ == notice_text(*self, device@, detail@),
    {
        match self {
            Notice::Waiting => String::from_str("⏳ Waiting for ").concat(device),
            Notice::Connected => String::from_str("✅ Serial connected"),
            Notice::PowerTarget => String::from_str("🔌 Please power the target now."),
            Notice::Farewell => String::from_str("\nBye 👋"),
            Notice::Error(failure) => failure.report(detail),
        }
    }

    /// Whether the line belongs on the error stream.
    pub fn is_error(&self) -> (yes: bool)
        ensures
            yes == (*self is Error),
    {
        match self {
            Notice::Error(_) => true,
            _ => false,
        }
    }
}

} // verus!
