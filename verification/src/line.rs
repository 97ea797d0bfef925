//! The serial line: how it is set up, and what a read on it can give.

use vstd::prelude::*;

verus! {

/// The read timeout of the serial line, in milliseconds. It is short, so that
/// a read that finds nothing comes back soon.
pub const READ_TIMEOUT_MS: u64 = 10;

/// The parity bit of a character on the line.
#[derive(Clone, Copy, Debug, PartialEq, Eq, Structural)]
pub enum Parity {
    /// No parity bit.
    NoParity,
    Odd,
    Even,
}

/// How many bits make a character on the line.
#[derive(Clone, Copy, Debug, PartialEq, Eq, Structural)]
pub enum DataBits {
    Five,
    Six,
    Seven,
    Eight,
}

/// How many bits end a character on the line.
#[derive(Clone, Copy, Debug, PartialEq, Eq, Structural)]
pub enum StopBits {
    One,
    Two,
}

/// The settings that the serial device is opened with.
#[derive(Clone, Copy, Debug, PartialEq, Eq, Structural)]
pub struct LineConfig {
    /// Symbols per second.
    pub baud: u32,
    pub data_bits: DataBits,
    pub stop_bits: StopBits,
    pub parity: Parity,
    /// How long a read waits for data, in milliseconds.
    pub timeout_ms: u64,
}

/// The line at `baud`: 8 data bits, 1 stop bit, no parity, and a read timeout
/// of 10 ms.
pub open spec fn line_at(baud: u32) -> LineConfig {
    LineConfig {
        baud,
        data_bits: DataBits::Eight,
        stop_bits: StopBits::One,
        parity: Parity::NoParity,
        timeout_ms: 10,
    }
}

impl LineConfig {
    /// The settings for a line at `baud`.
    pub fn new(baud: u32) -> (line: LineConfig)
        ensures
            line == line_at(baud),
    {
        LineConfig {
            baud,
            data_bits: DataBits::Eight,
            stop_bits: StopBits::One,
            parity: Parity::NoParity,
            timeout_ms: READ_TIMEOUT_MS,
        }
    }
}

/// What one read on the line gave.
#[derive(Debug, PartialEq, Eq)]
pub enum ReadOutcome {
    /// The bytes that were read. There may be none, where the timeout ran out
    /// with nothing to read.
    Data(Vec<u8>),
    /// The timeout ran out. This is no error: there is no data yet.
    TimedOut,
    /// The read failed.
    Failed,
}

/// A `ReadOutcome` with its bytes as a sequence.
pub enum ReadOutcomeView {
    Data(Seq<u8>),
    TimedOut,
    Failed,
}

impl View for ReadOutcome {
    type V = ReadOutcomeView;

    open spec fn view(&self) -> ReadOutcomeView {
        match self {
            ReadOutcome::Data(bytes) => ReadOutcomeView::Data(bytes@),
            ReadOutcome::TimedOut => ReadOutcomeView::TimedOut,
            ReadOutcome::Failed => ReadOutcomeView::Failed,
        }
    }
}

/// The bytes that a read brought: those of `Data`, none otherwise.
pub open spec fn bytes_of(read: ReadOutcomeView) -> Seq<u8> {
    match read {
        ReadOutcomeView::Data(bytes) => bytes,
        _ => Seq::empty(),
    }
}

} // verus!
