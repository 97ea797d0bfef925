//! Relaying bytes between the device and the console.
//!
//! The two directions are independent. Each is a loop around one function of
//! this module: the loop reads, the function says what to write and whether to
//! go on. No byte is held back, and none overtakes another.

use crate::line::bytes_of;
use crate::line::ReadOutcome;
use crate::line::ReadOutcomeView;
use crate::outcome::Failure;
use vstd::prelude::*;

verus! {

pub const LINE_FEED: u8 = 0x0A;

pub const CARRIAGE_RETURN: u8 = 0x0D;

/// How many bytes are asked of the device at a time while relaying. One byte
/// at a time keeps what the device prints in step with what the user sees.
pub const RELAY_READ_SIZE: usize = 1;

/// What the console gets for one byte from the device: a line feed becomes
/// carriage return and line feed, any other byte stays as it is.
pub open spec fn console_form(byte: u8) -> Seq<u8> {
    if byte == 0x0A {
        seq![0x0Du8, 0x0Au8]
    } else {
        seq![byte]
    }
}

/// What the console gets for `bytes` from the device: the form of each byte, in order.
pub open spec fn console_text(bytes: Seq<u8>) -> Seq<u8>
    decreases bytes.len(),
{
    if bytes.len() == 0 {
        Seq::empty()
    } else {
        console_text(bytes.drop_last()) + console_form(bytes.last())
    }
}

/// Whether one direction of the relay goes on.
#[derive(Clone, Copy, Debug, PartialEq, Eq, Structural)]
pub enum Flow {
    /// Go on with the next read.
    Continue,
    /// This direction ends here; the other one goes on. The failure is reported.
    Halt(Failure),
    /// The process ends with status 1. The failure is reported.
    Fatal(Failure),
    /// The user interrupted: the process ends with status 0.
    Quit,
}

/// What a poll of the console's input gave.
#[derive(Clone, Copy, Debug, PartialEq, Eq, Structural)]
pub enum KeyPoll {
    /// A keystroke.
    Key(u8),
    /// Nothing is pending.
    Idle,
    /// The input stream failed.
    Failed,
}

/// What to do with the outcome of a read from the device.
#[derive(Debug, PartialEq, Eq)]
pub struct ConsoleRelay {
    /// The bytes for the console.
    pub output: Vec<u8>,
    /// Whether there is a write to make: the console is put in raw mode, gets
    /// the output, which may be empty, and is flushed at once, so that the
    /// output shows.
    pub flush: bool,
    pub flow: Flow,
}

/// What to do with the outcome of a poll of the console.
#[derive(Debug, PartialEq, Eq)]
pub struct DeviceRelay {
    /// The bytes to write to the device.
    pub bytes: Vec<u8>,
    pub flow: Flow,
}

/// The bytes that go to the console after a read from the device.
pub open spec fn console_output_for(read: ReadOutcomeView, cancelled: bool) -> Seq<u8> {
    if cancelled {
        Seq::empty()
    } else {
        console_text(bytes_of(read))
    }
}

/// How the direction from device to console goes on after a read.
pub open spec fn console_flow_for(read: ReadOutcomeView, cancelled: bool) -> Flow {
    if cancelled {
        Flow::Quit
    } else if read is Failed {
        Flow::Halt(Failure::DeviceRead)
    } else {
        Flow::Continue
    }
}

/// The bytes that go to the device after a poll of the console.
pub open spec fn device_output_for(key: KeyPoll, cancelled: bool) -> Seq<u8> {
    match key {
        KeyPoll::Key(byte) if !cancelled => seq![byte],
        _ => Seq::empty(),
    }
}

/// How the direction from console to device goes on after a poll.
pub open spec fn device_flow_for(key: KeyPoll, cancelled: bool) -> Flow {
    if cancelled {
        Flow::Quit
    } else if key is Failed {
        Flow::Fatal(Failure::ConsoleRead)
    } else {
        Flow::Continue
    }
}

/// What the console gets for one byte from the device.
pub fn console_bytes(byte: u8) -> (output: Vec<u8>)
    ensures
        output@ == console_form(byte),
        byte == LINE_FEED ==> output@ == seq![CARRIAGE_RETURN, LINE_FEED],
        byte != LINE_FEED ==> output@ == seq![byte],
{
    let mut output: Vec<u8> = Vec::new();
    if byte == LINE_FEED {
        output.push(CARRIAGE_RETURN);
    }
    output.push(byte);
    assert(output@ =~= console_form(byte));
    output
}

/// What the console gets for `bytes` from the device.
pub fn console_output(bytes: &[u8]) -> (output: Vec<u8>)
    ensures
        output@ == console_text(bytes@),
{
    let mut output: Vec<u8> = Vec::new();
    let mut i: usize = 0;
    assert(bytes@.take(0) =~= Seq::<u8>::empty());
    while i < bytes.len()
        invariant
            i <= bytes@.len(),
            output@ == console_text(bytes@.take(i as int)),
        decreases bytes@.len() - i,
    {
        let byte = bytes[i];
        proof {
            assert(bytes@.take(i + 1).drop_last() =~= bytes@.take(i as int));
            assert(bytes@.take(i + 1).last() == byte);
        }
        let ghost before = output@;
        if byte == LINE_FEED {
            output.push(CARRIAGE_RETURN);
        }
        output.push(byte);
        assert(output@ =~= before + console_form(byte));
        i += 1;
    }
    assert(bytes@.take(bytes@.len() as int) =~= bytes@);
    output
}

/// The step of the direction from device to console: what a read gave goes to
/// the console, line feeds widened; a timeout is nothing to act on; a failed
/// read ends this direction, and this direction only. Once the user has
/// interrupted (`cancelled`), nothing is written any more.
pub fn device_to_console(read: &ReadOutcome, cancelled: bool) -> (relay: ConsoleRelay)
    ensures
        relay.output@ == console_output_for(read@, cancelled),
        relay.flow == console_flow_for(read@, cancelled),
        relay.flush == (!cancelled && read@ is Data),
{
    if cancelled {
        return ConsoleRelay { output: Vec::new(), flush: false, flow: Flow::Quit };
    }
    match read {
        ReadOutcome::Data(bytes) => ConsoleRelay {
            output: console_output(bytes.as_slice()),
            flush: true,
            flow: Flow::Continue,
        },
        ReadOutcome::TimedOut => ConsoleRelay {
            output: Vec::new(),
            flush: false,
            flow: Flow::Continue,
        },
        ReadOutcome::Failed => ConsoleRelay {
            output: Vec::new(),
            flush: false,
            flow: Flow::Halt(Failure::DeviceRead),
        },
    }
}

/// The step of the direction from console to device: a keystroke goes to the
/// device as it is; with no keystroke pending there is nothing to do; a failed
/// input stream is fatal. Once the user has interrupted (`cancelled`), nothing
/// is written any more.
pub fn console_to_device(key: KeyPoll, cancelled: bool) -> (relay: DeviceRelay)
    ensures
        relay.bytes@ == device_output_for(key, cancelled),
        relay.flow == device_flow_for(key, cancelled),
{
    if cancelled {
        return DeviceRelay { bytes: Vec::new(), flow: Flow::Quit };
    }
    match key {
        KeyPoll::Key(byte) => {
            let mut bytes: Vec<u8> = Vec::new();
            bytes.push(byte);
            assert(bytes@ =~= seq![byte]);
            DeviceRelay { bytes, flow: Flow::Continue }
        },
        KeyPoll::Idle => DeviceRelay { bytes: Vec::new(), flow: Flow::Continue },
        KeyPoll::Failed => DeviceRelay {
            bytes: Vec::new(),
            flow: Flow::Fatal(Failure::ConsoleRead),
        },
    }
}

/// How the direction from device to console goes on after its write to the
/// console: a failed write, or a failed flush, is fatal.
pub fn after_console_write(written: bool) -> (flow: Flow)
    ensures
        flow == if written {
            Flow::Continue
        } else {
            Flow::Fatal(Failure::ConsoleWrite)
        },
{
    if written {
        Flow::Continue
    } else {
        Flow::Fatal(Failure::ConsoleWrite)
    }
}

/// How the direction from console to device goes on after its write to the
/// device: a failed write is fatal.
pub fn after_device_write(written: bool) -> (flow: Flow)
    ensures
        flow == if written {
            Flow::Continue
        } else {
            Flow::Fatal(Failure::DeviceWrite)
        },
{
    if written {
        Flow::Continue
    } else {
        Flow::Fatal(Failure::DeviceWrite)
    }
}

/// The console gets the bytes of the device in their order: what it gets for
/// two reads is what it gets for the first, then what it gets for the second.
pub proof fn lemma_console_text_in_order(first: Seq<u8>, second: Seq<u8>)
    ensures
        console_text(first + second) == console_text(first) + console_text(second),
    decreases second.len(),
{
    if second.len() == 0 {
        assert(first + second =~= first);
        assert(console_text(first) + console_text(second) =~= console_text(first));
    } else {
        lemma_console_text_in_order(first, second.drop_last());
        assert((first + second).drop_last() =~= first + second.drop_last());
        assert((first + second).last() == second.last());
        assert(console_text(first + second) =~= console_text(first) + console_text(second));
    }
}

/// A single byte from the device gives the console its form and nothing else.
pub proof fn lemma_console_text_of_one(byte: u8)
    ensures
        console_text(seq![byte]) == console_form(byte),
        console_text(Seq::<u8>::empty()) == Seq::<u8>::empty(),
{
    reveal_with_fuel(console_text, 2);
    assert(seq![byte].drop_last() =~= Seq::<u8>::empty());
    assert(console_text(seq![byte]) =~= console_form(byte));
}

/// After an interrupt neither direction writes anything, whatever was read.
pub proof fn lemma_nothing_is_written_after_interrupt(read: ReadOutcomeView, key: KeyPoll)
    ensures
        console_output_for(read, true).len() == 0,
        console_flow_for(read, true) == Flow::Quit,
        device_output_for(key, true).len() == 0,
        device_flow_for(key, true) == Flow::Quit,
{
}

} // verus!
