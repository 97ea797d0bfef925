use serial_loader::bridge::after_console_write;
use serial_loader::bridge::after_device_write;
use serial_loader::bridge::console_bytes;
use serial_loader::bridge::console_output;
use serial_loader::bridge::console_to_device;
use serial_loader::bridge::device_to_console;
use serial_loader::bridge::Flow;
use serial_loader::bridge::KeyPoll;
use serial_loader::bridge::CARRIAGE_RETURN;
use serial_loader::bridge::LINE_FEED;
use serial_loader::bridge::RELAY_READ_SIZE;
use serial_loader::line::ReadOutcome;
use serial_loader::outcome::Failure;

#[test]
fn the_relay_reads_one_byte_at_a_time() {
    assert_eq!(RELAY_READ_SIZE, 1usize);
    assert_eq!(LINE_FEED, 0x0Au8);
    assert_eq!(CARRIAGE_RETURN, 0x0Du8);
}

#[test]
fn a_line_feed_becomes_carriage_return_and_line_feed() {
    assert_eq!(console_bytes(0x0A), vec![0x0Du8, 0x0A]);
}

#[test]
fn every_other_byte_stays_as_it_is() {
    for byte in 0u8..=255 {
        if byte != 0x0A {
            assert_eq!(console_bytes(byte), vec![byte]);
        }
    }
    assert_eq!(console_bytes(0x0D), vec![0x0Du8]);
}

#[test]
fn longer_output_is_widened_byte_by_byte() {
    assert_eq!(console_output(b""), Vec::<u8>::new());
    assert_eq!(console_output(b"ab"), b"ab".to_vec());
    assert_eq!(console_output(b"a\nb"), b"a\r\nb".to_vec());
    assert_eq!(console_output(b"\n\n"), b"\r\n\r\n".to_vec());
    assert_eq!(console_output(b"a\r\nb"), b"a\r\r\nb".to_vec());
}

#[test]
fn a_read_goes_to_the_console_and_is_flushed() {
    let relay = device_to_console(&ReadOutcome::Data(vec![b'x']), false);
    assert_eq!(relay.output, vec![b'x']);
    assert!(relay.flush);
    assert_eq!(relay.flow, Flow::Continue);

    let relay = device_to_console(&ReadOutcome::Data(vec![b'\n']), false);
    assert_eq!(relay.output, vec![b'\r', b'\n']);
    assert!(relay.flush);
    assert_eq!(relay.flow, Flow::Continue);
}

#[test]
fn a_read_without_bytes_writes_nothing() {
    let relay = device_to_console(&ReadOutcome::Data(Vec::new()), false);
    assert_eq!(relay.output, Vec::<u8>::new());
    assert!(relay.flush);
    assert_eq!(relay.flow, Flow::Continue);
}

#[test]
fn a_timeout_is_no_error() {
    let relay = device_to_console(&ReadOutcome::TimedOut, false);
    assert_eq!(relay.output, Vec::<u8>::new());
    assert!(!relay.flush);
    assert_eq!(relay.flow, Flow::Continue);
}

#[test]
fn a_failed_read_halts_its_direction_only() {
    let relay = device_to_console(&ReadOutcome::Failed, false);
    assert_eq!(relay.output, Vec::<u8>::new());
    assert_eq!(relay.flow, Flow::Halt(Failure::DeviceRead));

    let other = console_to_device(KeyPoll::Key(b'q'), false);
    assert_eq!(other.bytes, vec![b'q']);
    assert_eq!(other.flow, Flow::Continue);
}

#[test]
fn keystrokes_go_to_the_device_unchanged() {
    for byte in 0u8..=255 {
        let relay = console_to_device(KeyPoll::Key(byte), false);
        assert_eq!(relay.bytes, vec![byte]);
        assert_eq!(relay.flow, Flow::Continue);
    }
}

#[test]
fn no_keystroke_is_nothing_to_do() {
    let relay = console_to_device(KeyPoll::Idle, false);
    assert_eq!(relay.bytes, Vec::<u8>::new());
    assert_eq!(relay.flow, Flow::Continue);
}

#[test]
fn a_failed_console_is_fatal() {
    let relay = console_to_device(KeyPoll::Failed, false);
    assert_eq!(relay.bytes, Vec::<u8>::new());
    assert_eq!(relay.flow, Flow::Fatal(Failure::ConsoleRead));
}

#[test]
fn failed_writes_are_fatal() {
    assert_eq!(after_console_write(true), Flow::Continue);
    assert_eq!(after_console_write(false), Flow::Fatal(Failure::ConsoleWrite));
    assert_eq!(after_device_write(true), Flow::Continue);
    assert_eq!(after_device_write(false), Flow::Fatal(Failure::DeviceWrite));
}

#[test]
fn nothing_is_written_after_an_interrupt() {
    let reads = [
        ReadOutcome::Data(vec![b'x']),
        ReadOutcome::Data(vec![b'\n']),
        ReadOutcome::TimedOut,
        ReadOutcome::Failed,
    ];
    for read in reads.iter() {
        let relay = device_to_console(read, true);
        assert_eq!(relay.output, Vec::<u8>::new());
        assert!(!relay.flush);
        assert_eq!(relay.flow, Flow::Quit);
    }
    let keys = [KeyPoll::Key(b'x'), KeyPoll::Idle, KeyPoll::Failed];
    for key in keys.iter() {
        let relay = console_to_device(*key, true);
        assert_eq!(relay.bytes, Vec::<u8>::new());
        assert_eq!(relay.flow, Flow::Quit);
    }
}

#[test]
fn the_order_of_bytes_is_kept() {
    let stream: Vec<u8> = b"one\ntwo\nthree".to_vec();
    let mut console: Vec<u8> = Vec::new();
    for byte in stream.iter() {
        let relay = device_to_console(&ReadOutcome::Data(vec![*byte]), false);
        console.extend_from_slice(&relay.output);
    }
    assert_eq!(console, b"one\r\ntwo\r\nthree".to_vec());
    assert_eq!(console, console_output(&stream));
}
