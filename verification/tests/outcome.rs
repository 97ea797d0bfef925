use serial_loader::outcome::Failure;
use serial_loader::outcome::Notice;
use serial_loader::outcome::Outcome;

const FAILURES: [Failure; 12] = [
    Failure::DeviceUnavailable,
    Failure::InterruptHandler,
    Failure::SecondHandle,
    Failure::DeviceRead,
    Failure::ImageRead,
    Failure::ImageTooLarge,
    Failure::SizeWrite,
    Failure::Desync,
    Failure::PayloadWrite,
    Failure::ConsoleWrite,
    Failure::ConsoleRead,
    Failure::DeviceWrite,
];

#[test]
fn every_failure_ends_with_status_one() {
    for failure in FAILURES.iter() {
        assert_eq!(failure.exit_status(), 1i32);
        assert_eq!(Outcome::Failed(*failure).exit_status(), 1i32);
    }
}

#[test]
fn an_interrupt_ends_with_status_zero() {
    assert_eq!(Outcome::Interrupted.exit_status(), 0i32);
}

#[test]
fn the_diagnostics() {
    assert_eq!(
        Failure::DeviceUnavailable.report("Permission denied"),
        "🚫 Permission denied. Maybe try with 'sudo'."
    );
    assert_eq!(
        Failure::InterruptHandler.report("busy"),
        "Error setting Ctrl-C handler.: busy"
    );
    assert_eq!(
        Failure::SecondHandle.report("no"),
        "Error creating second serial connection: no"
    );
    assert_eq!(
        Failure::DeviceRead.report("broken pipe"),
        "Error getting target serial input: broken pipe"
    );
    assert_eq!(
        Failure::ImageRead.report("No such file"),
        "Error reading kernel image: No such file"
    );
    assert_eq!(
        Failure::ImageTooLarge.report("ignored"),
        "Error reading kernel image: its size does not fit in 32 bits."
    );
    assert_eq!(
        Failure::SizeWrite.report("e"),
        "Error writing the size to target serial.: e"
    );
    assert_eq!(
        Failure::Desync.report("ignored"),
        "Error reading OK confirmation after sending image size to target serial."
    );
    assert_eq!(
        Failure::PayloadWrite.report("e"),
        "Error loading image to target serial.: e"
    );
    assert_eq!(Failure::ConsoleWrite.report("e"), "Error writing to stdout.: e");
    assert_eq!(Failure::ConsoleRead.report("e"), "Error with stdin stream.: e");
    assert_eq!(Failure::DeviceWrite.report("e"), "Error writing to target serial.: e");
}

#[test]
fn the_notices() {
    assert_eq!(Notice::Waiting.text("/dev/ttyUSB0", ""), "⏳ Waiting for /dev/ttyUSB0");
    assert_eq!(Notice::Connected.text("/dev/ttyUSB0", ""), "✅ Serial connected");
    assert_eq!(Notice::PowerTarget.text("/dev/ttyUSB0", ""), "🔌 Please power the target now.");
    assert_eq!(Notice::Farewell.text("/dev/ttyUSB0", ""), "\nBye 👋");
    for failure in FAILURES.iter() {
        assert_eq!(Notice::Error(*failure).text("dev", "why"), failure.report("why"));
    }
}

#[test]
fn only_diagnostics_go_to_the_error_stream() {
    assert!(!Notice::Waiting.is_error());
    assert!(!Notice::Connected.is_error());
    assert!(!Notice::PowerTarget.is_error());
    assert!(!Notice::Farewell.is_error());
    assert!(Notice::Error(Failure::Desync).is_error());
}
