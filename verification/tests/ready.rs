use serial_loader::ready::ReadyDetector;
use serial_loader::ready::READY_BYTE;
use serial_loader::ready::READY_RUN;

fn heard_in_one_read(stream: &[u8]) -> bool {
    let mut detector = ReadyDetector::new();
    detector.feed(stream)
}

fn heard_byte_by_byte(stream: &[u8]) -> bool {
    let mut detector = ReadyDetector::new();
    let mut ready = false;
    for byte in stream.iter() {
        ready = detector.feed(&[*byte]);
    }
    ready
}

fn holds_signal(stream: &[u8]) -> bool {
    stream.windows(3).any(|w| w == [3u8, 3, 3])
}

#[test]
fn the_signal_is_three_bytes_of_value_three() {
    assert_eq!(READY_BYTE, 3u8);
    assert_eq!(READY_RUN, 3u8);
}

#[test]
fn a_fresh_detector_has_heard_nothing() {
    let detector = ReadyDetector::new();
    assert!(!detector.is_ready());
    assert_eq!(detector.run(), 0u8);
}

#[test]
fn three_in_a_row_after_a_broken_run_trigger() {
    assert!(heard_in_one_read(&[3, 3, 5, 3, 3, 3]));
    assert!(heard_byte_by_byte(&[3, 3, 5, 3, 3, 3]));
}

#[test]
fn broken_runs_never_trigger() {
    assert!(!heard_in_one_read(&[3, 3, 5, 3, 3, 5, 3]));
    assert!(!heard_byte_by_byte(&[3, 3, 5, 3, 3, 5, 3]));
}

#[test]
fn short_and_empty_streams_do_not_trigger() {
    assert!(!heard_in_one_read(&[]));
    assert!(!heard_in_one_read(&[3]));
    assert!(!heard_in_one_read(&[3, 3]));
    assert!(!heard_in_one_read(&[3, 3, 0]));
    assert!(!heard_in_one_read(&[0, 3, 3]));
    assert!(heard_in_one_read(&[3, 3, 3]));
    assert!(heard_in_one_read(&[3, 3, 3, 3]));
}

#[test]
fn the_signal_is_found_inside_other_output() {
    let mut stream: Vec<u8> = b"booting...\r\n".to_vec();
    stream.extend_from_slice(&[3, 3, 3]);
    stream.extend_from_slice(b"ignored");
    assert!(heard_in_one_read(&stream));
    assert!(heard_byte_by_byte(&stream));
}

#[test]
fn the_run_is_kept_across_reads() {
    let mut detector = ReadyDetector::new();
    assert!(!detector.feed(&[1, 2, 3]));
    assert_eq!(detector.run(), 1u8);
    assert!(!detector.feed(&[]));
    assert_eq!(detector.run(), 1u8);
    assert!(!detector.feed(&[3]));
    assert_eq!(detector.run(), 2u8);
    assert!(!detector.is_ready());
    assert!(detector.feed(&[3, 9]));
    assert!(detector.is_ready());
    assert_eq!(detector.run(), 0u8);
}

#[test]
fn another_byte_breaks_the_run_across_reads() {
    let mut detector = ReadyDetector::new();
    assert!(!detector.feed(&[3, 3]));
    assert!(!detector.feed(&[5]));
    assert_eq!(detector.run(), 0u8);
    assert!(!detector.feed(&[3]));
    assert!(!detector.feed(&[3, 4, 3, 3]));
    assert_eq!(detector.run(), 2u8);
    assert!(detector.feed(&[3]));
}

#[test]
fn once_heard_the_signal_stays_heard() {
    let mut detector = ReadyDetector::new();
    assert!(detector.feed(&[3, 3, 3]));
    assert!(detector.feed(&[0, 0, 0]));
    assert!(detector.feed(&[]));
    assert!(detector.is_ready());
}

#[test]
fn every_short_stream_triggers_exactly_when_it_holds_the_signal() {
    let alphabet = [3u8, 5u8];
    for len in 0usize..10 {
        for code in 0usize..(1 << len) {
            let stream: Vec<u8> = (0..len).map(|i| alphabet[(code >> i) & 1]).collect();
            let expected = holds_signal(&stream);
            assert_eq!(heard_in_one_read(&stream), expected, "{:?}", stream);
            assert_eq!(heard_byte_by_byte(&stream), expected, "{:?}", stream);
            for cut in 0..=len {
                let mut detector = ReadyDetector::new();
                detector.feed(&stream[..cut]);
                assert_eq!(detector.feed(&stream[cut..]), expected, "{:?} cut at {}", stream, cut);
            }
        }
    }
}
