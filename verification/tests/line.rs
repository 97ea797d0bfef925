use serial_loader::line::DataBits;
use serial_loader::line::LineConfig;
use serial_loader::line::Parity;
use serial_loader::line::StopBits;
use serial_loader::line::READ_TIMEOUT_MS;

#[test]
fn the_line_is_8n1_with_a_short_timeout() {
    let line = LineConfig::new(921_600);
    assert_eq!(line.baud, 921_600u32);
    assert_eq!(line.data_bits, DataBits::Eight);
    assert_eq!(line.stop_bits, StopBits::One);
    assert_eq!(line.parity, Parity::NoParity);
    assert_eq!(line.timeout_ms, 10u64);
    assert_eq!(READ_TIMEOUT_MS, 10u64);
    assert_eq!(LineConfig::new(0).baud, 0u32);
    assert_eq!(LineConfig::new(u32::MAX).baud, u32::MAX);
}
