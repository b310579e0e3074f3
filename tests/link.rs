use espc3::config::{create_config, UartConfig};
use espc3::text::{parse_u32, push_decimal};
use espc3::uart::{read_outcome, ForwardLoop, ReadFault, SpeedError, UartManager};

#[test]
fn every_listed_speed_is_valid() {
    for b in [9600, 19200, 38400, 57600, 115200, 230400, 460800, 921600, 1500000] {
        assert!(UartManager::is_valid_baudrate(b));
    }
    for b in [0, 1, 300, 9601, 14400, 2000000, u32::MAX] {
        assert!(!UartManager::is_valid_baudrate(b));
    }
}

#[test]
fn refused_speed_leaves_config() {
    let mut uart = UartManager::new(UartConfig::default(), None);
    assert_eq!(uart.set_baudrate(12345), Err(SpeedError::Unsupported(12345)));
    assert_eq!(uart.get_baudrate(), 115200);
}

#[test]
fn set_then_get() {
    let mut uart = UartManager::new(UartConfig::default(), None);
    assert_eq!(uart.set_baudrate(921600), Ok(()));
    assert_eq!(uart.get_baudrate(), 921600);
    assert_eq!(uart.config().buffer_size, 1024);
}

#[test]
fn stored_speed_used_when_valid() {
    assert_eq!(UartManager::new(UartConfig::default(), Some(9600)).get_baudrate(), 9600);
    assert_eq!(UartManager::new(UartConfig::default(), Some(1234)).get_baudrate(), 115200);
    assert_eq!(UartManager::new(UartConfig::default(), None).get_baudrate(), 115200);
}

#[test]
fn timeout_is_no_data() {
    assert_eq!(read_outcome(Ok(5)), Ok(5));
    assert_eq!(read_outcome(Err(ReadFault::Timeout)), Ok(0));
    assert_eq!(read_outcome(Err(ReadFault::Failed)), Err(ReadFault::Failed));
}

#[test]
fn client_count_checked_every_tenth_iteration() {
    let mut fl = ForwardLoop::new(1, 0);
    for _ in 0..9 {
        assert!(!fl.begin_iteration());
    }
    assert!(fl.begin_iteration());
    assert!(!fl.begin_iteration());
    assert_eq!(ForwardLoop::idle_pause(0), Some(50));
    assert_eq!(ForwardLoop::idle_pause(3), None);
}

#[test]
fn polling_relaxes_when_quiet_and_tightens_on_data() {
    let mut fl = ForwardLoop::new(1, 1000);
    let s = fl.after_read(0, 1050);
    assert!(!s.broadcast);
    assert_eq!(s.sleep_ms, 1);
    let s = fl.after_read(0, 1101);
    assert_eq!(s.sleep_ms, 5);
    assert_eq!(fl.after_failure(), 5);
    let s = fl.after_read(12, 1102);
    assert!(s.broadcast);
    assert_eq!(s.sleep_ms, 1);
    assert_eq!(fl.last_data_ms, 1102);
}

#[test]
fn slow_minimum_is_kept_when_relaxing() {
    let mut fl = ForwardLoop::new(20, 0);
    assert_eq!(fl.after_read(0, 500).sleep_ms, 20);
}

#[test]
fn decimal_numbers() {
    let mut v = Vec::new();
    push_decimal(&mut v, 0);
    assert_eq!(v, b"0");
    let mut v = b"x".to_vec();
    push_decimal(&mut v, 4294967295);
    assert_eq!(v, b"x4294967295");
    assert_eq!(parse_u32(b"115200"), Some(115200));
    assert_eq!(parse_u32(b"+7"), Some(7));
    assert_eq!(parse_u32(b"0004294967295"), Some(4294967295));
    assert_eq!(parse_u32(b"4294967296"), None);
    assert_eq!(parse_u32(b""), None);
    assert_eq!(parse_u32(b"+"), None);
    assert_eq!(parse_u32(b"-1"), None);
    assert_eq!(parse_u32(b"12a"), None);
    assert_eq!(parse_u32(b" 1"), None);
}

#[test]
fn default_configuration() {
    let c = create_config();
    assert_eq!(c.tcp_server.bind_address, "0.0.0.0");
    assert_eq!(c.tcp_server.port, 8080);
    assert_eq!(c.tcp_server.buffer_size, 2048);
    assert_eq!(c.uart.baudrate, 115200);
    assert_eq!(c.uart.buffer_size, 1024);
    assert_eq!(c.uart.poll_interval_ms, 1);
    assert_eq!(c.wifi.ap_ssid, "ESP32-UART-Bridge");
    assert_eq!(c.wifi.ap_password, "12345678");
    assert_eq!(c.wifi.ap_channel, 1);
    assert_eq!(c.wifi.ap_max_connections, 4);
}
