use espc3::command::{is_command, process_command, run_command_text};
use espc3::config::UartConfig;
use espc3::uart::UartManager;

fn text(v: &[u8]) -> String {
    String::from_utf8(v.to_vec()).unwrap()
}

fn link() -> UartManager {
    UartManager::new(UartConfig::default(), None)
}

#[test]
fn command_marker() {
    assert!(is_command(b"AT+"));
    assert!(is_command(b"AT+BAUD?"));
    assert!(!is_command(b""));
    assert!(!is_command(b"A"));
    assert!(!is_command(b"AT"));
    assert!(!is_command(b"at+help"));
    assert!(!is_command(b"XAT+"));
    assert!(!is_command(b"hello"));
}

#[test]
fn change_query_and_unknown_scenario() {
    let mut uart = UartManager::new(UartConfig { baudrate: 9600, buffer_size: 1024, poll_interval_ms: 1 }, None);
    let r = process_command(b"AT+BAUD=115200", &mut uart);
    assert_eq!(text(&r.response), "OK: Baudrate changed to 115200\r\n");
    assert_eq!(r.new_baudrate, Some(115200));
    assert!(r.well_formed);
    let r = process_command(b"AT+BAUD?", &mut uart);
    assert_eq!(text(&r.response), "Current baudrate: 115200\r\n");
    let r = process_command(b"AT+BOGUS", &mut uart);
    assert_eq!(
        text(&r.response),
        "ERROR: Unknown command: AT+BOGUS\r\nType AT+HELP for available commands\r\n"
    );
    assert_eq!(uart.get_baudrate(), 115200);
}

#[test]
fn surrounding_whitespace_is_trimmed() {
    let mut uart = link();
    let r = process_command(b"  AT+BAUD=9600\r\n", &mut uart);
    assert_eq!(text(&r.response), "OK: Baudrate changed to 9600\r\n");
    assert_eq!(uart.get_baudrate(), 9600);
    let r = process_command(b"AT+BAUD?\r\n", &mut uart);
    assert_eq!(text(&r.response), "Current baudrate: 9600\r\n");
}

#[test]
fn unsupported_speed_is_refused() {
    let mut uart = link();
    let r = process_command(b"AT+BAUD=12345", &mut uart);
    assert_eq!(
        text(&r.response),
        "ERROR: Failed to set baudrate: UART error: Invalid baudrate: 12345\r\n"
    );
    assert_eq!(r.new_baudrate, None);
    assert_eq!(uart.get_baudrate(), 115200);
}

#[test]
fn non_numeric_speed_is_reported() {
    let mut uart = link();
    let r = process_command(b"AT+BAUD=fast", &mut uart);
    assert_eq!(text(&r.response), "ERROR: Invalid baudrate value: fast\r\n");
    let r = process_command(b"AT+BAUD=99999999999", &mut uart);
    assert_eq!(text(&r.response), "ERROR: Invalid baudrate value: 99999999999\r\n");
    let r = process_command(b"AT+BAUD=", &mut uart);
    assert_eq!(text(&r.response), "ERROR: Invalid baudrate value: \r\n");
    assert_eq!(uart.get_baudrate(), 115200);
}

#[test]
fn plus_sign_is_accepted() {
    let mut uart = link();
    let r = process_command(b"AT+BAUD=+57600", &mut uart);
    assert_eq!(text(&r.response), "OK: Baudrate changed to 57600\r\n");
}

#[test]
fn help_lists_commands_and_speeds() {
    let mut uart = link();
    let r = run_command_text(b"AT+HELP", &mut uart);
    assert_eq!(
        text(&r.response),
        "\r\nAvailable commands:\r\n  AT+BAUD=<rate>  - Change UART baud rate\r\n  AT+BAUD?       - Query current UART baud rate\r\n  AT+HELP        - Show this help message\r\n\r\nSupported baud rates: 9600, 19200, 38400, 57600, 115200, 230400, 460800, 921600, 1500000\r\n"
    );
}

#[test]
fn invalid_utf8_frame() {
    let mut uart = link();
    let r = process_command(&[b'A', b'T', b'+', 0xff, 0xfe], &mut uart);
    assert_eq!(text(&r.response), "ERROR: Invalid command format (not UTF-8)\r\n");
    assert!(!r.well_formed);
    assert_eq!(r.new_baudrate, None);
}
