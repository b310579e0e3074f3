use espc3::config::TcpServerConfig;
use espc3::error::Error;
use espc3::tcp_client_manager::PeerAddr;
use espc3::tcp_server::{bind_target, client_action, welcome_message, ClientAction, ReadResult};

#[test]
fn bind_fallback_sequence() {
    let c = TcpServerConfig::default();
    let t = bind_target(&c, 0).unwrap();
    assert_eq!((t.address, t.port), ("0.0.0.0", 8080));
    let t = bind_target(&c, 1).unwrap();
    assert_eq!((t.address, t.port), ("192.168.4.1", 8080));
    let t = bind_target(&c, 2).unwrap();
    assert_eq!((t.address, t.port), ("0.0.0.0", 8081));
    assert!(bind_target(&c, 3).is_none());
}

#[test]
fn no_next_port_after_the_last() {
    let c = TcpServerConfig { bind_address: "10.0.0.1", port: 65535, buffer_size: 16 };
    assert!(bind_target(&c, 2).is_none());
    assert_eq!(bind_target(&c, 1).unwrap().port, 65535);
}

#[test]
fn read_results_lead_to_actions() {
    assert_eq!(client_action(ReadResult::Received(0), b""), ClientAction::Disconnect);
    assert_eq!(client_action(ReadResult::Received(8), b"AT+BAUD?"), ClientAction::RunCommand);
    assert_eq!(client_action(ReadResult::Received(5), b"hello"), ClientAction::Forward);
    assert_eq!(client_action(ReadResult::Received(2), b"AT"), ClientAction::Forward);
    assert_eq!(client_action(ReadResult::WouldBlock, b""), ClientAction::PollAgain);
    assert_eq!(client_action(ReadResult::Failed, b""), ClientAction::Disconnect);
}

#[test]
fn welcome_banner() {
    let addr = PeerAddr { ip: u32::from_be_bytes([192, 168, 4, 2]), port: 54321 };
    let w = String::from_utf8(welcome_message(&addr, 115200)).unwrap();
    assert_eq!(
        w,
        "Welcome to ESP32 UART-TCP Bridge! Your client ID: 192.168.4.2:54321\r\nType AT+HELP for available commands\r\nCurrent UART baudrate: 115200\r\n"
    );
}

#[test]
fn error_messages() {
    let cases = vec![
        (Error::EspError("x".to_string()), "ESP-IDF error: x"),
        (Error::WiFiError("x".to_string()), "WiFi error: x"),
        (Error::TcpError("x".to_string()), "TCP error: x"),
        (Error::UartError("x".to_string()), "UART error: x"),
        (Error::ClientError("x".to_string()), "Client error: x"),
        (Error::StorageError("x".to_string()), "Storage error: x"),
        (Error::General("x".to_string()), "Error: x"),
    ];
    for (e, m) in cases {
        assert_eq!(String::from_utf8(e.message()).unwrap(), m);
        assert!(e.source().is_none());
    }
}

#[test]
fn io_error_converts() {
    let e: Error = std::io::Error::new(std::io::ErrorKind::Other, "boom").into();
    assert!(e.source().is_some());
    assert_eq!(String::from_utf8(e.message()).unwrap(), "I/O error: boom");
}
