//! Settings of the radio, the TCP server and the serial line, with their defaults.
use vstd::prelude::*;

verus! {

/// Radio settings: the network to join as a station and the access point to offer.
#[derive(Debug, Clone)]
pub struct WiFiConfig {
    /// SSID for client mode (at most 32 bytes)
    pub client_ssid: String,
    /// Password for client mode (at most 64 bytes)
    pub client_password: String,
    /// SSID for access point mode (at most 32 bytes)
    pub ap_ssid: String,
    /// Password for access point mode (at most 64 bytes)
    pub ap_password: String,
    /// WiFi channel for access point mode
    pub ap_channel: u8,
    /// Maximum number of connections for access point mode
    pub ap_max_connections: u16,
}

impl Default for WiFiConfig {
    fn default() -> (r: Self)
        ensures
            r.client_ssid@ == "your_wifi_ssid"@,
            r.client_password@ == "your_wifi_password"@,
            r.ap_ssid@ == "ESP32-UART-Bridge"@,
            r.ap_password@ == "12345678"@,
            r.ap_channel == 1,
            r.ap_max_connections == 4,
    {
        WiFiConfig {
            client_ssid: "your_wifi_ssid".to_owned(),
            client_password: "your_wifi_password".to_owned(),
            ap_ssid: "ESP32-UART-Bridge".to_owned(),
            ap_password: "12345678".to_owned(),
            ap_channel: 1,
            ap_max_connections: 4,
        }
    }
}

/// TCP server settings.
#[derive(Debug, Clone, Copy)]
pub struct TcpServerConfig {
    /// Address the server binds to first
    pub bind_address: &'static str,
    /// Port the server binds to first
    pub port: u16,
    /// Size of each connection's read buffer
    pub buffer_size: usize,
}

impl Default for TcpServerConfig {
    fn default() -> (r: Self)
        ensures
            r.bind_address@ == "0.0.0.0"@,
            r.port == 8080,
            r.buffer_size == 2048,
    {
        TcpServerConfig { bind_address: "0.0.0.0", port: 8080, buffer_size: 2048 }
    }
}

/// Serial line settings.
#[derive(Debug, Clone, Copy)]
pub struct UartConfig {
    /// Line speed in bits per second
    pub baudrate: u32,
    /// Size of the buffer the forwarding loop reads into
    pub buffer_size: usize,
    /// Shortest pause between two polls of the line, in milliseconds
    pub poll_interval_ms: u64,
}

impl Default for UartConfig {
    fn default() -> (r: Self)
        ensures
            r.baudrate == 115_200,
            r.buffer_size == 1024,
            r.poll_interval_ms == 1,
    {
        UartConfig { baudrate: 115_200, buffer_size: 1024, poll_interval_ms: 1 }
    }
}

/// All settings of the bridge.
#[derive(Debug, Clone)]
pub struct AppConfig {
    /// Radio settings
    pub wifi: WiFiConfig,
    /// TCP server settings
    pub tcp_server: TcpServerConfig,
    /// Serial line settings
    pub uart: UartConfig,
}

impl Default for AppConfig {
    fn default() -> (r: Self)
        ensures
            r.wifi.client_ssid@ == "your_wifi_ssid"@,
            r.wifi.client_password@ == "your_wifi_password"@,
            r.wifi.ap_ssid@ == "ESP32-UART-Bridge"@,
            r.wifi.ap_password@ == "12345678"@,
            r.wifi.ap_channel == 1,
            r.wifi.ap_max_connections == 4,
            r.tcp_server.bind_address@ == "0.0.0.0"@,
            r.tcp_server.port == 8080,
            r.tcp_server.buffer_size == 2048,
            r.uart.baudrate == 115_200,
            r.uart.buffer_size == 1024,
            r.uart.poll_interval_ms == 1,
    {
        AppConfig {
            wifi: WiFiConfig::default(),
            tcp_server: TcpServerConfig::default(),
            uart: UartConfig::default(),
        }
    }
}

/// The default settings.
pub fn create_config() -> (r: AppConfig)
    ensures
        r.wifi.client_ssid@ == "your_wifi_ssid"@,
        r.wifi.client_password@ == "your_wifi_password"@,
        r.wifi.ap_ssid@ == "ESP32-UART-Bridge"@,
        r.wifi.ap_password@ == "12345678"@,
        r.wifi.ap_channel == 1,
        r.wifi.ap_max_connections == 4,
        r.tcp_server.bind_address@ == "0.0.0.0"@,
        r.tcp_server.port == 8080,
        r.tcp_server.buffer_size == 2048,
        r.uart.baudrate == 115_200,
        r.uart.buffer_size == 1024,
        r.uart.poll_interval_ms == 1,
{
    AppConfig::default()
}

} // verus!
