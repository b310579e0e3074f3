//! A bridge between one serial line and any number of TCP clients: the client
//! registry, the in-band command protocol, the serial link's speed state and the
//! decisions of the forwarding and connection loops.
pub mod command;
pub mod config;
pub mod error;
pub mod tcp_client_manager;
pub mod tcp_server;
pub mod text;
pub mod uart;

pub use config::{create_config, AppConfig, TcpServerConfig, UartConfig, WiFiConfig};
pub use error::Error;
pub use tcp_client_manager::{PeerAddr, TcpClientManager};
pub use uart::UartManager;
