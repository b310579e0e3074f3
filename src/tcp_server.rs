//! The connection server's decisions: where to bind, what each read from a client
//! leads to, and the banner a new client receives.
use vstd::prelude::*;
use vstd::string::*;

use crate::command::{crlf, is_command, is_command_spec};
use crate::config::TcpServerConfig;
use crate::tcp_client_manager::PeerAddr;
use crate::text::{decimal, push_bytes, push_decimal};

verus! {

/// An address and port to try to listen on.
#[derive(Debug, Clone, Copy)]
pub struct BindTarget {
    /// The local address
    pub address: &'static str,
    /// The port
    pub port: u16,
}

/// The `attempt`-th place to listen on (counting from zero): the configured
/// address and port, then the access point's own address `192.168.4.1` on the
/// same port, then the configured address on the next port. There is no fourth
/// place, nor a third when the port is the last one.
pub fn bind_target(config: &TcpServerConfig, attempt: usize) -> (r: Option<BindTarget>)
    ensures
        attempt == 0 ==> (r matches Some(t) && t.address == config.bind_address && t.port
            == config.port),
        attempt == 1 ==> (r matches Some(t) && t.address@ == "192.168.4.1"@ && t.port == config.port),
        attempt == 2 && config.port < u16::MAX ==> (r matches Some(t) && t.address
            == config.bind_address && t.port == config.port + 1),
        attempt == 2 && config.port == u16::MAX ==> r is None,
        attempt > 2 ==> r is None,
{
    if attempt == 0 {
        Some(BindTarget { address: config.bind_address, port: config.port })
    } else if attempt == 1 {
        Some(BindTarget { address: "192.168.4.1", port: config.port })
    } else if attempt == 2 && config.port < u16::MAX {
        Some(BindTarget { address: config.bind_address, port: config.port + 1 })
    } else {
        None
    }
}

/// What one read from a client's socket returned.
#[derive(Debug, Clone, Copy, PartialEq, Eq, Structural)]
pub enum ReadResult {
    /// This many bytes arrived; zero means the peer closed the connection.
    Received(usize),
    /// Nothing to read now (would block or timed out).
    WouldBlock,
    /// Any other failure.
    Failed,
}

/// What a connection's handler does next.
#[derive(Debug, Clone, Copy, PartialEq, Eq, Structural)]
pub enum ClientAction {
    /// Answer the bytes as a command; they do not go to the serial line.
    RunCommand,
    /// Send the bytes to the serial line unchanged.
    Forward,
    /// Pause briefly and read again.
    PollAgain,
    /// Deregister the client and end the handler.
    Disconnect,
}

/// The handler's next step after a read whose bytes are `payload`.
pub fn client_action(read: ReadResult, payload: &[u8]) -> (r: ClientAction)
    requires
        read matches ReadResult::Received(n) ==> n == payload@.len(),
    ensures
        r == (match read {
            ReadResult::Received(n) => if n == 0 {
                ClientAction::Disconnect
            } else if is_command_spec(payload@) {
                ClientAction::RunCommand
            } else {
                ClientAction::Forward
            },
            ReadResult::WouldBlock => ClientAction::PollAgain,
            ReadResult::Failed => ClientAction::Disconnect,
        }),
{
    match read {
        ReadResult::Received(n) => {
            if n == 0 {
                ClientAction::Disconnect
            } else if is_command(payload) {
                ClientAction::RunCommand
            } else {
                ClientAction::Forward
            }
        },
        ReadResult::WouldBlock => ClientAction::PollAgain,
        ReadResult::Failed => ClientAction::Disconnect,
    }
}

/// The four octets of an IPv4 address, most significant first.
pub open spec fn octets(ip: u32) -> (u32, u32, u32, u32) {
    (ip / 0x100_0000, (ip / 0x1_0000) % 256, (ip / 256) % 256, ip % 256)
}

/// `a.b.c.d:port`, the usual text of an IPv4 socket address.
pub open spec fn peer_text(addr: PeerAddr) -> Seq<u8> {
    let (a, b, c, d) = octets(addr.ip);
    decimal(a as nat) + ".".spec_bytes() + decimal(b as nat) + ".".spec_bytes() + decimal(c as nat)
        + ".".spec_bytes() + decimal(d as nat) + ":".spec_bytes() + decimal(addr.port as nat)
}

/// The banner sent to a client when it connects.
pub open spec fn welcome_spec(addr: PeerAddr, baudrate: u32) -> Seq<u8> {
    "Welcome to ESP32 UART-TCP Bridge! Your client ID: ".spec_bytes() + peer_text(addr) + crlf()
        + "Type AT+HELP for available commands".spec_bytes() + crlf()
        + "Current UART baudrate: ".spec_bytes() + decimal(baudrate as nat) + crlf()
}

/// Appends the text of `addr` to `out`.
pub fn push_peer(out: &mut Vec<u8>, addr: &PeerAddr)
    ensures
        final(out)@ == old(out)@ + peer_text(*addr),
{
    let ip = addr.ip;
    push_decimal(out, ip / 0x100_0000);
    push_bytes(out, ".".as_bytes());
    push_decimal(out, (ip / 0x1_0000) % 256);
    push_bytes(out, ".".as_bytes());
    push_decimal(out, (ip / 256) % 256);
    push_bytes(out, ".".as_bytes());
    push_decimal(out, ip % 256);
    push_bytes(out, ":".as_bytes());
    push_decimal(out, addr.port as u32);
    assert(final(out)@ =~= old(out)@ + peer_text(*addr));
}

/// The banner for a client at `addr` on a link running at `baudrate`: its
/// address, where to find help, and the current speed.
pub fn welcome_message(addr: &PeerAddr, baudrate: u32) -> (r: Vec<u8>)
    ensures
        r@ == welcome_spec(*addr, baudrate),
{
    let mut out: Vec<u8> = Vec::new();
    push_bytes(&mut out, "Welcome to ESP32 UART-TCP Bridge! Your client ID: ".as_bytes());
    push_peer(&mut out, addr);
    push_bytes(&mut out, "\r\n".as_bytes());
    push_bytes(&mut out, "Type AT+HELP for available commands".as_bytes());
    push_bytes(&mut out, "\r\n".as_bytes());
    push_bytes(&mut out, "Current UART baudrate: ".as_bytes());
    push_decimal(&mut out, baudrate);
    push_bytes(&mut out, "\r\n".as_bytes());
    assert(out@ =~= welcome_spec(*addr, baudrate));
    out
}

} // verus!
