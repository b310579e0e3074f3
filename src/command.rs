//! The in-band command protocol: frames that begin with `AT+` are requests to the
//! bridge itself and are answered on the connection they came from.
use vstd::prelude::*;
use vstd::string::*;
use vstd::utf8::*;

use crate::text::{decimal, has_prefix, parse_u32, parse_u32_spec, push_bytes, push_decimal, starts_with, suffix_from};
use crate::uart::{valid_baudrate, UartManager};
use crate::config::UartConfig;

verus! {

/// Whether `data` is a command frame: at least three bytes, the first three being
/// the ASCII marker `A` (65), `T` (84), `+` (43).
pub open spec fn is_command_spec(data: Seq<u8>) -> bool {
    data.len() >= 3 && data[0] == 65 && data[1] == 84 && data[2] == 43
}

/// Whether `data` is a command frame: at least three bytes, the first three being
/// the ASCII marker `A` (65), `T` (84), `+` (43).
pub fn is_command(data: &[u8]) -> (r: bool)
    ensures
        r == is_command_spec(data@),
        r == (data@.len() >= 3 && data@[0] == 65 && data@[1] == 84 && data@[2] == 43),
{
    data.len() >= 3 && data[0] == 65 && data[1] == 84 && data[2] == 43
}

/// The end of every response line.
pub open spec fn crlf() -> Seq<u8> {
    "\r\n".spec_bytes()
}

/// Prefix of the request to change the line speed; the value follows it.
pub open spec fn set_prefix() -> Seq<u8> {
    "AT+BAUD=".spec_bytes()
}

/// Prefix of the request for the current line speed.
pub open spec fn query_prefix() -> Seq<u8> {
    "AT+BAUD?".spec_bytes()
}

/// Prefix of the request for the usage text.
pub open spec fn help_prefix() -> Seq<u8> {
    "AT+HELP".spec_bytes()
}

/// The text after the speed-change prefix.
pub open spec fn baud_value(t: Seq<u8>) -> Seq<u8> {
    t.subrange(set_prefix().len() as int, t.len() as int)
}

/// The usage text.
pub open spec fn help_reply() -> Seq<u8> {
    "\r\nAvailable commands:\r\n  AT+BAUD=<rate>  - Change UART baud rate\r\n  AT+BAUD?       - Query current UART baud rate\r\n  AT+HELP        - Show this help message\r\n\r\nSupported baud rates: 9600, 19200, 38400, 57600, 115200, 230400, 460800, 921600, 1500000\r\n".spec_bytes()
}

/// The answer to a speed change that took effect.
pub open spec fn changed_reply(b: u32) -> Seq<u8> {
    "OK: Baudrate changed to ".spec_bytes() + decimal(b as nat) + crlf()
}

/// The answer to a speed change that was refused.
pub open spec fn refused_reply(b: u32) -> Seq<u8> {
    "ERROR: Failed to set baudrate: UART error: Invalid baudrate: ".spec_bytes() + decimal(b as nat)
        + crlf()
}

/// The answer to a speed change whose value is not a number.
pub open spec fn bad_value_reply(v: Seq<u8>) -> Seq<u8> {
    "ERROR: Invalid baudrate value: ".spec_bytes() + v + crlf()
}

/// The answer to a query of the speed.
pub open spec fn current_reply(b: u32) -> Seq<u8> {
    "Current baudrate: ".spec_bytes() + decimal(b as nat) + crlf()
}

/// The answer to a command that is not known; it names the command.
pub open spec fn unknown_reply(t: Seq<u8>) -> Seq<u8> {
    "ERROR: Unknown command: ".spec_bytes() + t + crlf()
        + "Type AT+HELP for available commands".spec_bytes() + crlf()
}

/// The answer to a command frame that is not UTF-8 text.
pub open spec fn not_utf8_reply() -> Seq<u8> {
    "ERROR: Invalid command format (not UTF-8)\r\n".spec_bytes()
}

/// The answer to the command text `t` on a link whose speed is `speed`.
pub open spec fn reply_spec(t: Seq<u8>, speed: u32) -> Seq<u8> {
    if starts_with(t, set_prefix()) {
        match parse_u32_spec(baud_value(t)) {
            Some(b) => if valid_baudrate(b) {
                changed_reply(b)
            } else {
                refused_reply(b)
            },
            None => bad_value_reply(baud_value(t)),
        }
    } else if starts_with(t, query_prefix()) {
        current_reply(speed)
    } else if starts_with(t, help_prefix()) {
        help_reply()
    } else {
        unknown_reply(t)
    }
}

/// The speed that the command text `t` sets, if it sets one.
pub open spec fn applied_baudrate(t: Seq<u8>) -> Option<u32> {
    if starts_with(t, set_prefix()) {
        match parse_u32_spec(baud_value(t)) {
            Some(b) => if valid_baudrate(b) {
                Some(b)
            } else {
                None
            },
            None => None,
        }
    } else {
        None
    }
}

/// The link's settings after the command text `t`.
pub open spec fn config_after(t: Seq<u8>, before: UartConfig) -> UartConfig {
    match applied_baudrate(t) {
        Some(b) => UartConfig { baudrate: b, ..before },
        None => before,
    }
}

/// What running one command produced.
pub struct CommandOutcome {
    /// The bytes to send back to the connection the command came from
    pub response: Vec<u8>,
    /// The new line speed, when the command changed it; the caller applies it to
    /// the hardware and stores it
    pub new_baudrate: Option<u32>,
    /// Whether the command frame was UTF-8 text
    pub well_formed: bool,
}

/// Runs the command text `t` (already trimmed) against `uart`.
pub fn run_command_text(t: &[u8], uart: &mut UartManager) -> (r: CommandOutcome)
    ensures
        r.response@ == reply_spec(t@, old(uart)@.baudrate),
        r.new_baudrate == applied_baudrate(t@),
        r.well_formed,
        final(uart)@ == config_after(t@, old(uart)@),
{
    let mut out: Vec<u8> = Vec::new();
    let set_p = "AT+BAUD=".as_bytes();
    if has_prefix(t, set_p) {
        let value = suffix_from(t, set_p.len());
        match parse_u32(value.as_slice()) {
            Some(b) => {
                match uart.set_baudrate(b) {
                    Ok(()) => {
                        push_bytes(&mut out, "OK: Baudrate changed to ".as_bytes());
                        push_decimal(&mut out, b);
                        push_bytes(&mut out, "\r\n".as_bytes());
                        CommandOutcome { response: out, new_baudrate: Some(b), well_formed: true }
                    },
                    Err(_) => {
                        push_bytes(
                            &mut out,
                            "ERROR: Failed to set baudrate: UART error: Invalid baudrate: ".as_bytes(),
                        );
                        push_decimal(&mut out, b);
                        push_bytes(&mut out, "\r\n".as_bytes());
                        CommandOutcome { response: out, new_baudrate: None, well_formed: true }
                    },
                }
            },
            None => {
                push_bytes(&mut out, "ERROR: Invalid baudrate value: ".as_bytes());
                push_bytes(&mut out, value.as_slice());
                push_bytes(&mut out, "\r\n".as_bytes());
                CommandOutcome { response: out, new_baudrate: None, well_formed: true }
            },
        }
    } else if has_prefix(t, "AT+BAUD?".as_bytes()) {
        push_bytes(&mut out, "Current baudrate: ".as_bytes());
        push_decimal(&mut out, uart.get_baudrate());
        push_bytes(&mut out, "\r\n".as_bytes());
        CommandOutcome { response: out, new_baudrate: None, well_formed: true }
    } else if has_prefix(t, "AT+HELP".as_bytes()) {
        push_bytes(
            &mut out,
            "\r\nAvailable commands:\r\n  AT+BAUD=<rate>  - Change UART baud rate\r\n  AT+BAUD?       - Query current UART baud rate\r\n  AT+HELP        - Show this help message\r\n\r\nSupported baud rates: 9600, 19200, 38400, 57600, 115200, 230400, 460800, 921600, 1500000\r\n".as_bytes(),
        );
        CommandOutcome { response: out, new_baudrate: None, well_formed: true }
    } else {
        push_bytes(&mut out, "ERROR: Unknown command: ".as_bytes());
        push_bytes(&mut out, t);
        push_bytes(&mut out, "\r\n".as_bytes());
        push_bytes(&mut out, "Type AT+HELP for available commands".as_bytes());
        push_bytes(&mut out, "\r\n".as_bytes());
        CommandOutcome { response: out, new_baudrate: None, well_formed: true }
    }
}

/// Relies on `std::str::from_utf8`: it succeeds exactly on valid UTF-8, and the
/// text it returns is made of the same bytes.
#[verifier::external_body]
fn utf8_text(data: &[u8]) -> (r: Option<&str>)
    ensures
        r is Some <==> valid_utf8(data@),
        match r {
            Some(s) => s.spec_bytes() == data@,
            None => true,
        },
{
    std::str::from_utf8(data).ok()
}

/// The text `s` without leading and trailing white space, as `str::trim` gives it.
pub uninterp spec fn trimmed(s: Seq<char>) -> Seq<char>;

/// Relies on `str::trim`: the result depends on the characters of `s` alone.
#[verifier::external_body]
fn trim_text(s: &str) -> (r: &str)
    ensures
        r@ == trimmed(s@),
{
    s.trim()
}

/// The command text of the frame `data`: its characters, trimmed, as bytes.
pub open spec fn command_text(data: Seq<u8>) -> Seq<u8> {
    encode_utf8(trimmed(decode_utf8(data)))
}

/// Runs the command frame `data` against `uart`. A frame that is not UTF-8 text
/// is answered with an error and changes nothing; otherwise the trimmed text is
/// run as `run_command_text` says.
pub fn process_command(data: &[u8], uart: &mut UartManager) -> (r: CommandOutcome)
    ensures
        !valid_utf8(data@) ==> {
            &&& r.response@ == not_utf8_reply()
            &&& r.new_baudrate is None
            &&& !r.well_formed
            &&& final(uart)@ == old(uart)@
        },
        valid_utf8(data@) ==> {
            &&& r.response@ == reply_spec(command_text(data@), old(uart)@.baudrate)
            &&& r.new_baudrate == applied_baudrate(command_text(data@))
            &&& r.well_formed
            &&& final(uart)@ == config_after(command_text(data@), old(uart)@)
        },
{
    match utf8_text(data) {
        None => {
            let mut out: Vec<u8> = Vec::new();
            push_bytes(&mut out, "ERROR: Invalid command format (not UTF-8)\r\n".as_bytes());
            CommandOutcome { response: out, new_baudrate: None, well_formed: false }
        },
        Some(s) => {
            let t = trim_text(s);
            proof {
                encode_utf8_decode_utf8(s@);
            }
            run_command_text(t.as_bytes(), uart)
        },
    }
}

} // verus!
