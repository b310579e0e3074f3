//! The serial link: its configured speed, the rule for changing it at run time,
//! and the decisions of the loop that drains the line into the client registry.
use vstd::prelude::*;

use crate::config::UartConfig;

verus! {

/// The line speeds the bridge accepts.
pub open spec fn valid_baudrate(b: u32) -> bool {
    b == 9600 || b == 19200 || b == 38400 || b == 57600 || b == 115200 || b == 230400
        || b == 460800 || b == 921600 || b == 1500000
}

/// The speed a link starts with: a stored speed that is valid, else the configured one.
pub open spec fn initial_baudrate(configured: u32, stored: Option<u32>) -> u32 {
    match stored {
        Some(b) => if valid_baudrate(b) {
            b
        } else {
            configured
        },
        None => configured,
    }
}

/// The speed after a request to change it to `requested`: the request when it is
/// valid, else the current speed.
pub open spec fn baudrate_after(current: u32, requested: u32) -> u32 {
    if valid_baudrate(requested) {
        requested
    } else {
        current
    }
}

/// Why a speed change was refused.
#[derive(Debug, Clone, Copy, PartialEq, Eq, Structural)]
pub enum SpeedError {
    /// The requested speed is not one of the supported speeds.
    Unsupported(u32),
}

/// What the serial driver reported when a read failed.
#[derive(Debug, Clone, Copy, PartialEq, Eq, Structural)]
pub enum ReadFault {
    /// Nothing arrived before the read's deadline.
    Timeout,
    /// Any other failure of the driver.
    Failed,
}

/// The result of one read from the line as the bridge reports it: a timeout is
/// "no data", not a failure.
pub fn read_outcome(r: Result<usize, ReadFault>) -> (out: Result<usize, ReadFault>)
    ensures
        out == (match r {
            Ok(n) => Ok(n),
            Err(ReadFault::Timeout) => Ok(0),
            Err(ReadFault::Failed) => Err(ReadFault::Failed),
        }),
{
    match r {
        Ok(n) => Ok(n),
        Err(ReadFault::Timeout) => Ok(0),
        Err(ReadFault::Failed) => Err(ReadFault::Failed),
    }
}

/// The serial link's settings, of which only the speed changes after start-up.
pub struct UartManager {
    config: UartConfig,
}

impl View for UartManager {
    type V = UartConfig;

    closed spec fn view(&self) -> UartConfig {
        self.config
    }
}

impl UartManager {
    /// A link with `config`, whose speed is replaced by `stored` (the speed kept in
    /// non-volatile storage) when that is one of the supported speeds.
    pub fn new(config: UartConfig, stored: Option<u32>) -> (r: Self)
        ensures
            r@ == (UartConfig { baudrate: initial_baudrate(config.baudrate, stored), ..config }),
    {
        let mut config = config;
        if let Some(b) = stored {
            if Self::is_valid_baudrate(b) {
                config.baudrate = b;
            }
        }
        UartManager { config }
    }

    /// Whether `baudrate` is one of the supported speeds.
    pub fn is_valid_baudrate(baudrate: u32) -> (r: bool)
        ensures
            r == valid_baudrate(baudrate),
    {
        match baudrate {
            9600 | 19200 | 38400 | 57600 | 115200 | 230400 | 460800 | 921600 | 1500000 => true,
            _ => false,
        }
    }

    /// Changes the configured speed to `baudrate`. An unsupported speed is refused
    /// and leaves the configuration as it was.
    pub fn set_baudrate(&mut self, baudrate: u32) -> (r: Result<(), SpeedError>)
        ensures
            valid_baudrate(baudrate) ==> r is Ok,
            !valid_baudrate(baudrate) ==> r == Err::<(), SpeedError>(SpeedError::Unsupported(baudrate)),
            final(self)@ == (UartConfig {
                baudrate: baudrate_after(old(self)@.baudrate, baudrate),
                ..old(self)@
            }),
    {
        if !Self::is_valid_baudrate(baudrate) {
            return Err(SpeedError::Unsupported(baudrate));
        }
        self.config.baudrate = baudrate;
        Ok(())
    }

    /// The configured speed.
    pub fn get_baudrate(&self) -> (r: u32)
        ensures
            r == self@.baudrate,
    {
        self.config.baudrate
    }

    /// All settings of the link.
    pub fn config(&self) -> (r: UartConfig)
        ensures
            r == self@,
    {
        self.config
    }
}

/// After a successful change of speed, the link reports the new speed; a
/// refused change reports the old one.
pub proof fn lemma_set_then_get(current: u32, requested: u32)
    ensures
        valid_baudrate(requested) ==> baudrate_after(current, requested) == requested,
        !valid_baudrate(requested) ==> baudrate_after(current, requested) == current,
{
}

/// How many iterations pass between two looks at the number of clients.
pub const CLIENT_CHECK_PERIOD: u32 = 10;

/// Pause, in milliseconds, when no client is connected.
pub const IDLE_SLEEP_MS: u64 = 50;

/// Time without data, in milliseconds, after which polling slows down.
pub const RELAX_AFTER_MS: u64 = 100;

/// The longest pause between polls that slowing down leads to, in milliseconds.
pub const RELAXED_INTERVAL_MS: u64 = 5;

/// The pause between polls once the line has been quiet for a while: the relaxed
/// maximum, but never less than the shortest pause.
pub open spec fn relaxed_interval(min_interval_ms: u64) -> u64 {
    if min_interval_ms < RELAXED_INTERVAL_MS {
        RELAXED_INTERVAL_MS
    } else {
        min_interval_ms
    }
}

/// What the forwarding loop does after one read.
#[derive(Debug, Clone, Copy, PartialEq, Eq, Structural)]
pub struct ForwardStep {
    /// Whether the bytes just read go to every client
    pub broadcast: bool,
    /// Pause before the next iteration, in milliseconds
    pub sleep_ms: u64,
}

/// State of the loop that drains the serial line into the client registry. Times
/// are milliseconds on a clock that the caller keeps.
#[derive(Debug, Clone, Copy, PartialEq, Eq, Structural)]
pub struct ForwardLoop {
    /// Shortest pause between polls
    pub min_interval_ms: u64,
    /// Current pause between polls
    pub interval_ms: u64,
    /// Iterations since the client count was last looked at
    pub check_counter: u32,
    /// When data last arrived
    pub last_data_ms: u64,
}

impl ForwardLoop {
    /// The pause is the shortest one or the relaxed one, and the counter is below
    /// its period.
    pub open spec fn wf(&self) -> bool {
        &&& self.check_counter < CLIENT_CHECK_PERIOD
        &&& (self.interval_ms == self.min_interval_ms || self.interval_ms == relaxed_interval(
            self.min_interval_ms,
        ))
    }

    /// A loop that starts at time `now_ms` with the shortest pause `poll_interval_ms`.
    pub fn new(poll_interval_ms: u64, now_ms: u64) -> (r: Self)
        ensures
            r.wf(),
            r.min_interval_ms == poll_interval_ms,
            r.interval_ms == poll_interval_ms,
            r.check_counter == 0,
            r.last_data_ms == now_ms,
    {
        ForwardLoop {
            min_interval_ms: poll_interval_ms,
            interval_ms: poll_interval_ms,
            check_counter: 0,
            last_data_ms: now_ms,
        }
    }

    /// Starts an iteration. Returns whether the client count is to be looked at
    /// before reading, which is so on every `CLIENT_CHECK_PERIOD`-th iteration.
    pub fn begin_iteration(&mut self) -> (check: bool)
        requires
            old(self).wf(),
        ensures
            final(self).wf(),
            check == (old(self).check_counter + 1 >= CLIENT_CHECK_PERIOD),
            final(self).check_counter == (if check {
                0
            } else {
                old(self).check_counter + 1
            }),
            final(self).min_interval_ms == old(self).min_interval_ms,
            final(self).interval_ms == old(self).interval_ms,
            final(self).last_data_ms == old(self).last_data_ms,
    {
        self.check_counter = self.check_counter + 1;
        if self.check_counter >= CLIENT_CHECK_PERIOD {
            self.check_counter = 0;
            true
        } else {
            false
        }
    }

    /// The pause to take instead of reading, given the number of clients: with
    /// nobody to deliver to, the line is not read.
    pub fn idle_pause(client_count: usize) -> (r: Option<u64>)
        ensures
            r == (if client_count == 0 {
                Some(IDLE_SLEEP_MS)
            } else {
                None::<u64>
            }),
    {
        if client_count == 0 {
            Some(IDLE_SLEEP_MS)
        } else {
            None
        }
    }

    /// Records a read of `received` bytes at time `now_ms`. Data is broadcast and
    /// brings the pause back to the shortest one; a quiet line relaxes the pause
    /// once no data has come for more than `RELAX_AFTER_MS`.
    pub fn after_read(&mut self, received: usize, now_ms: u64) -> (r: ForwardStep)
        requires
            old(self).wf(),
        ensures
            final(self).wf(),
            r.broadcast == (received > 0),
            r.sleep_ms == final(self).interval_ms,
            final(self).min_interval_ms == old(self).min_interval_ms,
            final(self).check_counter == old(self).check_counter,
            received > 0 ==> final(self).interval_ms == old(self).min_interval_ms
                && final(self).last_data_ms == now_ms,
            received == 0 ==> final(self).last_data_ms == old(self).last_data_ms,
            received == 0 ==> final(self).interval_ms == (if now_ms > old(self).last_data_ms
                && now_ms - old(self).last_data_ms > RELAX_AFTER_MS {
                relaxed_interval(old(self).min_interval_ms)
            } else {
                old(self).interval_ms
            }),
    {
        if received > 0 {
            self.interval_ms = self.min_interval_ms;
            self.last_data_ms = now_ms;
            ForwardStep { broadcast: true, sleep_ms: self.interval_ms }
        } else {
            if now_ms > self.last_data_ms && now_ms - self.last_data_ms > RELAX_AFTER_MS {
                self.interval_ms = if self.min_interval_ms < RELAXED_INTERVAL_MS {
                    RELAXED_INTERVAL_MS
                } else {
                    self.min_interval_ms
                };
            }
            ForwardStep { broadcast: false, sleep_ms: self.interval_ms }
        }
    }

    /// The pause after a failed read: the failure is otherwise ignored.
    pub fn after_failure(&self) -> (r: u64)
        ensures
            r == self.interval_ms,
    {
        self.interval_ms
    }
}

} // verus!
