//! The server's configuration, fixed at startup.
use vstd::prelude::*;

use crate::line::{LINE_BUFFER_LEN, MAX_LINE_LENGTH, MIN_LINE_LENGTH};

verus! {

/// Default upper bound of a line's random part.
pub const DEFAULT_MAX_LINE_LENGTH: u8 = 42;

/// Default listening port.
pub const DEFAULT_PORT: u16 = 22;

/// Default pause between two lines to the same client, in milliseconds.
pub const DEFAULT_DELAY_MILLIS: u32 = 10000;

/// Default admission ceiling.
pub const DEFAULT_MAX_CLIENTS: u32 = 2048;

/// `requested` brought into `[3, 253]`.
pub open spec fn clamped_line_length(requested: u8) -> u8 {
    if requested < MIN_LINE_LENGTH {
        MIN_LINE_LENGTH
    } else if requested > MAX_LINE_LENGTH {
        MAX_LINE_LENGTH
    } else {
        requested
    }
}

/// Clamps a requested maximum line length into `[3, 253]`.
pub fn clamp_line_length(requested: u8) -> (r: u8)
    ensures
        r == clamped_line_length(requested),
{
    if requested < MIN_LINE_LENGTH {
        MIN_LINE_LENGTH
    } else if requested > MAX_LINE_LENGTH {
        MAX_LINE_LENGTH
    } else {
        requested
    }
}

/// Settings shared by every part of the server; never changed once built.
#[derive(Clone, Copy, Debug)]
pub struct ServerConfig {
    pub max_line_length: u8,
    pub port: u16,
    pub delay_millis: u32,
    pub max_clients: u32,
}

impl ServerConfig {
    /// The line length lies in `[3, 253]`, and a line with its CRLF fits a
    /// working buffer.
    pub open spec fn wf(&self) -> bool {
        &&& MIN_LINE_LENGTH <= self.max_line_length <= MAX_LINE_LENGTH
        &&& self.max_line_length + 2 <= LINE_BUFFER_LEN
    }

    /// Builds the configuration, clamping the maximum line length.
    pub fn new(max_line_length: u8, port: u16, delay_millis: u32, max_clients: u32) -> (r:
        ServerConfig)
        ensures
            r.wf(),
            r.max_line_length == clamped_line_length(max_line_length),
            r.port == port,
            r.delay_millis == delay_millis,
            r.max_clients == max_clients,
    {
        ServerConfig {
            max_line_length: clamp_line_length(max_line_length),
            port,
            delay_millis,
            max_clients,
        }
    }
}

} // verus!
