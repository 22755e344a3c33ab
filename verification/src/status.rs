//! The counters that status frames report to the server.

use vstd::prelude::*;

verus! {

/// Event code carried by a status frame.
#[derive(Clone, Copy, Debug, PartialEq, Eq, Structural)]
pub enum StatusCode {
    Connect,
    DecoderReady,
    StreamEstablished,
    Flushed,
    HeadersReceived,
    BufferThreshold,
    NotSupported,
    OutputUnderrun,
    Pause,
    Resume,
    TrackStarted,
    Timer,
    Underrun,
}

/// Milliseconds in `micros` microseconds, reduced to 32 bits.
pub open spec fn spec_elapsed_millis(micros: u64) -> u32 {
    ((micros / 1_000) % 0x1_0000_0000) as u32
}

/// Whole seconds in `micros` microseconds, reduced to 32 bits.
pub open spec fn spec_elapsed_seconds(micros: u64) -> u32 {
    ((micros / 1_000_000) % 0x1_0000_0000) as u32
}

/// The counters that the player keeps for its status frames.
#[derive(Clone, Copy, Debug, PartialEq, Eq, Structural)]
pub struct StatusData {
    /// Line ends seen in the request headers of the streams so far, modulo 256.
    pub crlf: u8,
    pub output_buffer_size: u32,
    pub output_buffer_fullness: u32,
    pub elapsed_seconds: u32,
    pub elapsed_milliseconds: u32,
    /// The server's timestamp to echo, in microseconds.
    pub timestamp: u64,
}

impl StatusData {
    /// Counters with every field zero.
    pub open spec fn spec_new() -> StatusData {
        StatusData {
            crlf: 0,
            output_buffer_size: 0,
            output_buffer_fullness: 0,
            elapsed_seconds: 0,
            elapsed_milliseconds: 0,
            timestamp: 0,
        }
    }

    /// The counters with the playback position set to `micros` microseconds.
    pub open spec fn with_elapsed(self, micros: u64) -> StatusData {
        StatusData {
            elapsed_milliseconds: spec_elapsed_millis(micros),
            elapsed_seconds: spec_elapsed_seconds(micros),
            ..self
        }
    }

    /// The counters after playback was flushed: position and output buffer
    /// figures are zero, the rest is kept.
    pub open spec fn flushed(self) -> StatusData {
        StatusData {
            elapsed_milliseconds: 0,
            elapsed_seconds: 0,
            output_buffer_size: 0,
            output_buffer_fullness: 0,
            ..self
        }
    }

    /// The counters with `count` more line ends, modulo 256.
    pub open spec fn with_crlf(self, count: u8) -> StatusData {
        StatusData { crlf: ((self.crlf + count) % 256) as u8, ..self }
    }

    /// Counters with every field zero.
    pub fn new() -> (status: StatusData)
        ensures
            status == StatusData::spec_new(),
    {
        StatusData {
            crlf: 0,
            output_buffer_size: 0,
            output_buffer_fullness: 0,
            elapsed_seconds: 0,
            elapsed_milliseconds: 0,
            timestamp: 0,
        }
    }

    /// Count `num_crlf` more line ends, wrapping at 256.
    pub fn add_crlf(&mut self, num_crlf: u8)
        ensures
            *final(self) == old(self).with_crlf(num_crlf),
    {
        self.crlf = self.crlf.wrapping_add(num_crlf);
    }

    pub fn set_output_buffer_size(&mut self, output_buffer_size: u32)
        ensures
            *final(self) == (StatusData { output_buffer_size, ..*old(self) }),
    {
        self.output_buffer_size = output_buffer_size;
    }

    pub fn set_output_buffer_fullness(&mut self, output_buffer_fullness: u32)
        ensures
            *final(self) == (StatusData { output_buffer_fullness, ..*old(self) }),
    {
        self.output_buffer_fullness = output_buffer_fullness;
    }

    pub fn set_elapsed_seconds(&mut self, elapsed_seconds: u32)
        ensures
            *final(self) == (StatusData { elapsed_seconds, ..*old(self) }),
    {
        self.elapsed_seconds = elapsed_seconds;
    }

    pub fn set_elapsed_milli_seconds(&mut self, elapsed_milli_seconds: u32)
        ensures
            *final(self) == (StatusData { elapsed_milliseconds: elapsed_milli_seconds, ..*old(self) }),
    {
        self.elapsed_milliseconds = elapsed_milli_seconds;
    }

    pub fn set_timestamp(&mut self, timestamp: u64)
        ensures
            *final(self) == (StatusData { timestamp, ..*old(self) }),
    {
        self.timestamp = timestamp;
    }

    /// Set both position counters from a playback position in microseconds.
    pub fn set_elapsed(&mut self, micros: u64)
        ensures
            *final(self) == old(self).with_elapsed(micros),
    {
        self.elapsed_milliseconds = ((micros / 1_000) % 0x1_0000_0000) as u32;
        self.elapsed_seconds = ((micros / 1_000_000) % 0x1_0000_0000) as u32;
    }

    /// Zero the position and the output buffer figures.
    pub fn flush(&mut self)
        ensures
            *final(self) == old(self).flushed(),
    {
        self.elapsed_milliseconds = 0;
        self.elapsed_seconds = 0;
        self.output_buffer_size = 0;
        self.output_buffer_fullness = 0;
    }
}

impl Default for StatusData {
    fn default() -> (status: StatusData)
        ensures
            status == StatusData::spec_new(),
    {
        StatusData::new()
    }
}

} // verus!
