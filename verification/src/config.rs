use vstd::prelude::*;

verus! {

/// Default size in bytes of the write buffer and of the read buffer.
pub const DEFAULT_BUFFER_SIZE: usize = 4096;

/// Default number of numbered device nodes probed by the backend that must
/// search for a free one.
pub const DEFAULT_DEVICE_OPEN_ATTEMPTS: usize = 1000;

/// Backend-independent channel configuration, fixed at channel-open time.
///
/// Timeouts are in microseconds; `None` means block indefinitely.
#[derive(Clone, Copy, Debug, PartialEq, Eq)]
pub struct ChannelConfig {
    /// Size in bytes of the buffer used when writing frames.
    pub write_buffer_size: usize,
    /// Size in bytes of the buffer used when reading capture records.
    pub read_buffer_size: usize,
    /// Maximum wait per receive, in microseconds; `None` blocks.
    pub read_timeout_micros: Option<u64>,
    /// Maximum wait per send-readiness check, in microseconds; `None` blocks.
    pub write_timeout_micros: Option<u64>,
    /// Number of numbered device nodes to probe before giving up.
    pub device_open_attempts: usize,
}

impl Default for ChannelConfig {
    fn default() -> (c: ChannelConfig)
        ensures
            c.write_buffer_size == DEFAULT_BUFFER_SIZE,
            c.read_buffer_size == DEFAULT_BUFFER_SIZE,
            c.read_timeout_micros is None,
            c.write_timeout_micros is None,
            c.device_open_attempts == DEFAULT_DEVICE_OPEN_ATTEMPTS,
    {
        ChannelConfig {
            write_buffer_size: DEFAULT_BUFFER_SIZE,
            read_buffer_size: DEFAULT_BUFFER_SIZE,
            read_timeout_micros: None,
            write_timeout_micros: None,
            device_open_attempts: DEFAULT_DEVICE_OPEN_ATTEMPTS,
        }
    }
}

} // verus!
