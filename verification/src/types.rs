//! Shared protocol types.

use vstd::prelude::*;

verus! {

/// Result type for protocol operations.
pub type ProtocolResult<T> = Result<T, ProtocolError>;

/// Protocol error kinds.
#[derive(Debug, Clone, Copy, PartialEq, Eq, Structural)]
pub enum ProtocolError {
    /// Timeout waiting for data
    Timeout,
    /// Invalid command received
    InvalidCommand,
    /// Buffer overflow
    BufferOverflow,
    /// Checksum mismatch
    ChecksumError,
    /// Generic I/O error
    IoError,
}

impl ProtocolError {
    /// Human-readable description of the error.
    pub fn as_str(&self) -> (r: &'static str)
        ensures
            r@ == (match *self {
                ProtocolError::Timeout => "Timeout"@,
                ProtocolError::InvalidCommand => "Invalid command"@,
                ProtocolError::BufferOverflow => "Buffer overflow"@,
                ProtocolError::ChecksumError => "Checksum error"@,
                ProtocolError::IoError => "I/O error"@,
            }),
    {
        match self {
            ProtocolError::Timeout => "Timeout",
            ProtocolError::InvalidCommand => "Invalid command",
            ProtocolError::BufferOverflow => "Buffer overflow",
            ProtocolError::ChecksumError => "Checksum error",
            ProtocolError::IoError => "I/O error",
        }
    }
}

/// Byte-oriented serial link, implemented per platform.
pub trait SerialPort {
    /// Number of bytes available to read.
    fn available(&self) -> usize;

    /// Read one byte without blocking; `None` when nothing is available.
    fn read_byte(&mut self) -> Option<u8>;

    /// Write bytes to the port.
    fn write(&mut self, data: &[u8]);

    /// Flush pending writes.
    fn flush(&mut self);
}

} // verus!
