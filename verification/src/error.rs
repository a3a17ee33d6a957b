//! Network error types.

use crate::text::{decimal, push_decimal};
use vstd::prelude::*;

verus! {

/// Errors of the network stack.
#[derive(Debug, Clone, PartialEq, Eq)]
pub enum NetworkError {
    ProtocolNotAvailable,
    InitializationFailed,
    DnsResolutionFailed,
    ConnectionFailed,
    NotConnected,
    Timeout,
    HttpError(u16),
    InvalidUrl,
    InvalidResponse,
    FileError,
    OutOfMemory,
    Cancelled,
    TlsError,
    /// TLS/HTTPS is not supported - use HTTP URLs
    TlsNotSupported,
    /// Device-level error with description.
    DeviceError(String),
    /// Buffer too small for operation.
    BufferTooSmall,
    /// Response exceeded size limit.
    ResponseTooLarge,
    /// Too many redirects.
    TooManyRedirects,
    /// Send operation failed.
    SendFailed,
    /// Receive operation failed.
    ReceiveFailed,
    /// Receive error from device.
    ReceiveError,
    /// Unexpected end of stream.
    UnexpectedEof,
    /// Device not ready.
    DeviceNotReady,
    /// All buffers are in use.
    BufferExhausted,
    /// Packet too large to transmit.
    PacketTooLarge,
    Unknown,
}

pub type Result<T> = core::result::Result<T, NetworkError>;

/// The human-readable description of an error.
pub open spec fn error_message(e: NetworkError) -> Seq<char> {
    match e {
        NetworkError::ProtocolNotAvailable => "Network protocol not available"@,
        NetworkError::InitializationFailed => "Network initialization failed"@,
        NetworkError::DnsResolutionFailed => "DNS resolution failed"@,
        NetworkError::ConnectionFailed => "Connection failed"@,
        NetworkError::NotConnected => "Not connected"@,
        NetworkError::Timeout => "Request timed out"@,
        NetworkError::HttpError(code) => "HTTP error: "@ + decimal(code as nat),
        NetworkError::InvalidUrl => "Invalid URL"@,
        NetworkError::InvalidResponse => "Invalid response from server"@,
        NetworkError::FileError => "File I/O error"@,
        NetworkError::OutOfMemory => "Out of memory"@,
        NetworkError::Cancelled => "Operation cancelled"@,
        NetworkError::TlsError => "TLS/HTTPS error"@,
        NetworkError::TlsNotSupported => "HTTPS not supported - use HTTP URL"@,
        NetworkError::DeviceError(msg) => "Device error: "@ + msg@,
        NetworkError::BufferTooSmall => "Buffer too small"@,
        NetworkError::ResponseTooLarge => "Response too large"@,
        NetworkError::TooManyRedirects => "Too many redirects"@,
        NetworkError::SendFailed => "Send failed"@,
        NetworkError::ReceiveFailed => "Receive failed"@,
        NetworkError::ReceiveError => "Device receive error"@,
        NetworkError::UnexpectedEof => "Unexpected end of stream"@,
        NetworkError::DeviceNotReady => "Device not ready"@,
        NetworkError::BufferExhausted => "All buffers in use"@,
        NetworkError::PacketTooLarge => "Packet too large"@,
        NetworkError::Unknown => "Unknown error"@,
    }
}

impl NetworkError {
    /// Human-readable description of the error.
    pub fn message(&self) -> (r: String)
        ensures
            r@ == error_message(*self),
    {
        let lit = match self {
            NetworkError::ProtocolNotAvailable => "Network protocol not available",
            NetworkError::InitializationFailed => "Network initialization failed",
            NetworkError::DnsResolutionFailed => "DNS resolution failed",
            NetworkError::ConnectionFailed => "Connection failed",
            NetworkError::NotConnected => "Not connected",
            NetworkError::Timeout => "Request timed out",
            NetworkError::HttpError(code) => {
                let mut s = String::from_str("HTTP error: ");
                push_decimal(&mut s, *code as u64);
                return s;
            },
            NetworkError::InvalidUrl => "Invalid URL",
            NetworkError::InvalidResponse => "Invalid response from server",
            NetworkError::FileError => "File I/O error",
            NetworkError::OutOfMemory => "Out of memory",
            NetworkError::Cancelled => "Operation cancelled",
            NetworkError::TlsError => "TLS/HTTPS error",
            NetworkError::TlsNotSupported => "HTTPS not supported - use HTTP URL",
            NetworkError::DeviceError(msg) => {
                let mut s = String::from_str("Device error: ");
                s.append(msg.as_str());
                return s;
            },
            NetworkError::BufferTooSmall => "Buffer too small",
            NetworkError::ResponseTooLarge => "Response too large",
            NetworkError::TooManyRedirects => "Too many redirects",
            NetworkError::SendFailed => "Send failed",
            NetworkError::ReceiveFailed => "Receive failed",
            NetworkError::ReceiveError => "Device receive error",
            NetworkError::UnexpectedEof => "Unexpected end of stream",
            NetworkError::DeviceNotReady => "Device not ready",
            NetworkError::BufferExhausted => "All buffers in use",
            NetworkError::PacketTooLarge => "Packet too large",
            NetworkError::Unknown => "Unknown error",
        };
        lit.to_owned()
    }
}

} // verus!
