//! Error taxonomy of the clipboard core.

use vstd::prelude::*;

verus! {

/// Failure of the OS clipboard accessor.
///
/// `NoContent` is the normal "nothing to read" outcome; the accessor
/// surfaces it as `None` rather than as an error.  `Unavailable` covers
/// every other platform-level failure.
#[derive(Clone, Copy, Debug, PartialEq, Eq, Structural)]
pub enum AccessError {
    Unavailable,
    NoContent,
}

/// Failure of the image codec.
#[derive(Clone, Copy, Debug, PartialEq, Eq, Structural)]
pub enum CodecError {
    /// The pixel buffer length does not match `width * height * 4`,
    /// or the dimensions cannot be serialized.
    InvalidBuffer,
    /// The transport string is not valid base64.
    BadTransport,
    /// The decoded bytes are not a valid compressed image.
    BadImage,
}

/// Misuse of the monitor lifecycle.
#[derive(Clone, Copy, Debug, PartialEq, Eq, Structural)]
pub enum MonitorError {
    AlreadyRunning,
    NotRunning,
    CancelFailed,
}

impl CodecError {
    /// Human-readable message for the UI layer.
    pub fn message(&self) -> (r: String)
        ensures
            *self == CodecError::InvalidBuffer ==> r@ == "pixel buffer does not match its dimensions"@,
            *self == CodecError::BadTransport ==> r@ == "transport string is not valid base64"@,
            *self == CodecError::BadImage ==> r@ == "bytes are not a valid image"@,
    {
        match self {
            CodecError::InvalidBuffer => String::from_str("pixel buffer does not match its dimensions"),
            CodecError::BadTransport => String::from_str("transport string is not valid base64"),
            CodecError::BadImage => String::from_str("bytes are not a valid image"),
        }
    }
}

impl MonitorError {
    /// Human-readable message for the UI layer.
    pub fn message(&self) -> (r: String)
        ensures
            *self == MonitorError::AlreadyRunning ==> r@ == "monitoring is already running"@,
            *self == MonitorError::NotRunning ==> r@ == "monitoring is not running"@,
            *self == MonitorError::CancelFailed ==> r@ == "failed to send stop signal"@,
    {
        match self {
            MonitorError::AlreadyRunning => String::from_str("monitoring is already running"),
            MonitorError::NotRunning => String::from_str("monitoring is not running"),
            MonitorError::CancelFailed => String::from_str("failed to send stop signal"),
        }
    }
}

} // verus!
