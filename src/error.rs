use vstd::prelude::*;

use crate::frame::ApiError;

verus! {

/// Everything that can go wrong while talking to the modem.
#[derive(Debug, Clone, PartialEq, Eq)]
pub enum Error {
    /// The serial port could not be opened or configured.
    SerialError(String),
    /// A read or write on the transport failed, or a read gave nothing.
    IOError(String),
    /// A payload was not valid UTF-8.
    DecodeError,
    /// A frame was malformed or of the wrong shape.
    ApiError(ApiError),
    /// A mode switch that the session cannot perform.
    InvalidMode(String),
    /// A scheduled scan ended without seeing a single peer.
    DiscoveryError,
}

impl Error {
    /// A one-line description of the error.
    pub fn message(&self) -> String {
        match self {
            Error::SerialError(m) => m.clone(),
            Error::IOError(m) => m.clone(),
            Error::DecodeError => "invalid utf-8 in payload".to_string(),
            Error::ApiError(e) => e.message(),
            Error::InvalidMode(m) => m.clone(),
            Error::DiscoveryError => "Could not complete discovery mode".to_string(),
        }
    }
}

} // verus!
