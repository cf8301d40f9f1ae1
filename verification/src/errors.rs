//! The error taxonomy of the library.
//!
//! Every fallible operation returns one of these variants; none is ever
//! silently discarded. Catalog query failures for a single device are
//! isolated (they do not abort listing the rest), while source/sink open
//! failures and negotiation failures are fatal to a redirection session.

use vstd::prelude::*;

verus! {

/// Everything that can go wrong in the catalog, the streams and the
/// redirector.
#[derive(Clone, Debug, PartialEq, Eq)]
pub enum AudioError {
    /// The host reports no device in the requested direction.
    NoDeviceAvailable,
    /// No enumerated device matches the requested name and direction.
    DeviceNotFound,
    /// The device lacks the requested direction capability.
    UnsupportedDirection,
    /// The host failed to answer a per-device configuration query;
    /// carries the host's reason.
    DeviceQueryFailed(String),
    /// The container or codec of an input file is not recognized.
    UnsupportedFormat,
    /// An access failure while reading an input file.
    IoError,
    /// Corrupt data while decoding; carries the frame position at which
    /// decoding stopped.
    DecodeError(u64),
    /// The device cannot be opened: already in use or disconnected.
    DeviceUnavailable,
    /// The device refused the negotiated configuration at open time.
    ConfigurationRejected,
    /// No sink configuration is reachable from the source via the
    /// supported conversions.
    NegotiationFailed,
}

} // verus!
