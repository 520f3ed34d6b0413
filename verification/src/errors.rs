//! The error taxonomy of the library.
//!
//! Errors reported by the operating system's audio engine are carried as
//! their raw result code in the `Windows` variant; everything the library
//! itself decides has a variant of its own.

use vstd::prelude::*;

verus! {

/// Every failure this library can report.
#[derive(Debug, PartialEq, Eq)]
pub enum WasapiError {
    /// No device with the given friendly name exists in the collection.
    DeviceNotFound(String),
    /// A device state code outside the known set.
    IllegalDeviceState(u32),
    /// A device role code outside the known set.
    IllegalDeviceRole(i32),
    /// A data-flow direction code outside the known set.
    IllegalDeviceDirection(i32),
    /// A session state code outside the known set.
    IllegalSessionState(i32),
    /// No acceptable format could be negotiated or parsed.
    UnsupportedFormat,
    /// The format's sub-format identifier names neither integer PCM nor
    /// IEEE float.
    UnsupportedSubformat,
    /// An operation that needs a successful `initialize_client` was called
    /// on a client that has none.
    ClientNotInit,
    /// The engine rejected the session-notification registration; the raw
    /// engine result code is carried.
    RegisterNotifications(i32),
    /// The data handed over has exactly the wrong length.
    DataLengthMismatch { received: usize, expected: usize },
    /// The data available is shorter than what the operation needs.
    DataLengthTooShort { received: usize, expected: usize },
    /// A wait on an event handle ran out of time.
    EventTimeout,
    /// Automatic format conversion works only in shared mode.
    AutomaticFormatConversionInExclusiveMode,
    /// Loopback capture from a playback device works only in shared mode.
    LoopbackWithExclusiveMode,
    /// A capture device cannot be opened for playback.
    RenderToCaptureDevice,
    /// Any other engine failure, carried as its raw result code.
    Windows(i32),
}

} // verus!
