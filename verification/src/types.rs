//! Core enumerations of the streaming layer and their raw-code
//! conversions.
//!
//! The engine reports directions, roles and states as plain integer codes;
//! a code outside the known set is a hard error, never silently coerced.

use vstd::prelude::*;

use crate::errors::WasapiError;

verus! {

/// Raw data-flow code for a playback endpoint.
pub const EDATAFLOW_RENDER: i32 = 0;
/// Raw data-flow code for a capture endpoint.
pub const EDATAFLOW_CAPTURE: i32 = 1;

/// Raw role code for the console role.
pub const EROLE_CONSOLE: i32 = 0;
/// Raw role code for the multimedia role.
pub const EROLE_MULTIMEDIA: i32 = 1;
/// Raw role code for the communications role.
pub const EROLE_COMMUNICATIONS: i32 = 2;

/// Raw session state code: inactive.
pub const SESSION_STATE_INACTIVE: i32 = 0;
/// Raw session state code: active.
pub const SESSION_STATE_ACTIVE: i32 = 1;
/// Raw session state code: expired.
pub const SESSION_STATE_EXPIRED: i32 = 2;

/// Raw device state bit: active.
pub const DEVICE_STATE_ACTIVE: u32 = 1;
/// Raw device state bit: disabled.
pub const DEVICE_STATE_DISABLED: u32 = 2;
/// Raw device state bit: not present.
pub const DEVICE_STATE_NOTPRESENT: u32 = 4;
/// Raw device state bit: unplugged.
pub const DEVICE_STATE_UNPLUGGED: u32 = 8;

/// Audio direction, playback or capture.
#[derive(Clone, Copy, Debug, PartialEq, Eq, Structural)]
pub enum Direction {
    Render,
    Capture,
}

impl Direction {
    /// Interpret a raw data-flow code reported by the engine.
    pub fn from_raw(raw: i32) -> (r: Result<Direction, WasapiError>)
        ensures
            raw == EDATAFLOW_RENDER ==> r == Ok::<Direction, WasapiError>(Direction::Render),
            raw == EDATAFLOW_CAPTURE ==> r == Ok::<Direction, WasapiError>(Direction::Capture),
            raw != EDATAFLOW_RENDER && raw != EDATAFLOW_CAPTURE ==> r == Err::<
                Direction,
                WasapiError,
            >(WasapiError::IllegalDeviceDirection(raw)),
    {
        if raw == EDATAFLOW_RENDER {
            Ok(Direction::Render)
        } else if raw == EDATAFLOW_CAPTURE {
            Ok(Direction::Capture)
        } else {
            Err(WasapiError::IllegalDeviceDirection(raw))
        }
    }

    /// The raw data-flow code for this direction.
    pub fn to_raw(&self) -> (r: i32)
        ensures
            *self == Direction::Render ==> r == EDATAFLOW_RENDER,
            *self == Direction::Capture ==> r == EDATAFLOW_CAPTURE,
    {
        match *self {
            Direction::Render => EDATAFLOW_RENDER,
            Direction::Capture => EDATAFLOW_CAPTURE,
        }
    }
}

/// Device role. Console is the role used by most applications.
#[derive(Clone, Copy, Debug, PartialEq, Eq, Structural)]
pub enum Role {
    Console,
    Multimedia,
    Communications,
}

impl Role {
    /// Interpret a raw role code reported by the engine.
    pub fn from_raw(raw: i32) -> (r: Result<Role, WasapiError>)
        ensures
            raw == EROLE_CONSOLE ==> r == Ok::<Role, WasapiError>(Role::Console),
            raw == EROLE_MULTIMEDIA ==> r == Ok::<Role, WasapiError>(Role::Multimedia),
            raw == EROLE_COMMUNICATIONS ==> r == Ok::<Role, WasapiError>(Role::Communications),
            raw != EROLE_CONSOLE && raw != EROLE_MULTIMEDIA && raw != EROLE_COMMUNICATIONS ==> r
                == Err::<Role, WasapiError>(WasapiError::IllegalDeviceRole(raw)),
    {
        if raw == EROLE_CONSOLE {
            Ok(Role::Console)
        } else if raw == EROLE_MULTIMEDIA {
            Ok(Role::Multimedia)
        } else if raw == EROLE_COMMUNICATIONS {
            Ok(Role::Communications)
        } else {
            Err(WasapiError::IllegalDeviceRole(raw))
        }
    }

    /// The raw role code for this role.
    pub fn to_raw(&self) -> (r: i32)
        ensures
            *self == Role::Console ==> r == EROLE_CONSOLE,
            *self == Role::Multimedia ==> r == EROLE_MULTIMEDIA,
            *self == Role::Communications ==> r == EROLE_COMMUNICATIONS,
    {
        match *self {
            Role::Console => EROLE_CONSOLE,
            Role::Multimedia => EROLE_MULTIMEDIA,
            Role::Communications => EROLE_COMMUNICATIONS,
        }
    }
}

/// Share mode for a stream: shared streams are mixed by the engine,
/// an exclusive stream owns the device.
#[derive(Clone, Copy, Debug, PartialEq, Eq, Structural)]
pub enum ShareMode {
    Shared,
    Exclusive,
}

/// Timing mode for a stream: the client polls, or the engine signals an
/// event when a buffer is ready.
#[derive(Clone, Copy, Debug, PartialEq, Eq, Structural)]
pub enum TimingMode {
    Polling,
    Events,
}

/// Sample encoding, IEEE float or integer PCM.
#[derive(Clone, Copy, Debug, PartialEq, Eq, Structural)]
pub enum SampleType {
    Float,
    Int,
}

/// The four ways a client can be initialized: every combination of share
/// mode and timing mode, each exposing only the parameters that mode can
/// set. Durations and periods are in units of 100 ns.
#[derive(Clone, Copy, Debug, PartialEq, Eq, Structural)]
pub enum StreamMode {
    /// Shared mode with polling timing; the engine decides the period.
    PollingShared { autoconvert: bool, buffer_duration_hns: i64 },
    /// Exclusive mode with polling timing.
    PollingExclusive { buffer_duration_hns: i64, period_hns: i64 },
    /// Shared mode with event-driven timing; the engine decides the period.
    EventsShared { autoconvert: bool, buffer_duration_hns: i64 },
    /// Exclusive mode with event-driven timing; buffer duration equals the
    /// period.
    EventsExclusive { period_hns: i64 },
}

/// State of an audio session: active while at least one stream runs,
/// inactive while none does, expired once it holds no streams.
#[derive(Clone, Copy, Debug, PartialEq, Eq, Structural)]
pub enum SessionState {
    Active,
    Inactive,
    Expired,
}

impl SessionState {
    /// Interpret a raw session state code reported by the engine.
    pub fn from_raw(raw: i32) -> (r: Result<SessionState, WasapiError>)
        ensures
            raw == SESSION_STATE_ACTIVE ==> r == Ok::<SessionState, WasapiError>(
                SessionState::Active,
            ),
            raw == SESSION_STATE_INACTIVE ==> r == Ok::<SessionState, WasapiError>(
                SessionState::Inactive,
            ),
            raw == SESSION_STATE_EXPIRED ==> r == Ok::<SessionState, WasapiError>(
                SessionState::Expired,
            ),
            raw != SESSION_STATE_ACTIVE && raw != SESSION_STATE_INACTIVE && raw
                != SESSION_STATE_EXPIRED ==> r == Err::<SessionState, WasapiError>(
                WasapiError::IllegalSessionState(raw),
            ),
    {
        if raw == SESSION_STATE_ACTIVE {
            Ok(SessionState::Active)
        } else if raw == SESSION_STATE_INACTIVE {
            Ok(SessionState::Inactive)
        } else if raw == SESSION_STATE_EXPIRED {
            Ok(SessionState::Expired)
        } else {
            Err(WasapiError::IllegalSessionState(raw))
        }
    }
}

/// State of an endpoint device.
#[derive(Clone, Copy, Debug, PartialEq, Eq, Structural)]
pub enum DeviceState {
    /// The adapter is present and enabled, and the device is plugged in.
    Active,
    /// The user has disabled the device.
    Disabled,
    /// The adapter has been removed or disabled.
    NotPresent,
    /// The adapter is present but the endpoint is not plugged into its jack.
    Unplugged,
}

impl DeviceState {
    /// Interpret a raw device state code reported by the engine.
    pub fn from_raw(raw: u32) -> (r: Result<DeviceState, WasapiError>)
        ensures
            raw == DEVICE_STATE_ACTIVE ==> r == Ok::<DeviceState, WasapiError>(DeviceState::Active),
            raw == DEVICE_STATE_DISABLED ==> r == Ok::<DeviceState, WasapiError>(
                DeviceState::Disabled,
            ),
            raw == DEVICE_STATE_NOTPRESENT ==> r == Ok::<DeviceState, WasapiError>(
                DeviceState::NotPresent,
            ),
            raw == DEVICE_STATE_UNPLUGGED ==> r == Ok::<DeviceState, WasapiError>(
                DeviceState::Unplugged,
            ),
            raw != DEVICE_STATE_ACTIVE && raw != DEVICE_STATE_DISABLED && raw
                != DEVICE_STATE_NOTPRESENT && raw != DEVICE_STATE_UNPLUGGED ==> r == Err::<
                DeviceState,
                WasapiError,
            >(WasapiError::IllegalDeviceState(raw)),
    {
        if raw == DEVICE_STATE_ACTIVE {
            Ok(DeviceState::Active)
        } else if raw == DEVICE_STATE_DISABLED {
            Ok(DeviceState::Disabled)
        } else if raw == DEVICE_STATE_NOTPRESENT {
            Ok(DeviceState::NotPresent)
        } else if raw == DEVICE_STATE_UNPLUGGED {
            Ok(DeviceState::Unplugged)
        } else {
            Err(WasapiError::IllegalDeviceState(raw))
        }
    }
}

} // verus!
