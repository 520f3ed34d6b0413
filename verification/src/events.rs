//! Session-notification dispatch: the decisions behind the callback sink.
//!
//! The engine delivers raw notification codes on a thread it owns. What
//! the library decides — which session state or disconnect reason a code
//! means, which channels a channel-volume change addresses, and whether a
//! registration still delivers at all — is here, as pure functions. The
//! callback bodies themselves, and the engine-facing registration, live
//! outside the verified core.
//!
//! Dropping or unregistering a registration stops delivery
//! deterministically: the dispatch filter answers `None` for an inactive
//! registration, so no callback fires after unregistration.

use vstd::prelude::*;

use crate::types::SessionState;

verus! {

/// Raw disconnect reason: the user removed the endpoint device.
pub const DISCONNECT_REASON_DEVICE_REMOVAL: i32 = 0;

/// Raw disconnect reason: the audio service has stopped.
pub const DISCONNECT_REASON_SERVER_SHUTDOWN: i32 = 1;

/// Raw disconnect reason: the device's stream format changed.
pub const DISCONNECT_REASON_FORMAT_CHANGED: i32 = 2;

/// Raw disconnect reason: the user logged off the terminal session.
pub const DISCONNECT_REASON_SESSION_LOGOFF: i32 = 3;

/// Raw disconnect reason: the terminal session was disconnected.
pub const DISCONNECT_REASON_SESSION_DISCONNECTED: i32 = 4;

/// Raw disconnect reason: the device was claimed for an exclusive-mode
/// stream.
pub const DISCONNECT_REASON_EXCLUSIVE_MODE_OVERRIDE: i32 = 5;

/// Why a session was disconnected. The enumeration is closed, with an
/// `Unknown` fallback for codes a future engine might report.
#[derive(Clone, Copy, Debug, PartialEq, Eq, Structural)]
pub enum DisconnectReason {
    /// The user removed the audio endpoint device.
    DeviceRemoval,
    /// The audio service has stopped.
    ServerShutdown,
    /// The stream format of the device changed.
    FormatChanged,
    /// The user logged off the terminal session.
    SessionLogoff,
    /// The terminal session was disconnected.
    SessionDisconnected,
    /// The device was claimed for an exclusive-mode connection.
    ExclusiveModeOverride,
    /// An unrecognized reason code.
    Unknown,
}

/// The reason a raw disconnect code means; unrecognized codes map to
/// `Unknown` rather than failing, for forward compatibility.
pub open spec fn spec_disconnect_reason(raw: i32) -> DisconnectReason {
    if raw == DISCONNECT_REASON_DEVICE_REMOVAL {
        DisconnectReason::DeviceRemoval
    } else if raw == DISCONNECT_REASON_SERVER_SHUTDOWN {
        DisconnectReason::ServerShutdown
    } else if raw == DISCONNECT_REASON_FORMAT_CHANGED {
        DisconnectReason::FormatChanged
    } else if raw == DISCONNECT_REASON_SESSION_LOGOFF {
        DisconnectReason::SessionLogoff
    } else if raw == DISCONNECT_REASON_SESSION_DISCONNECTED {
        DisconnectReason::SessionDisconnected
    } else if raw == DISCONNECT_REASON_EXCLUSIVE_MODE_OVERRIDE {
        DisconnectReason::ExclusiveModeOverride
    } else {
        DisconnectReason::Unknown
    }
}

impl DisconnectReason {
    /// Interpret a raw disconnect reason code.
    pub fn from_raw(raw: i32) -> (r: DisconnectReason)
        ensures
            r == spec_disconnect_reason(raw),
    {
        if raw == DISCONNECT_REASON_DEVICE_REMOVAL {
            DisconnectReason::DeviceRemoval
        } else if raw == DISCONNECT_REASON_SERVER_SHUTDOWN {
            DisconnectReason::ServerShutdown
        } else if raw == DISCONNECT_REASON_FORMAT_CHANGED {
            DisconnectReason::FormatChanged
        } else if raw == DISCONNECT_REASON_SESSION_LOGOFF {
            DisconnectReason::SessionLogoff
        } else if raw == DISCONNECT_REASON_SESSION_DISCONNECTED {
            DisconnectReason::SessionDisconnected
        } else if raw == DISCONNECT_REASON_EXCLUSIVE_MODE_OVERRIDE {
            DisconnectReason::ExclusiveModeOverride
        } else {
            DisconnectReason::Unknown
        }
    }
}

/// The session state a raw state code means for dispatch purposes, or
/// `None` for an unrecognized code, on which no state callback fires.
pub open spec fn spec_session_state_for_dispatch(raw: i32) -> Option<SessionState> {
    if raw == crate::types::SESSION_STATE_ACTIVE {
        Some(SessionState::Active)
    } else if raw == crate::types::SESSION_STATE_INACTIVE {
        Some(SessionState::Inactive)
    } else if raw == crate::types::SESSION_STATE_EXPIRED {
        Some(SessionState::Expired)
    } else {
        None
    }
}

/// Interpret a raw session state code for dispatch: unlike the strict
/// conversion, an unknown code is silently dropped rather than reported,
/// so a notification with a code this library does not know fires no
/// callback.
pub fn session_state_for_dispatch(raw: i32) -> (r: Option<SessionState>)
    ensures
        r == spec_session_state_for_dispatch(raw),
{
    match SessionState::from_raw(raw) {
        Ok(state) => Some(state),
        Err(_) => None,
    }
}

/// The channel indices a channel-volume notification addresses: every
/// channel when the changed-channel value is the all-channels marker
/// (`u32::MAX`), the single named channel when it is in range, and none
/// otherwise.
pub open spec fn spec_channel_volume_targets(channel_count: int, changed_channel: u32) -> Seq<
    usize,
> {
    if changed_channel == u32::MAX {
        Seq::new(channel_count as nat, |i: int| i as usize)
    } else if changed_channel < channel_count {
        seq![changed_channel as usize]
    } else {
        Seq::empty()
    }
}

/// Which channel indices a channel-volume notification is dispatched
/// for. The engine uses `u32::MAX` as a marker for "more than one channel
/// changed", on which every channel is addressed; a changed-channel value
/// beyond the array is dispatched for no channel.
pub fn channel_volume_targets(channel_count: usize, changed_channel: u32) -> (r: Vec<usize>)
    requires
        channel_count <= u32::MAX,
    ensures
        r@ == spec_channel_volume_targets(channel_count as int, changed_channel),
{
    let mut out: Vec<usize> = Vec::new();
    if changed_channel == u32::MAX {
        let mut i: usize = 0;
        while i < channel_count
            invariant
                i <= channel_count,
                out@.len() == i,
                forall|j: int| 0 <= j < i ==> #[trigger] out@[j] == j as usize,
            decreases channel_count - i,
        {
            out.push(i);
            i += 1;
        }
        proof {
            assert(out@ =~= spec_channel_volume_targets(channel_count as int, changed_channel));
        }
    } else if (changed_channel as usize) < channel_count {
        out.push(changed_channel as usize);
        proof {
            assert(out@ =~= spec_channel_volume_targets(channel_count as int, changed_channel));
        }
    } else {
        proof {
            assert(out@ =~= spec_channel_volume_targets(channel_count as int, changed_channel));
        }
    }
    out
}

/// The delivery guard for a session-notification registration. While it
/// is active, events are dispatched; once unregistered (which the owning
/// wrapper does when it is dropped), the dispatch filters answer `None`
/// and no callback fires again — late events the engine already queued
/// are filtered out here before any callback would run.
pub struct EventRegistration {
    active: bool,
}

impl View for EventRegistration {
    type V = bool;

    closed spec fn view(&self) -> bool {
        self.active
    }
}

impl EventRegistration {
    /// A live registration, created after the engine accepted the
    /// notification registration.
    pub fn new() -> (r: EventRegistration)
        ensures
            r@ == true,
    {
        EventRegistration { active: true }
    }

    /// Whether events are still delivered.
    pub fn is_active(&self) -> (r: bool)
        ensures
            r == self@,
    {
        self.active
    }

    /// Stop delivery. After this, every dispatch filter answers `None`.
    pub fn unregister(&mut self)
        ensures
            final(self)@ == false,
    {
        self.active = false;
    }

    /// The state-change dispatch decision: the decoded session state if
    /// this registration is still active and the code is known, else
    /// `None` (no callback fires).
    pub fn filter_state_change(&self, raw_state: i32) -> (r: Option<SessionState>)
        ensures
            self@ ==> r == spec_session_state_for_dispatch(raw_state),
            !self@ ==> r is None,
    {
        if self.active {
            session_state_for_dispatch(raw_state)
        } else {
            None
        }
    }

    /// The disconnect dispatch decision: the decoded reason if this
    /// registration is still active, else `None` (no callback fires).
    pub fn filter_disconnect(&self, raw_reason: i32) -> (r: Option<DisconnectReason>)
        ensures
            self@ ==> r == Some(spec_disconnect_reason(raw_reason)),
            !self@ ==> r is None,
    {
        if self.active {
            Some(DisconnectReason::from_raw(raw_reason))
        } else {
            None
        }
    }
}

} // verus!
