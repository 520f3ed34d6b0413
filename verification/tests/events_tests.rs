use wasapi::{
    channel_volume_targets, session_state_for_dispatch, DeviceState, Direction, DisconnectReason,
    EventRegistration, Role, SessionState, WasapiError,
};

#[test]
fn registration_lifecycle_delivers_once_then_never_again() {
    let mut registration = EventRegistration::new();
    let mut fired: usize = 0;

    // a simulated state-change notification while registered
    if let Some(state) = registration.filter_state_change(1) {
        assert_eq!(state, SessionState::Active);
        fired += 1;
    }
    assert_eq!(fired, 1);

    // dropping the guard unregisters; a late event must not fire
    registration.unregister();
    assert!(!registration.is_active());
    if let Some(_) = registration.filter_state_change(1) {
        fired += 1;
    }
    assert_eq!(fired, 1);
    assert_eq!(registration.filter_disconnect(0), None);
}

#[test]
fn unknown_state_codes_fire_no_callback_even_while_active() {
    let registration = EventRegistration::new();
    assert!(registration.is_active());
    assert_eq!(registration.filter_state_change(42), None);
}

#[test]
fn disconnect_filter_decodes_while_active() {
    let registration = EventRegistration::new();
    assert_eq!(
        registration.filter_disconnect(2),
        Some(DisconnectReason::FormatChanged)
    );
}

#[test]
fn session_state_dispatch_mapping() {
    assert_eq!(session_state_for_dispatch(0), Some(SessionState::Inactive));
    assert_eq!(session_state_for_dispatch(1), Some(SessionState::Active));
    assert_eq!(session_state_for_dispatch(2), Some(SessionState::Expired));
    assert_eq!(session_state_for_dispatch(3), None);
    assert_eq!(session_state_for_dispatch(-1), None);
}

#[test]
fn disconnect_reasons_form_a_closed_set_with_fallback() {
    assert_eq!(DisconnectReason::from_raw(0), DisconnectReason::DeviceRemoval);
    assert_eq!(DisconnectReason::from_raw(1), DisconnectReason::ServerShutdown);
    assert_eq!(DisconnectReason::from_raw(2), DisconnectReason::FormatChanged);
    assert_eq!(DisconnectReason::from_raw(3), DisconnectReason::SessionLogoff);
    assert_eq!(DisconnectReason::from_raw(4), DisconnectReason::SessionDisconnected);
    assert_eq!(DisconnectReason::from_raw(5), DisconnectReason::ExclusiveModeOverride);
    assert_eq!(DisconnectReason::from_raw(6), DisconnectReason::Unknown);
    assert_eq!(DisconnectReason::from_raw(-3), DisconnectReason::Unknown);
}

#[test]
fn channel_volume_marker_addresses_every_channel() {
    assert_eq!(channel_volume_targets(2, u32::MAX), vec![0, 1]);
    assert_eq!(channel_volume_targets(4, 2), vec![2]);
    assert_eq!(channel_volume_targets(2, 2), Vec::<usize>::new());
    assert_eq!(channel_volume_targets(0, 3), Vec::<usize>::new());
    assert_eq!(channel_volume_targets(0, u32::MAX), Vec::<usize>::new());
}

#[test]
fn strict_enumeration_conversions_reject_unknown_codes() {
    assert_eq!(SessionState::from_raw(1), Ok(SessionState::Active));
    assert_eq!(
        SessionState::from_raw(5),
        Err(WasapiError::IllegalSessionState(5))
    );
    assert_eq!(Direction::from_raw(0), Ok(Direction::Render));
    assert_eq!(Direction::from_raw(1), Ok(Direction::Capture));
    assert_eq!(
        Direction::from_raw(2),
        Err(WasapiError::IllegalDeviceDirection(2))
    );
    assert_eq!(Role::from_raw(2), Ok(Role::Communications));
    assert_eq!(Role::from_raw(7), Err(WasapiError::IllegalDeviceRole(7)));
    assert_eq!(DeviceState::from_raw(4), Ok(DeviceState::NotPresent));
    assert_eq!(
        DeviceState::from_raw(3),
        Err(WasapiError::IllegalDeviceState(3))
    );
}

#[test]
fn direction_codes_round_trip() {
    assert_eq!(Direction::Render.to_raw(), 0);
    assert_eq!(Direction::Capture.to_raw(), 1);
    assert_eq!(Role::Console.to_raw(), 0);
    assert_eq!(Role::Multimedia.to_raw(), 1);
    assert_eq!(Direction::from_raw(Direction::Capture.to_raw()), Ok(Direction::Capture));
    assert_eq!(Role::from_raw(Role::Communications.to_raw()), Ok(Role::Communications));
}
