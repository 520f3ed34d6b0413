use wasapi::{
    calculate_aligned_period_near, calculate_period_100ns, device_index_with_name,
    exclusive_quirk_candidates, interpret_wait_result, select_first_accepted, AudioClient,
    Direction, SampleType, ShareMode, StreamMode, TimingMode, WasapiError, WaveFormat,
};

#[test]
fn loopback_with_exclusive_mode_fails_before_any_engine_call() {
    let client = AudioClient::new(Direction::Render);
    let fmt = WaveFormat::new(16, 16, &SampleType::Int, 48000, 2, None);
    let r = client.initialize_client(
        &fmt,
        &Direction::Capture,
        &StreamMode::PollingExclusive { buffer_duration_hns: 1000, period_hns: 1000 },
    );
    assert_eq!(r, Err(WasapiError::LoopbackWithExclusiveMode));
    let r = client.initialize_client(
        &fmt,
        &Direction::Capture,
        &StreamMode::EventsExclusive { period_hns: 1000 },
    );
    assert_eq!(r, Err(WasapiError::LoopbackWithExclusiveMode));
}

#[test]
fn render_to_capture_device_fails() {
    let client = AudioClient::new(Direction::Capture);
    let fmt = WaveFormat::new(16, 16, &SampleType::Int, 48000, 2, None);
    let r = client.initialize_client(
        &fmt,
        &Direction::Render,
        &StreamMode::PollingShared { autoconvert: false, buffer_duration_hns: 1000 },
    );
    assert_eq!(r, Err(WasapiError::RenderToCaptureDevice));
}

#[test]
fn loopback_capture_in_shared_mode_sets_the_loopback_flag() {
    let client = AudioClient::new(Direction::Render);
    let fmt = WaveFormat::new(16, 16, &SampleType::Int, 48000, 2, None);
    let params = client
        .initialize_client(
            &fmt,
            &Direction::Capture,
            &StreamMode::EventsShared { autoconvert: false, buffer_duration_hns: 2000 },
        )
        .unwrap();
    assert_eq!(params.streamflags, 0x00020000 + 0x00040000);
    assert_eq!(params.sharemode, ShareMode::Shared);
    assert_eq!(params.timingmode, TimingMode::Events);
    assert_eq!(params.direction, Direction::Capture);
}

#[test]
fn autoconvert_sets_both_conversion_flags() {
    let client = AudioClient::new(Direction::Render);
    let fmt = WaveFormat::new(16, 16, &SampleType::Int, 48000, 2, None);
    let events = client
        .initialize_client(
            &fmt,
            &Direction::Render,
            &StreamMode::EventsShared { autoconvert: true, buffer_duration_hns: 2000 },
        )
        .unwrap();
    assert_eq!(events.streamflags, 0x88040000);
    let polling = client
        .initialize_client(
            &fmt,
            &Direction::Render,
            &StreamMode::PollingShared { autoconvert: true, buffer_duration_hns: 2000 },
        )
        .unwrap();
    assert_eq!(polling.streamflags, 0x88000000);
    assert_eq!(polling.bytes_per_frame, 4);
}

#[test]
fn shared_modes_leave_the_period_to_the_engine() {
    let client = AudioClient::new(Direction::Render);
    let fmt = WaveFormat::new(16, 16, &SampleType::Int, 48000, 2, None);
    let params = client
        .initialize_client(
            &fmt,
            &Direction::Render,
            &StreamMode::PollingShared { autoconvert: false, buffer_duration_hns: 7777 },
        )
        .unwrap();
    assert_eq!(params.period_hns, 0);
    assert_eq!(params.buffer_duration_hns, 7777);
    assert_eq!(params.streamflags, 0);
}

#[test]
fn events_exclusive_buffer_duration_equals_the_period() {
    let client = AudioClient::new(Direction::Render);
    let fmt = WaveFormat::new(16, 16, &SampleType::Int, 48000, 2, None);
    let params = client
        .initialize_client(&fmt, &Direction::Render, &StreamMode::EventsExclusive {
            period_hns: 14512,
        })
        .unwrap();
    assert_eq!(params.period_hns, 14512);
    assert_eq!(params.buffer_duration_hns, 14512);
    assert_eq!(params.sharemode, ShareMode::Exclusive);
}

#[test]
fn uninitialized_access_reports_client_not_init() {
    let client = AudioClient::new(Direction::Render);
    assert_eq!(client.get_buffer_size(1024), Err(WasapiError::ClientNotInit));
    assert_eq!(client.get_current_padding(16), Err(WasapiError::ClientNotInit));
    assert_eq!(
        client.get_available_space_in_frames(1024, 16),
        Err(WasapiError::ClientNotInit)
    );
    assert!(matches!(
        client.get_audiorenderclient(),
        Err(WasapiError::ClientNotInit)
    ));
    assert!(matches!(
        client.get_audiocaptureclient(),
        Err(WasapiError::ClientNotInit)
    ));
    assert_eq!(client.get_sharemode(), None);
    assert_eq!(client.get_timing_mode(), None);
}

#[test]
fn initialization_fixes_the_client_state() {
    let mut client = AudioClient::new(Direction::Render);
    let fmt = WaveFormat::new(16, 16, &SampleType::Int, 48000, 2, None);
    let params = client
        .initialize_client(
            &fmt,
            &Direction::Render,
            &StreamMode::PollingShared { autoconvert: false, buffer_duration_hns: 1000 },
        )
        .unwrap();
    client.apply_initialize(&params);
    assert_eq!(client.get_sharemode(), Some(ShareMode::Shared));
    assert_eq!(client.get_timing_mode(), Some(TimingMode::Polling));
    assert_eq!(client.get_direction(), Direction::Render);
    assert_eq!(client.get_buffer_size(1024), Ok(1024));
    assert_eq!(client.get_current_padding(64), Ok(64));
    assert_eq!(client.get_available_space_in_frames(1024, 64), Ok(960));
    let port = client.get_audiorenderclient().unwrap();
    assert_eq!(port.get_bytes_per_frame(), 4);
}

#[test]
fn exclusive_events_available_space_is_the_whole_buffer() {
    let mut client = AudioClient::new(Direction::Render);
    let fmt = WaveFormat::new(16, 16, &SampleType::Int, 48000, 2, None);
    let params = client
        .initialize_client(&fmt, &Direction::Render, &StreamMode::EventsExclusive {
            period_hns: 1000,
        })
        .unwrap();
    client.apply_initialize(&params);
    assert_eq!(client.get_available_space_in_frames(1024, 512), Ok(1024));
}

#[test]
fn loopback_client_state_is_prebound_but_not_initialized() {
    let client = AudioClient::new_application_loopback_client();
    assert_eq!(client.get_direction(), Direction::Render);
    assert_eq!(client.get_sharemode(), Some(ShareMode::Shared));
    assert_eq!(client.get_timing_mode(), None);
    // Buffer and padding queries are unreliable for such clients; before
    // initialization they are refused outright.
    assert_eq!(client.get_buffer_size(3131961357), Err(WasapiError::ClientNotInit));
}

#[test]
fn period_calculation_matches_known_values() {
    assert_eq!(calculate_period_100ns(44100, 44100), 10_000_000);
    assert_eq!(calculate_period_100ns(480, 48000), 100_000);
    assert_eq!(calculate_period_100ns(64, 44100), 14512);
    assert_eq!(calculate_period_100ns(0, 48000), 0);
}

#[test]
fn aligned_period_clamps_and_aligns() {
    // 24-bit, 44100 Hz, 2 channels: 6-byte frames. A desired period far
    // below the minimum clamps up; 128-byte alignment makes 384-byte
    // (64-frame) segments; one segment covers the minimum.
    let fmt = WaveFormat::new(24, 24, &SampleType::Int, 44100, 2, None);
    let period = calculate_aligned_period_near(150, 450, Some(128), &fmt);
    assert_eq!(period, 14512);
    assert!(period >= 450);
    assert_eq!(period, calculate_period_100ns(64, 44100));
}

#[test]
fn aligned_period_without_alignment_uses_frame_segments() {
    let fmt = WaveFormat::new(16, 16, &SampleType::Int, 48000, 2, None);
    // 100000 hns is 480 frames; no extra alignment, so the result is the
    // period of exactly 480 frames.
    let period = calculate_aligned_period_near(100_000, 30_000, None, &fmt);
    assert_eq!(period, calculate_period_100ns(480, 48000));
    assert!(period >= 30_000);
}

#[test]
fn quirk_ladder_order_is_as_given_then_canonical_then_masks() {
    let fmt = WaveFormat::new(16, 16, &SampleType::Int, 48000, 2, None);
    let candidates = exclusive_quirk_candidates(&fmt);
    assert_eq!(candidates.len(), 4);
    assert_eq!(candidates[0].get_formattag(), 0xFFFE);
    assert_eq!(candidates[0].get_dwchannelmask(), 0b11);
    assert_eq!(candidates[1].get_formattag(), 1); // the canonical shape
    assert_eq!(candidates[2].get_formattag(), 0xFFFE);
    assert_eq!(candidates[2].get_dwchannelmask(), 0b11);
    assert_eq!(candidates[3].get_dwchannelmask(), 0);
}

#[test]
fn quirk_ladder_skips_canonical_above_two_channels() {
    let fmt = WaveFormat::new(16, 16, &SampleType::Int, 48000, 6, None);
    let candidates = exclusive_quirk_candidates(&fmt);
    // as given, then the four mask suggestions for six channels
    assert_eq!(candidates.len(), 5);
    for c in &candidates {
        assert_eq!(c.get_formattag(), 0xFFFE);
    }
}

#[test]
fn quirk_ladder_returns_the_canonical_variant_when_only_it_is_accepted() {
    // A device that rejects the two-channel format in the extensible
    // shape but accepts it as a canonical descriptor must get the
    // canonical variant back, not a channel-mask variant.
    let fmt = WaveFormat::new(16, 16, &SampleType::Int, 48000, 2, None);
    let candidates = exclusive_quirk_candidates(&fmt);
    let accepted = vec![false, true, true, true];
    let chosen = select_first_accepted(&candidates, &accepted).unwrap();
    assert_eq!(chosen.get_formattag(), 1);
    assert_eq!(chosen.get_dwchannelmask(), 0);
}

#[test]
fn quirk_ladder_exhausted_reports_unsupported_format() {
    let fmt = WaveFormat::new(16, 16, &SampleType::Int, 48000, 2, None);
    let candidates = exclusive_quirk_candidates(&fmt);
    let accepted = vec![false; candidates.len()];
    assert!(matches!(
        select_first_accepted(&candidates, &accepted),
        Err(WasapiError::UnsupportedFormat)
    ));
}

#[test]
fn wait_results_other_than_signaled_are_timeouts() {
    assert!(interpret_wait_result(0).is_ok());
    assert_eq!(interpret_wait_result(0x102), Err(WasapiError::EventTimeout));
    assert_eq!(interpret_wait_result(0xFFFFFFFF), Err(WasapiError::EventTimeout));
}

#[test]
fn device_lookup_finds_the_first_match_or_names_the_miss() {
    let names = vec![
        String::from("Speakers"),
        String::from("Headphones"),
        String::from("Speakers"),
    ];
    assert_eq!(device_index_with_name(&names, &String::from("Headphones")), Ok(1));
    assert_eq!(device_index_with_name(&names, &String::from("Speakers")), Ok(0));
    assert_eq!(
        device_index_with_name(&names, &String::from("Line Out")),
        Err(WasapiError::DeviceNotFound(String::from("Line Out")))
    );
}
