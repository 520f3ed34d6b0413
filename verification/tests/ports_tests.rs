use std::collections::VecDeque;

use wasapi::{
    AudioClient, BufferFlags, BufferInfo, CapturedPacket, Direction, SampleType, ShareMode,
    StreamMode, WasapiError, WaveFormat,
};

fn render_port(bytes_per_frame_bits: usize) -> wasapi::AudioRenderClient {
    let mut client = AudioClient::new(Direction::Render);
    let fmt = WaveFormat::new(bytes_per_frame_bits, bytes_per_frame_bits, &SampleType::Int, 48000, 2, None);
    let params = client
        .initialize_client(
            &fmt,
            &Direction::Render,
            &StreamMode::PollingShared { autoconvert: false, buffer_duration_hns: 1000 },
        )
        .unwrap();
    client.apply_initialize(&params);
    client.get_audiorenderclient().unwrap()
}

fn capture_port(mode: StreamMode) -> wasapi::AudioCaptureClient {
    let mut client = AudioClient::new(Direction::Capture);
    let fmt = WaveFormat::new(16, 16, &SampleType::Int, 48000, 2, None);
    let params = client.initialize_client(&fmt, &Direction::Capture, &mode).unwrap();
    client.apply_initialize(&params);
    client.get_audiocaptureclient().unwrap()
}

#[test]
fn write_with_wrong_length_fails_with_mismatch_and_writes_nothing() {
    let port = render_port(16); // 4-byte frames
    let data: Vec<u8> = vec![0; 7];
    let r = port.write_to_device(2, &data, None);
    match r {
        Err(WasapiError::DataLengthMismatch { received, expected }) => {
            assert_eq!(received, 7);
            assert_eq!(expected, 8);
        },
        other => panic!("expected a length mismatch, got {:?}", other.is_ok()),
    }
    let too_long: Vec<u8> = vec![0; 9];
    assert!(matches!(
        port.write_to_device(2, &too_long, None),
        Err(WasapiError::DataLengthMismatch { .. })
    ));
}

#[test]
fn write_of_zero_frames_is_a_no_op_success() {
    let port = render_port(16);
    let data: Vec<u8> = vec![1, 2, 3];
    let packet = port.write_to_device(0, &data, None).unwrap();
    assert_eq!(packet.nbr_frames, 0);
    assert!(packet.bytes.is_empty());
}

#[test]
fn write_carries_the_bytes_and_release_flags() {
    let port = render_port(16);
    let data: Vec<u8> = vec![1, 2, 3, 4, 5, 6, 7, 8];
    let flags = BufferFlags {
        data_discontinuity: false,
        silent: true,
        timestamp_error: false,
    };
    let packet = port.write_to_device(2, &data, Some(flags)).unwrap();
    assert_eq!(packet.nbr_frames, 2);
    assert_eq!(packet.bytes, data);
    assert_eq!(packet.release_flags, 0x2);
    let plain = port.write_to_device(2, &data, None).unwrap();
    assert_eq!(plain.release_flags, 0);
}

#[test]
fn queue_write_pops_exactly_the_needed_bytes() {
    let port = render_port(16);
    let mut queue: VecDeque<u8> = (1..=10).collect();
    let packet = port.write_to_device_from_deque(2, &mut queue, None).unwrap();
    assert_eq!(packet.nbr_frames, 2);
    assert_eq!(packet.bytes, vec![1, 2, 3, 4, 5, 6, 7, 8]);
    assert_eq!(queue, VecDeque::from(vec![9, 10]));
}

#[test]
fn short_queue_write_fails_and_leaves_the_queue_unmodified() {
    let port = render_port(16);
    let mut queue: VecDeque<u8> = (1..=7).collect();
    let r = port.write_to_device_from_deque(2, &mut queue, None);
    match r {
        Err(WasapiError::DataLengthTooShort { received, expected }) => {
            assert_eq!(received, 7);
            assert_eq!(expected, 8);
        },
        other => panic!("expected a too-short failure, got {:?}", other.is_ok()),
    }
    assert_eq!(queue, (1..=7).collect::<VecDeque<u8>>());
}

#[test]
fn queue_write_of_zero_frames_leaves_the_queue_alone() {
    let port = render_port(16);
    let mut queue: VecDeque<u8> = (1..=4).collect();
    let packet = port.write_to_device_from_deque(0, &mut queue, None).unwrap();
    assert_eq!(packet.nbr_frames, 0);
    assert_eq!(queue.len(), 4);
}

#[test]
fn read_copies_the_packet_to_the_start_of_the_buffer() {
    let port = capture_port(StreamMode::PollingShared { autoconvert: false, buffer_duration_hns: 1000 });
    let packet = CapturedPacket {
        nbr_frames: 2,
        flags: 0x1,
        index: 7,
        timestamp: 99,
        bytes: vec![1, 2, 3, 4, 5, 6, 7, 8],
    };
    let mut data: Vec<u8> = vec![0; 12];
    let (frames, info) = port.read_from_device(&mut data, &packet).unwrap();
    assert_eq!(frames, 2);
    assert_eq!(&data[..8], &[1, 2, 3, 4, 5, 6, 7, 8]);
    assert_eq!(&data[8..], &[0, 0, 0, 0]);
    assert!(info.flags.data_discontinuity);
    assert!(!info.flags.silent);
    assert_eq!(info.index, 7);
    assert_eq!(info.timestamp, 99);
}

#[test]
fn read_into_too_small_buffer_fails_and_copies_nothing() {
    let port = capture_port(StreamMode::PollingShared { autoconvert: false, buffer_duration_hns: 1000 });
    let packet = CapturedPacket {
        nbr_frames: 2,
        flags: 0,
        index: 0,
        timestamp: 0,
        bytes: vec![1, 2, 3, 4, 5, 6, 7, 8],
    };
    let mut data: Vec<u8> = vec![9; 4]; // room for one frame only
    let r = port.read_from_device(&mut data, &packet);
    match r {
        Err(WasapiError::DataLengthTooShort { received, expected }) => {
            assert_eq!(received, 1);
            assert_eq!(expected, 2);
        },
        other => panic!("expected a too-short failure, got {:?}", other.is_ok()),
    }
    assert_eq!(data, vec![9; 4]);
}

#[test]
fn read_with_no_whole_frame_of_room_is_a_no_op() {
    let port = capture_port(StreamMode::PollingShared { autoconvert: false, buffer_duration_hns: 1000 });
    let packet = CapturedPacket {
        nbr_frames: 2,
        flags: 0x2,
        index: 1,
        timestamp: 2,
        bytes: vec![0; 8],
    };
    let mut data: Vec<u8> = vec![5; 3];
    let (frames, info) = port.read_from_device(&mut data, &packet).unwrap();
    assert_eq!(frames, 0);
    assert_eq!(info, BufferInfo::none());
    assert_eq!(data, vec![5; 3]);
}

#[test]
fn read_of_an_empty_packet_returns_its_metadata() {
    let port = capture_port(StreamMode::PollingShared { autoconvert: false, buffer_duration_hns: 1000 });
    let packet = CapturedPacket {
        nbr_frames: 0,
        flags: 0x4,
        index: 3,
        timestamp: 4,
        bytes: Vec::new(),
    };
    let mut data: Vec<u8> = vec![0; 8];
    let (frames, info) = port.read_from_device(&mut data, &packet).unwrap();
    assert_eq!(frames, 0);
    assert!(info.flags.timestamp_error);
    assert_eq!(info.index, 3);
}

#[test]
fn read_to_deque_appends_the_whole_packet() {
    let port = capture_port(StreamMode::PollingShared { autoconvert: false, buffer_duration_hns: 1000 });
    let packet = CapturedPacket {
        nbr_frames: 1,
        flags: 0,
        index: 0,
        timestamp: 0,
        bytes: vec![7, 8, 9, 10],
    };
    let mut queue: VecDeque<u8> = VecDeque::from(vec![1, 2]);
    let info = port.read_from_device_to_deque(&mut queue, &packet);
    assert_eq!(queue, VecDeque::from(vec![1, 2, 7, 8, 9, 10]));
    assert_eq!(info.flags.to_u32(), 0);
}

#[test]
fn next_packet_size_is_implicit_in_exclusive_mode() {
    let exclusive = capture_port(StreamMode::PollingExclusive {
        buffer_duration_hns: 1000,
        period_hns: 1000,
    });
    assert_eq!(exclusive.get_next_packet_size(480), None);
    assert_eq!(exclusive.get_sharemode(), Some(ShareMode::Exclusive));
    let shared = capture_port(StreamMode::PollingShared { autoconvert: false, buffer_duration_hns: 1000 });
    assert_eq!(shared.get_next_packet_size(480), Some(480));
}

#[test]
fn buffer_flags_decode_each_bit() {
    let f = BufferFlags::new(0x3);
    assert!(f.data_discontinuity);
    assert!(f.silent);
    assert!(!f.timestamp_error);
    assert_eq!(f.to_u32(), 0x3);
    assert_eq!(BufferFlags::new(0x4).to_u32(), 0x4);
    assert_eq!(BufferFlags::none().to_u32(), 0);
    // bits outside the three known flags are dropped by the decoding
    assert_eq!(BufferFlags::new(0xF8).to_u32(), 0);
}

#[test]
fn buffer_info_decodes_flags_and_position() {
    let info = BufferInfo::new(0x7, 11, 22);
    assert!(info.flags.data_discontinuity && info.flags.silent && info.flags.timestamp_error);
    assert_eq!(info.index, 11);
    assert_eq!(info.timestamp, 22);
    let none = BufferInfo::none();
    assert_eq!(none.index, 0);
    assert_eq!(none.timestamp, 0);
    assert_eq!(none.flags.to_u32(), 0);
}
