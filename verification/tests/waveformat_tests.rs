use wasapi::{make_channelmasks, make_simple_channelmask, SampleType, WasapiError, WaveFormat};

#[test]
fn new_derives_block_align_and_byte_rate() {
    let fmt = WaveFormat::new(16, 16, &SampleType::Int, 44100, 2, None);
    assert_eq!(fmt.get_blockalign(), 4);
    assert_eq!(fmt.get_avgbytespersec(), 176400);
    assert_eq!(fmt.get_bitspersample(), 16);
    assert_eq!(fmt.get_validbitspersample(), 16);
    assert_eq!(fmt.get_samplespersec(), 44100);
    assert_eq!(fmt.get_nchannels(), 2);
}

#[test]
fn new_derives_odd_bit_depth() {
    let fmt = WaveFormat::new(24, 24, &SampleType::Int, 44100, 2, None);
    assert_eq!(fmt.get_blockalign(), 6);
    assert_eq!(fmt.get_avgbytespersec(), 264600);
}

#[test]
fn new_default_mask_sets_one_bit_per_channel() {
    assert_eq!(
        WaveFormat::new(16, 16, &SampleType::Int, 48000, 2, None).get_dwchannelmask(),
        0b11
    );
    assert_eq!(
        WaveFormat::new(16, 16, &SampleType::Int, 48000, 9, None).get_dwchannelmask(),
        0x1FF
    );
    assert_eq!(
        WaveFormat::new(16, 16, &SampleType::Int, 48000, 19, None).get_dwchannelmask(),
        0
    );
}

#[test]
fn new_keeps_a_given_mask() {
    let fmt = WaveFormat::new(16, 16, &SampleType::Int, 48000, 6, Some(0x3F));
    assert_eq!(fmt.get_dwchannelmask(), 0x3F);
}

#[test]
fn to_waveformatex_drops_extension_detail() {
    let fmt = WaveFormat::new(24, 20, &SampleType::Int, 44100, 2, None);
    let canonical = fmt.to_waveformatex().unwrap();
    assert_eq!(canonical.get_formattag(), 1);
    assert_eq!(canonical.get_validbitspersample(), 0);
    assert_eq!(canonical.get_dwchannelmask(), 0);
    assert_eq!(canonical.get_blockalign(), 6);
    assert_eq!(canonical.get_avgbytespersec(), 264600);
    assert_eq!(canonical.get_samplespersec(), 44100);
    assert!(matches!(
        canonical.get_subformat(),
        Err(WasapiError::UnsupportedSubformat)
    ));
}

#[test]
fn to_waveformatex_float_uses_float_tag() {
    let fmt = WaveFormat::new(32, 32, &SampleType::Float, 96000, 2, None);
    let canonical = fmt.to_waveformatex().unwrap();
    assert_eq!(canonical.get_formattag(), 3);
}

#[test]
fn round_trip_preserves_rate_channels_encoding_bits() {
    for bits in [8usize, 16, 24, 32] {
        let fmt = WaveFormat::new(bits, bits, &SampleType::Int, 44100, 2, None);
        let back = WaveFormat::from_waveformatex(&fmt.to_waveformatex().unwrap()).unwrap();
        assert_eq!(back.get_samplespersec(), 44100);
        assert_eq!(back.get_nchannels(), 2);
        assert_eq!(back.get_bitspersample(), bits as u16);
        assert_eq!(back.get_subformat().unwrap(), SampleType::Int);
    }
    let fmt = WaveFormat::new(32, 32, &SampleType::Float, 96000, 4, None);
    let back = WaveFormat::from_waveformatex(&fmt.to_waveformatex().unwrap()).unwrap();
    assert_eq!(back.get_samplespersec(), 96000);
    assert_eq!(back.get_nchannels(), 4);
    assert_eq!(back.get_bitspersample(), 32);
    assert_eq!(back.get_subformat().unwrap(), SampleType::Float);
}

#[test]
fn from_waveformatex_rejects_the_extensible_tag() {
    let fmt = WaveFormat::new(16, 16, &SampleType::Int, 48000, 2, None);
    assert!(matches!(
        WaveFormat::from_waveformatex(&fmt),
        Err(WasapiError::UnsupportedFormat)
    ));
}

#[test]
fn parse_reads_a_canonical_descriptor() {
    let bytes: Vec<u8> = vec![
        1, 0, // integer PCM tag
        2, 0, // channels
        0x80, 0xBB, 0, 0, // 48000
        0, 0xEE, 2, 0, // 192000
        4, 0, // block align
        16, 0, // bits
        0, 0, // no extension
    ];
    let fmt = WaveFormat::parse(&bytes).unwrap();
    assert_eq!(fmt.get_nchannels(), 2);
    assert_eq!(fmt.get_samplespersec(), 48000);
    assert_eq!(fmt.get_bitspersample(), 16);
    assert_eq!(fmt.get_validbitspersample(), 16);
    assert_eq!(fmt.get_blockalign(), 4);
    assert_eq!(fmt.get_avgbytespersec(), 192000);
    assert_eq!(fmt.get_subformat().unwrap(), SampleType::Int);
    assert_eq!(fmt.get_dwchannelmask(), 0b11);
}

#[test]
fn parse_reads_an_extensible_descriptor() {
    let bytes: Vec<u8> = vec![
        0xFE, 0xFF, // extensible tag
        2, 0, // channels
        0x44, 0xAC, 0, 0, // 44100
        0x98, 0x09, 0x04, 0, // 264600
        6, 0, // block align
        24, 0, // bits
        22, 0, // extension size
        20, 0, // valid bits
        3, 0, 0, 0, // channel mask
        1, 0, 0, 0, 0, 0, 0x10, 0, 0x80, 0, 0, 0xAA, 0, 0x38, 0x9B, 0x71, // PCM identifier
    ];
    let fmt = WaveFormat::parse(&bytes).unwrap();
    assert_eq!(fmt.get_nchannels(), 2);
    assert_eq!(fmt.get_samplespersec(), 44100);
    assert_eq!(fmt.get_bitspersample(), 24);
    assert_eq!(fmt.get_validbitspersample(), 20);
    assert_eq!(fmt.get_blockalign(), 6);
    assert_eq!(fmt.get_avgbytespersec(), 264600);
    assert_eq!(fmt.get_dwchannelmask(), 3);
    assert_eq!(fmt.get_subformat().unwrap(), SampleType::Int);
}

#[test]
fn parse_reads_a_float_identifier() {
    let bytes: Vec<u8> = vec![
        0xFE, 0xFF, 2, 0, 0x44, 0xAC, 0, 0, 0, 0, 0, 0, 8, 0, 32, 0, 22, 0, 32, 0, 3, 0, 0, 0, 3,
        0, 0, 0, 0, 0, 0x10, 0, 0x80, 0, 0, 0xAA, 0, 0x38, 0x9B, 0x71,
    ];
    let fmt = WaveFormat::parse(&bytes).unwrap();
    assert_eq!(fmt.get_subformat().unwrap(), SampleType::Float);
    assert_eq!(fmt.get_blockalign(), 8);
}

#[test]
fn parse_rejects_short_input_and_short_extension() {
    assert!(matches!(
        WaveFormat::parse(&vec![1, 0, 2, 0]),
        Err(WasapiError::UnsupportedFormat)
    ));
    let mut bytes: Vec<u8> = vec![0; 18];
    bytes[0] = 0xFE;
    bytes[1] = 0xFF;
    // extension size zero
    assert!(matches!(
        WaveFormat::parse(&bytes),
        Err(WasapiError::UnsupportedFormat)
    ));
}

#[test]
fn parse_rejects_unknown_tag_and_unknown_identifier() {
    let mut bytes: Vec<u8> = vec![0; 18];
    bytes[0] = 2; // ADPCM-style tag, not supported
    bytes[2] = 2;
    assert!(matches!(
        WaveFormat::parse(&bytes),
        Err(WasapiError::UnsupportedFormat)
    ));
    let mut ext: Vec<u8> = vec![0; 40];
    ext[0] = 0xFE;
    ext[1] = 0xFF;
    ext[2] = 2;
    ext[16] = 22;
    // identifier bytes left zeroed: unknown sub-format
    assert!(matches!(
        WaveFormat::parse(&ext),
        Err(WasapiError::UnsupportedFormat)
    ));
}

#[test]
fn parse_rejects_zero_channels_in_canonical_shape() {
    let mut bytes: Vec<u8> = vec![0; 18];
    bytes[0] = 1;
    assert!(matches!(
        WaveFormat::parse(&bytes),
        Err(WasapiError::UnsupportedFormat)
    ));
}

#[test]
fn channelmasks_are_ordered_most_likely_first() {
    assert_eq!(make_channelmasks(1), vec![0x4, 0x1, 0]);
    assert_eq!(make_channelmasks(2), vec![0x3, 0]);
    assert_eq!(make_channelmasks(4), vec![0x33, 0x107, 0xF, 0]);
    assert_eq!(make_channelmasks(6), vec![0x60F, 0x3F, 0x3F, 0]);
    assert_eq!(make_channelmasks(8), vec![0x63F, 0xFF, 0xFF, 0]);
    assert_eq!(make_channelmasks(10), vec![0x3FF, 0]);
    assert_eq!(make_channelmasks(20), vec![0]);
    assert_eq!(make_channelmasks(0), vec![0]);
}

#[test]
fn simple_channelmask_covers_defined_positions_only() {
    assert_eq!(make_simple_channelmask(1), 0b1);
    assert_eq!(make_simple_channelmask(2), 0b11);
    assert_eq!(make_simple_channelmask(18), 0x3FFFF);
    assert_eq!(make_simple_channelmask(19), 0);
    assert_eq!(make_simple_channelmask(0), 0);
}

#[test]
fn with_channel_mask_replaces_only_the_mask() {
    let fmt = WaveFormat::new(16, 16, &SampleType::Int, 48000, 2, None);
    let masked = fmt.with_channel_mask(0);
    assert_eq!(masked.get_dwchannelmask(), 0);
    assert_eq!(masked.get_blockalign(), fmt.get_blockalign());
    assert_eq!(masked.get_samplespersec(), fmt.get_samplespersec());
    assert_eq!(masked.get_subformat().unwrap(), SampleType::Int);
}
