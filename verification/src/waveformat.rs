//! The wave-format descriptor: an immutable value type describing PCM
//! layout (sample rate, channel count, bit depth, sample encoding, channel
//! mask).
//!
//! The two derived fields, `block_align` and `avg_bytes_per_sec`, are
//! always computed from the others and never set independently; every
//! constructor establishes [`WaveFormatView::wf`] and every conversion
//! preserves it.
//!
//! A descriptor exists in two shapes sharing the same fields: the full
//! extensible shape (with valid bits, channel mask and a sub-format
//! identifier) and the simple canonical shape (the format tag itself names
//! the encoding). [`WaveFormat::to_waveformatex`] and
//! [`WaveFormat::from_waveformatex`] convert between them, and
//! [`WaveFormat::parse`] reads either shape from its raw little-endian byte
//! layout.

use vstd::prelude::*;

use crate::errors::WasapiError;
use crate::types::SampleType;

verus! {

/// Format tag of the simple shape carrying integer PCM.
pub const FORMAT_TAG_PCM: u16 = 1;

/// Format tag of the simple shape carrying IEEE float samples.
pub const FORMAT_TAG_IEEE_FLOAT: u16 = 3;

/// Format tag of the extensible shape.
pub const FORMAT_TAG_EXTENSIBLE: u16 = 0xFFFE;

/// Size in bytes of the extension that follows the common fields in the
/// extensible shape.
pub const EXTENSIBLE_CB_SIZE: u16 = 22;

/// Byte length of the common field block in the raw layout.
pub const DESCRIPTOR_BASE_LEN: usize = 18;

/// Byte length of the full extensible raw layout.
pub const DESCRIPTOR_EXTENSIBLE_LEN: usize = 40;

// Speaker position bits of the channel mask.
pub const SPEAKER_FRONT_LEFT: u32 = 0x1;
pub const SPEAKER_FRONT_RIGHT: u32 = 0x2;
pub const SPEAKER_FRONT_CENTER: u32 = 0x4;
pub const SPEAKER_LOW_FREQUENCY: u32 = 0x8;
pub const SPEAKER_BACK_LEFT: u32 = 0x10;
pub const SPEAKER_BACK_RIGHT: u32 = 0x20;
pub const SPEAKER_FRONT_LEFT_OF_CENTER: u32 = 0x40;
pub const SPEAKER_FRONT_RIGHT_OF_CENTER: u32 = 0x80;
pub const SPEAKER_BACK_CENTER: u32 = 0x100;
pub const SPEAKER_SIDE_LEFT: u32 = 0x200;
pub const SPEAKER_SIDE_RIGHT: u32 = 0x400;

// Standard speaker layouts, covering 1, 2, 4, 6 and 8 channels.
pub const KSAUDIO_SPEAKER_MONO: u32 = SPEAKER_FRONT_CENTER;
pub const KSAUDIO_SPEAKER_STEREO: u32 = SPEAKER_FRONT_LEFT | SPEAKER_FRONT_RIGHT;
pub const KSAUDIO_SPEAKER_QUAD: u32 = SPEAKER_FRONT_LEFT | SPEAKER_FRONT_RIGHT | SPEAKER_BACK_LEFT
    | SPEAKER_BACK_RIGHT;
pub const KSAUDIO_SPEAKER_SURROUND: u32 = SPEAKER_FRONT_LEFT | SPEAKER_FRONT_RIGHT
    | SPEAKER_FRONT_CENTER | SPEAKER_BACK_CENTER;

// Older 6 and 8 channel layouts, kept for compatibility.
pub const KSAUDIO_SPEAKER_5POINT1: u32 = SPEAKER_FRONT_LEFT | SPEAKER_FRONT_RIGHT
    | SPEAKER_FRONT_CENTER | SPEAKER_LOW_FREQUENCY | SPEAKER_BACK_LEFT | SPEAKER_BACK_RIGHT;
pub const KSAUDIO_SPEAKER_7POINT1: u32 = SPEAKER_FRONT_LEFT | SPEAKER_FRONT_RIGHT
    | SPEAKER_FRONT_CENTER | SPEAKER_LOW_FREQUENCY | SPEAKER_BACK_LEFT | SPEAKER_BACK_RIGHT
    | SPEAKER_FRONT_LEFT_OF_CENTER | SPEAKER_FRONT_RIGHT_OF_CENTER;

// Recommended 6 and 8 channel layouts.
pub const KSAUDIO_SPEAKER_5POINT1_SURROUND: u32 = SPEAKER_FRONT_LEFT | SPEAKER_FRONT_RIGHT
    | SPEAKER_FRONT_CENTER | SPEAKER_LOW_FREQUENCY | SPEAKER_SIDE_LEFT | SPEAKER_SIDE_RIGHT;
pub const KSAUDIO_SPEAKER_7POINT1_SURROUND: u32 = SPEAKER_FRONT_LEFT | SPEAKER_FRONT_RIGHT
    | SPEAKER_FRONT_CENTER | SPEAKER_LOW_FREQUENCY | SPEAKER_BACK_LEFT | SPEAKER_BACK_RIGHT
    | SPEAKER_SIDE_LEFT | SPEAKER_SIDE_RIGHT;

// Layouts for 3, 5 and 7 channels, derived from the standard ones.
pub const CUSTOM_SPEAKER_2POINT1: u32 = KSAUDIO_SPEAKER_STEREO | SPEAKER_LOW_FREQUENCY;
pub const CUSTOM_SPEAKER_4POINT1: u32 = KSAUDIO_SPEAKER_QUAD | SPEAKER_LOW_FREQUENCY;
pub const CUSTOM_SPEAKER_4POINT1_SURROUND: u32 = KSAUDIO_SPEAKER_SURROUND | SPEAKER_LOW_FREQUENCY;
pub const CUSTOM_SPEAKER_6POINT1: u32 = KSAUDIO_SPEAKER_5POINT1 | SPEAKER_BACK_CENTER;
pub const CUSTOM_SPEAKER_6POINT1_SURROUND: u32 = KSAUDIO_SPEAKER_5POINT1_SURROUND
    | SPEAKER_BACK_CENTER;

/// The sub-format identifier of the extensible shape, reduced to what the
/// streaming layer distinguishes: integer PCM, IEEE float, or anything
/// else (including the zeroed identifier of the canonical shape).
#[derive(Clone, Copy, Debug, PartialEq, Eq, Structural)]
pub enum SubFormat {
    Pcm,
    IeeeFloat,
    Other,
}

/// The mathematical content of a [`WaveFormat`]: every field as a plain
/// value.
pub struct WaveFormatView {
    pub format_tag: u16,
    pub storage_bits: u16,
    pub valid_bits: u16,
    pub sample_rate: u32,
    pub channels: u16,
    pub block_align: u16,
    pub avg_bytes_per_sec: u32,
    pub channel_mask: u32,
    pub sub_format: SubFormat,
    pub cb_size: u16,
}

impl WaveFormatView {
    /// The derived-field invariant: `block_align` is the frame stride
    /// `channels * storage_bits / 8`, and `avg_bytes_per_sec` is
    /// `sample_rate * block_align`.
    pub open spec fn wf(self) -> bool {
        &&& self.block_align as int == self.channels as int * self.storage_bits as int / 8
        &&& self.avg_bytes_per_sec as int == self.sample_rate as int * self.block_align as int
    }
}

/// The default channel mask: one speaker-position bit per channel for
/// counts up to the 18 defined positions, zero above that.
pub open spec fn simple_mask(channels: int) -> u32 {
    if 1 <= channels <= 18 {
        ((1u32 << channels as u32) - 1) as u32
    } else {
        0u32
    }
}

/// What [`WaveFormat::new`] constructs.
pub open spec fn spec_new_format(
    storebits: int,
    validbits: int,
    sample_type: SampleType,
    samplerate: int,
    channels: int,
    channel_mask: Option<u32>,
) -> WaveFormatView {
    WaveFormatView {
        format_tag: FORMAT_TAG_EXTENSIBLE,
        cb_size: EXTENSIBLE_CB_SIZE,
        storage_bits: storebits as u16,
        valid_bits: validbits as u16,
        sample_rate: samplerate as u32,
        channels: channels as u16,
        block_align: (channels * storebits / 8) as u16,
        avg_bytes_per_sec: (samplerate * (channels * storebits / 8)) as u32,
        channel_mask: (match channel_mask {
            Option::Some(m) => m,
            Option::None => simple_mask(channels),
        }),
        sub_format: (match sample_type {
            SampleType::Float => SubFormat::IeeeFloat,
            SampleType::Int => SubFormat::Pcm,
        }),
    }
}

/// What [`WaveFormat::to_waveformatex`] constructs when the sub-format is
/// known: the canonical shape, with valid bits, mask and sub-format
/// dropped.
pub open spec fn spec_to_waveformatex(v: WaveFormatView) -> WaveFormatView {
    WaveFormatView {
        format_tag: (if v.sub_format == SubFormat::IeeeFloat {
            FORMAT_TAG_IEEE_FLOAT
        } else {
            FORMAT_TAG_PCM
        }),
        cb_size: 0,
        storage_bits: v.storage_bits,
        valid_bits: 0,
        sample_rate: v.sample_rate,
        channels: v.channels,
        block_align: v.block_align,
        avg_bytes_per_sec: v.avg_bytes_per_sec,
        channel_mask: 0,
        sub_format: SubFormat::Other,
    }
}

/// What [`WaveFormat::from_waveformatex`] constructs when the format tag
/// names an encoding: the extensible shape, with the storage bits
/// recovered from the frame stride and all derived fields recomputed.
pub open spec fn spec_from_waveformatex(v: WaveFormatView) -> WaveFormatView {
    spec_new_format(
        8 * v.block_align as int / v.channels as int,
        v.storage_bits as int,
        if v.format_tag == FORMAT_TAG_IEEE_FLOAT {
            SampleType::Float
        } else {
            SampleType::Int
        },
        v.sample_rate as int,
        v.channels as int,
        Option::None,
    )
}

/// A format descriptor. Immutable once constructed; conversions produce
/// new instances.
#[derive(Clone, Copy, Debug, PartialEq, Eq, Structural)]
pub struct WaveFormat {
    format_tag: u16,
    storage_bits: u16,
    valid_bits: u16,
    sample_rate: u32,
    channels: u16,
    block_align: u16,
    avg_bytes_per_sec: u32,
    channel_mask: u32,
    sub_format: SubFormat,
    cb_size: u16,
}

impl View for WaveFormat {
    type V = WaveFormatView;

    closed spec fn view(&self) -> WaveFormatView {
        WaveFormatView {
            format_tag: self.format_tag,
            storage_bits: self.storage_bits,
            valid_bits: self.valid_bits,
            sample_rate: self.sample_rate,
            channels: self.channels,
            block_align: self.block_align,
            avg_bytes_per_sec: self.avg_bytes_per_sec,
            channel_mask: self.channel_mask,
            sub_format: self.sub_format,
            cb_size: self.cb_size,
        }
    }
}

impl WaveFormat {
    /// Build a descriptor in the extensible shape for the given
    /// parameters, computing the frame stride and byte rate. If no
    /// `channel_mask` is given, a default mask with one bit per channel is
    /// synthesized for channel counts up to 18, zero above that.
    pub fn new(
        storebits: usize,
        validbits: usize,
        sample_type: &SampleType,
        samplerate: usize,
        channels: usize,
        channel_mask: Option<u32>,
    ) -> (r: WaveFormat)
        requires
            storebits <= u16::MAX,
            validbits <= u16::MAX,
            samplerate <= u32::MAX,
            channels <= u16::MAX,
            channels * storebits / 8 <= u16::MAX,
            samplerate * (channels * storebits / 8) <= u32::MAX,
        ensures
            r@ == spec_new_format(
                storebits as int,
                validbits as int,
                *sample_type,
                samplerate as int,
                channels as int,
                channel_mask,
            ),
            r@.wf(),
    {
        let blockalign: usize = channels * storebits / 8;
        let byterate: usize = samplerate * blockalign;
        let mask: u32 = match channel_mask {
            Option::Some(given_mask) => given_mask,
            Option::None => {
                if channels <= 18 && channels >= 1 {
                    let c: u32 = channels as u32;
                    assert(c <= 18 ==> (1u32 << c) >= 1) by (bit_vector);
                    (1u32 << c) - 1
                } else {
                    0
                }
            },
        };
        let sub_format = match sample_type {
            SampleType::Float => SubFormat::IeeeFloat,
            SampleType::Int => SubFormat::Pcm,
        };
        WaveFormat {
            format_tag: FORMAT_TAG_EXTENSIBLE,
            cb_size: EXTENSIBLE_CB_SIZE,
            storage_bits: storebits as u16,
            valid_bits: validbits as u16,
            sample_rate: samplerate as u32,
            channels: channels as u16,
            block_align: blockalign as u16,
            avg_bytes_per_sec: byterate as u32,
            channel_mask: mask,
            sub_format,
        }
    }

    /// A copy of this descriptor with the channel mask replaced and every
    /// other field kept.
    pub fn with_channel_mask(&self, mask: u32) -> (r: WaveFormat)
        ensures
            r@ == (WaveFormatView { channel_mask: mask, ..self@ }),
            self@.wf() ==> r@.wf(),
    {
        WaveFormat { channel_mask: mask, ..*self }
    }

    /// Convert to the simple canonical shape, dropping valid bits, channel
    /// mask and sub-format detail. Fails with `UnsupportedFormat` when the
    /// sub-format names neither integer PCM nor IEEE float.
    pub fn to_waveformatex(&self) -> (r: Result<WaveFormat, WasapiError>)
        ensures
            r is Ok <==> (self@.sub_format == SubFormat::Pcm || self@.sub_format
                == SubFormat::IeeeFloat),
            r is Ok ==> r->Ok_0@ == spec_to_waveformatex(self@),
            r is Ok && self@.wf() ==> r->Ok_0@.wf(),
            r is Err ==> r->Err_0 == WasapiError::UnsupportedFormat,
    {
        let format_tag: u16 = match self.sub_format {
            SubFormat::IeeeFloat => FORMAT_TAG_IEEE_FLOAT,
            SubFormat::Pcm => FORMAT_TAG_PCM,
            SubFormat::Other => {
                return Err(WasapiError::UnsupportedFormat);
            },
        };
        Ok(
            WaveFormat {
                format_tag,
                cb_size: 0,
                storage_bits: self.storage_bits,
                valid_bits: 0,
                sample_rate: self.sample_rate,
                channels: self.channels,
                block_align: self.block_align,
                avg_bytes_per_sec: self.avg_bytes_per_sec,
                channel_mask: 0,
                sub_format: SubFormat::Other,
            },
        )
    }

    /// Convert a descriptor in the simple canonical shape back to the
    /// extensible shape. The storage bits are recovered from the frame
    /// stride, the stored bits field becomes the valid bits, and the
    /// derived fields are recomputed. Fails with `UnsupportedFormat` when
    /// the format tag names neither integer PCM nor IEEE float.
    pub fn from_waveformatex(fmt: &WaveFormat) -> (r: Result<WaveFormat, WasapiError>)
        requires
            fmt@.wf(),
            fmt@.format_tag == FORMAT_TAG_PCM || fmt@.format_tag == FORMAT_TAG_IEEE_FLOAT
                ==> fmt@.channels > 0 && 8 * fmt@.block_align as int / fmt@.channels as int
                <= u16::MAX,
        ensures
            r is Ok <==> (fmt@.format_tag == FORMAT_TAG_PCM || fmt@.format_tag
                == FORMAT_TAG_IEEE_FLOAT),
            r is Ok ==> r->Ok_0@ == spec_from_waveformatex(fmt@) && r->Ok_0@.wf(),
            r is Err ==> r->Err_0 == WasapiError::UnsupportedFormat,
    {
        let sample_type = match fmt.format_tag {
            FORMAT_TAG_PCM => SampleType::Int,
            FORMAT_TAG_IEEE_FLOAT => SampleType::Float,
            _ => {
                return Err(WasapiError::UnsupportedFormat);
            },
        };
        let blockalign: usize = fmt.block_align as usize;
        let channels: usize = fmt.channels as usize;
        let storebits: usize = 8 * blockalign / channels;
        proof {
            lemma_recomputed_stride_bounds(
                blockalign as int,
                channels as int,
                fmt@.sample_rate as int,
                fmt@.avg_bytes_per_sec as int,
            );
        }
        Ok(
            WaveFormat::new(
                storebits,
                fmt.storage_bits as usize,
                &sample_type,
                fmt.sample_rate as usize,
                channels,
                Option::None,
            ),
        )
    }

    /// Read the sample encoding off the sub-format identifier. Fails with
    /// `UnsupportedSubformat` when it names neither integer PCM nor IEEE
    /// float.
    pub fn get_subformat(&self) -> (r: Result<SampleType, WasapiError>)
        ensures
            self@.sub_format == SubFormat::Pcm ==> r == Ok::<SampleType, WasapiError>(
                SampleType::Int,
            ),
            self@.sub_format == SubFormat::IeeeFloat ==> r == Ok::<SampleType, WasapiError>(
                SampleType::Float,
            ),
            self@.sub_format == SubFormat::Other ==> r == Err::<SampleType, WasapiError>(
                WasapiError::UnsupportedSubformat,
            ),
    {
        match self.sub_format {
            SubFormat::IeeeFloat => Ok(SampleType::Float),
            SubFormat::Pcm => Ok(SampleType::Int),
            SubFormat::Other => Err(WasapiError::UnsupportedSubformat),
        }
    }

    /// Read the frame stride in bytes.
    pub fn get_blockalign(&self) -> (r: u32)
        ensures
            r == self@.block_align as u32,
    {
        self.block_align as u32
    }

    /// Read the byte rate.
    pub fn get_avgbytespersec(&self) -> (r: u32)
        ensures
            r == self@.avg_bytes_per_sec,
    {
        self.avg_bytes_per_sec
    }

    /// Read the storage bits per sample.
    pub fn get_bitspersample(&self) -> (r: u16)
        ensures
            r == self@.storage_bits,
    {
        self.storage_bits
    }

    /// Read the valid bits per sample.
    pub fn get_validbitspersample(&self) -> (r: u16)
        ensures
            r == self@.valid_bits,
    {
        self.valid_bits
    }

    /// Read the sample rate.
    pub fn get_samplespersec(&self) -> (r: u32)
        ensures
            r == self@.sample_rate,
    {
        self.sample_rate
    }

    /// Read the channel count.
    pub fn get_nchannels(&self) -> (r: u16)
        ensures
            r == self@.channels,
    {
        self.channels
    }

    /// Read the channel mask.
    pub fn get_dwchannelmask(&self) -> (r: u32)
        ensures
            r == self@.channel_mask,
    {
        self.channel_mask
    }

    /// Read the format tag.
    pub fn get_formattag(&self) -> (r: u16)
        ensures
            r == self@.format_tag,
    {
        self.format_tag
    }
}

/// The derived-field invariant, stated on its own: for every well-formed
/// descriptor, the frame stride is `channels * storage_bits / 8` and the
/// byte rate is `sample_rate * block_align` — the two are never set
/// independently.
pub proof fn lemma_derived_fields(v: WaveFormatView)
    requires
        v.wf(),
    ensures
        v.block_align as int == v.channels as int * v.storage_bits as int / 8,
        v.avg_bytes_per_sec as int == v.sample_rate as int * v.block_align as int,
{
}

/// Bounds needed when the storage bits are recovered from the frame
/// stride: the recomputed stride never exceeds the original, and the
/// recomputed byte rate never exceeds the original byte rate.
proof fn lemma_recomputed_stride_bounds(ba: int, ch: int, rate: int, avg: int)
    requires
        0 < ch,
        0 <= ba,
        0 <= rate,
        avg == rate * ba,
    ensures
        ch * (8 * ba / ch) / 8 <= ba,
        rate * (ch * (8 * ba / ch) / 8) <= avg,
{
    let s = 8 * ba / ch;
    vstd::arithmetic::div_mod::lemma_fundamental_div_mod(8 * ba, ch);
    vstd::arithmetic::div_mod::lemma_mod_bound(8 * ba, ch);
    assert(ch * s <= 8 * ba);
    vstd::arithmetic::div_mod::lemma_div_is_ordered(ch * s, 8 * ba, 8);
    assert(8 * ba / 8 == ba) by (nonlinear_arith);
    assert(ch * s / 8 <= ba);
    vstd::arithmetic::mul::lemma_mul_inequality(ch * s / 8, ba, rate);
    assert(rate * (ch * s / 8) <= rate * ba) by {
        vstd::arithmetic::mul::lemma_mul_is_commutative(ch * s / 8, rate);
        vstd::arithmetic::mul::lemma_mul_is_commutative(ba, rate);
    }
}

/// Converting a well-formed descriptor to the canonical shape and back
/// preserves the sample rate, channel count, encoding and storage bits,
/// whenever the storage bits are a whole number of bytes. (Valid bits and
/// channel mask are normalized across the round trip by design.)
pub proof fn lemma_format_round_trip(v: WaveFormatView)
    requires
        v.wf(),
        v.sub_format == SubFormat::Pcm || v.sub_format == SubFormat::IeeeFloat,
        v.channels > 0,
        v.storage_bits % 8 == 0,
    ensures
        ({
            let back = spec_from_waveformatex(spec_to_waveformatex(v));
            &&& back.sample_rate == v.sample_rate
            &&& back.channels == v.channels
            &&& back.storage_bits == v.storage_bits
            &&& back.sub_format == v.sub_format
        }),
{
    let c = spec_to_waveformatex(v);
    let ch = v.channels as int;
    let sb = v.storage_bits as int;
    let k = sb / 8;
    assert(sb == 8 * k);
    assert(ch * sb / 8 == ch * k) by {
        assert(ch * sb == (ch * k) * 8) by (nonlinear_arith)
            requires
                sb == 8 * k,
        ;
        vstd::arithmetic::div_mod::lemma_div_by_multiple(ch * k, 8);
    }
    assert(c.block_align as int == ch * k);
    assert(8 * (ch * k) / ch == 8 * k) by {
        assert(8 * (ch * k) == (8 * k) * ch) by (nonlinear_arith);
        vstd::arithmetic::div_mod::lemma_div_by_multiple(8 * k, ch);
    }
    assert(8 * c.block_align as int / c.channels as int == sb);
}

/// Position `i` of `s` read as a little-endian 16-bit value.
pub open spec fn le16(s: Seq<u8>, i: int) -> int {
    s[i] + 256 * s[i + 1]
}

/// Position `i` of `s` read as a little-endian 32-bit value.
pub open spec fn le32(s: Seq<u8>, i: int) -> int {
    le16(s, i) + 65536 * le16(s, i + 2)
}

fn read_u16_le(bytes: &Vec<u8>, i: usize) -> (r: u16)
    requires
        i + 2 <= bytes.len(),
    ensures
        r as int == le16(bytes@, i as int),
{
    bytes[i] as u16 + bytes[i + 1] as u16 * 256
}

fn read_u32_le(bytes: &Vec<u8>, i: usize) -> (r: u32)
    requires
        i + 4 <= bytes.len(),
    ensures
        r as int == le32(bytes@, i as int),
{
    bytes[i] as u32 + bytes[i + 1] as u32 * 256 + bytes[i + 2] as u32 * 65536 + bytes[i + 3] as u32
        * 16777216
}

/// Whether the twelve bytes that follow the leading 32-bit value of a
/// sub-format identifier match the shared tail of the integer-PCM and
/// IEEE-float identifiers.
pub open spec fn guid_tail_matches(s: Seq<u8>, i: int) -> bool {
    &&& s[i + 4] == 0u8
    &&& s[i + 5] == 0u8
    &&& s[i + 6] == 0x10u8
    &&& s[i + 7] == 0u8
    &&& s[i + 8] == 0x80u8
    &&& s[i + 9] == 0u8
    &&& s[i + 10] == 0u8
    &&& s[i + 11] == 0xaau8
    &&& s[i + 12] == 0u8
    &&& s[i + 13] == 0x38u8
    &&& s[i + 14] == 0x9bu8
    &&& s[i + 15] == 0x71u8
}

/// The sub-format named by the sixteen identifier bytes at position `i`.
pub open spec fn spec_guid_subformat(s: Seq<u8>, i: int) -> SubFormat {
    if guid_tail_matches(s, i) && le32(s, i) == 1 {
        SubFormat::Pcm
    } else if guid_tail_matches(s, i) && le32(s, i) == 3 {
        SubFormat::IeeeFloat
    } else {
        SubFormat::Other
    }
}

fn read_guid_subformat(bytes: &Vec<u8>, i: usize) -> (r: SubFormat)
    requires
        i + 16 <= bytes.len(),
    ensures
        r == spec_guid_subformat(bytes@, i as int),
{
    let tail_ok: bool = bytes[i + 4] == 0 && bytes[i + 5] == 0 && bytes[i + 6] == 0x10 && bytes[i
        + 7] == 0 && bytes[i + 8] == 0x80 && bytes[i + 9] == 0 && bytes[i + 10] == 0 && bytes[i
        + 11] == 0xaa && bytes[i + 12] == 0 && bytes[i + 13] == 0x38 && bytes[i + 14] == 0x9b
        && bytes[i + 15] == 0x71;
    if !tail_ok {
        return SubFormat::Other;
    }
    let lead = read_u32_le(bytes, i);
    if lead == 1 {
        SubFormat::Pcm
    } else if lead == 3 {
        SubFormat::IeeeFloat
    } else {
        SubFormat::Other
    }
}

/// What [`WaveFormat::parse`] accepts and produces, over the raw bytes.
///
/// The layout is the standard little-endian descriptor: format tag,
/// channels, sample rate, byte rate, frame stride, bits per sample and
/// extension size in the first eighteen bytes; valid bits, channel mask
/// and the sixteen-byte sub-format identifier in the extension. Derived
/// fields are recomputed from the parsed parameters, so every accepted
/// descriptor is well formed; bytes whose parameters cannot be represented
/// or whose encoding is unknown are rejected with `UnsupportedFormat`.
pub open spec fn spec_parse(s: Seq<u8>) -> Result<WaveFormatView, WasapiError> {
    if s.len() < DESCRIPTOR_BASE_LEN {
        Err(WasapiError::UnsupportedFormat)
    } else {
        let tag = le16(s, 0);
        let channels = le16(s, 2);
        let rate = le32(s, 4);
        let block_align = le16(s, 12);
        let bits = le16(s, 14);
        let cb = le16(s, 16);
        if tag == FORMAT_TAG_EXTENSIBLE {
            if cb < EXTENSIBLE_CB_SIZE || s.len() < DESCRIPTOR_EXTENSIBLE_LEN {
                Err(WasapiError::UnsupportedFormat)
            } else {
                let validbits = le16(s, 18);
                let mask = le32(s, 20);
                let sub = spec_guid_subformat(s, 24);
                if sub == SubFormat::Other {
                    Err(WasapiError::UnsupportedFormat)
                } else if channels * bits / 8 > u16::MAX || rate * (channels * bits / 8)
                    > u32::MAX {
                    Err(WasapiError::UnsupportedFormat)
                } else {
                    Ok(
                        spec_new_format(
                            bits,
                            validbits,
                            if sub == SubFormat::IeeeFloat {
                                SampleType::Float
                            } else {
                                SampleType::Int
                            },
                            rate,
                            channels,
                            Option::Some(mask as u32),
                        ),
                    )
                }
            }
        } else if tag == FORMAT_TAG_PCM || tag == FORMAT_TAG_IEEE_FLOAT {
            if channels == 0 {
                Err(WasapiError::UnsupportedFormat)
            } else {
                let storebits = 8 * block_align / channels;
                if storebits > u16::MAX || rate * (channels * storebits / 8) > u32::MAX {
                    Err(WasapiError::UnsupportedFormat)
                } else {
                    Ok(
                        spec_new_format(
                            storebits,
                            bits,
                            if tag == FORMAT_TAG_IEEE_FLOAT {
                                SampleType::Float
                            } else {
                                SampleType::Int
                            },
                            rate,
                            channels,
                            Option::None,
                        ),
                    )
                }
            }
        } else {
            Err(WasapiError::UnsupportedFormat)
        }
    }
}

impl WaveFormat {
    /// Parse a descriptor from its raw little-endian byte layout, in
    /// either the extensible or the simple canonical shape. The accepted
    /// inputs and the result are exactly [`spec_parse`]; every accepted
    /// descriptor satisfies the derived-field invariant.
    pub fn parse(bytes: &Vec<u8>) -> (r: Result<WaveFormat, WasapiError>)
        ensures
            r is Ok <==> spec_parse(bytes@) is Ok,
            r is Ok ==> r->Ok_0@ == spec_parse(bytes@)->Ok_0 && r->Ok_0@.wf(),
            r is Err ==> r == Err::<WaveFormat, WasapiError>(WasapiError::UnsupportedFormat),
    {
        if bytes.len() < DESCRIPTOR_BASE_LEN {
            return Err(WasapiError::UnsupportedFormat);
        }
        let tag = read_u16_le(bytes, 0);
        let channels = read_u16_le(bytes, 2);
        let rate = read_u32_le(bytes, 4);
        let block_align = read_u16_le(bytes, 12);
        let bits = read_u16_le(bytes, 14);
        let cb = read_u16_le(bytes, 16);
        if tag == FORMAT_TAG_EXTENSIBLE {
            if cb < EXTENSIBLE_CB_SIZE || bytes.len() < DESCRIPTOR_EXTENSIBLE_LEN {
                return Err(WasapiError::UnsupportedFormat);
            }
            let validbits = read_u16_le(bytes, 18);
            let mask = read_u32_le(bytes, 20);
            let sub = read_guid_subformat(bytes, 24);
            let sample_type = match sub {
                SubFormat::Pcm => SampleType::Int,
                SubFormat::IeeeFloat => SampleType::Float,
                SubFormat::Other => {
                    return Err(WasapiError::UnsupportedFormat);
                },
            };
            proof {
                assert(channels as usize * bits as usize <= 65535 * 65535) by (nonlinear_arith)
                    requires
                        channels as usize <= 65535,
                        bits as usize <= 65535,
                ;
            }
            let stride: usize = channels as usize * bits as usize / 8;
            if stride > u16::MAX as usize {
                return Err(WasapiError::UnsupportedFormat);
            }
            proof {
                assert(rate as u64 * stride as u64 <= 0xFFFF_FFFFu64 * 65535) by (nonlinear_arith)
                    requires
                        rate as u64 <= 0xFFFF_FFFFu64,
                        stride as u64 <= 65535,
                ;
            }
            if rate as u64 * stride as u64 > u32::MAX as u64 {
                return Err(WasapiError::UnsupportedFormat);
            }
            Ok(
                WaveFormat::new(
                    bits as usize,
                    validbits as usize,
                    &sample_type,
                    rate as usize,
                    channels as usize,
                    Option::Some(mask),
                ),
            )
        } else if tag == FORMAT_TAG_PCM || tag == FORMAT_TAG_IEEE_FLOAT {
            if channels == 0 {
                return Err(WasapiError::UnsupportedFormat);
            }
            let sample_type = if tag == FORMAT_TAG_IEEE_FLOAT {
                SampleType::Float
            } else {
                SampleType::Int
            };
            let storebits: usize = 8 * block_align as usize / channels as usize;
            if storebits > u16::MAX as usize {
                return Err(WasapiError::UnsupportedFormat);
            }
            proof {
                assert(channels as usize * storebits <= 65535 * 65535) by (nonlinear_arith)
                    requires
                        channels as usize <= 65535,
                        storebits <= 65535,
                ;
            }
            let stride: usize = channels as usize * storebits / 8;
            proof {
                lemma_recomputed_stride_bounds(
                    block_align as int,
                    channels as int,
                    rate as int,
                    rate as int * block_align as int,
                );
                assert(rate as u64 * stride as u64 <= 0xFFFF_FFFFu64 * 65535) by (nonlinear_arith)
                    requires
                        rate as u64 <= 0xFFFF_FFFFu64,
                        stride as u64 <= 65535,
                ;
            }
            if rate as u64 * stride as u64 > u32::MAX as u64 {
                return Err(WasapiError::UnsupportedFormat);
            }
            Ok(
                WaveFormat::new(
                    storebits,
                    bits as usize,
                    &sample_type,
                    rate as usize,
                    channels as usize,
                    Option::None,
                ),
            )
        } else {
            Err(WasapiError::UnsupportedFormat)
        }
    }
}

/// What [`make_channelmasks`] returns: the masks to try for the given
/// channel count, most likely to be accepted first.
pub open spec fn spec_channelmasks(channels: int) -> Seq<u32> {
    if channels == 1 {
        seq![KSAUDIO_SPEAKER_MONO, simple_mask(1), 0u32]
    } else if channels == 2 {
        seq![KSAUDIO_SPEAKER_STEREO, 0u32]
    } else if channels == 3 {
        seq![CUSTOM_SPEAKER_2POINT1, simple_mask(3), 0u32]
    } else if channels == 4 {
        seq![KSAUDIO_SPEAKER_QUAD, KSAUDIO_SPEAKER_SURROUND, simple_mask(4), 0u32]
    } else if channels == 5 {
        seq![CUSTOM_SPEAKER_4POINT1, CUSTOM_SPEAKER_4POINT1_SURROUND, simple_mask(5), 0u32]
    } else if channels == 6 {
        seq![KSAUDIO_SPEAKER_5POINT1_SURROUND, KSAUDIO_SPEAKER_5POINT1, simple_mask(6), 0u32]
    } else if channels == 7 {
        seq![CUSTOM_SPEAKER_6POINT1_SURROUND, CUSTOM_SPEAKER_6POINT1, simple_mask(7), 0u32]
    } else if channels == 8 {
        seq![KSAUDIO_SPEAKER_7POINT1_SURROUND, KSAUDIO_SPEAKER_7POINT1, simple_mask(8), 0u32]
    } else if 9 <= channels <= 18 {
        seq![simple_mask(channels), 0u32]
    } else {
        seq![0u32]
    }
}

/// Suggested channel masks for the given number of channels, used to find
/// a format that a device accepts in exclusive mode. Sorted with the most
/// likely to be accepted first.
pub fn make_channelmasks(channels: usize) -> (r: Vec<u32>)
    ensures
        r@ == spec_channelmasks(channels as int),
{
    let r: Vec<u32> = if channels == 1 {
        vec![KSAUDIO_SPEAKER_MONO, make_simple_channelmask(1), 0]
    } else if channels == 2 {
        vec![KSAUDIO_SPEAKER_STEREO, 0]
    } else if channels == 3 {
        vec![CUSTOM_SPEAKER_2POINT1, make_simple_channelmask(3), 0]
    } else if channels == 4 {
        vec![KSAUDIO_SPEAKER_QUAD, KSAUDIO_SPEAKER_SURROUND, make_simple_channelmask(4), 0]
    } else if channels == 5 {
        vec![CUSTOM_SPEAKER_4POINT1, CUSTOM_SPEAKER_4POINT1_SURROUND, make_simple_channelmask(5), 0]
    } else if channels == 6 {
        vec![
            KSAUDIO_SPEAKER_5POINT1_SURROUND,
            KSAUDIO_SPEAKER_5POINT1,
            make_simple_channelmask(6),
            0,
        ]
    } else if channels == 7 {
        vec![CUSTOM_SPEAKER_6POINT1_SURROUND, CUSTOM_SPEAKER_6POINT1, make_simple_channelmask(7), 0]
    } else if channels == 8 {
        vec![
            KSAUDIO_SPEAKER_7POINT1_SURROUND,
            KSAUDIO_SPEAKER_7POINT1,
            make_simple_channelmask(8),
            0,
        ]
    } else if channels >= 9 && channels <= 18 {
        vec![make_simple_channelmask(channels), 0]
    } else {
        vec![0]
    };
    proof {
        assert(r@ =~= spec_channelmasks(channels as int));
    }
    r
}

/// The default mask with one speaker-position bit per channel, zero above
/// the 18 defined positions.
pub fn make_simple_channelmask(channels: usize) -> (r: u32)
    ensures
        r == simple_mask(channels as int),
{
    if channels >= 1 && channels <= 18 {
        let c: u32 = channels as u32;
        assert(c <= 18 ==> (1u32 << c) >= 1) by (bit_vector);
        (1u32 << c) - 1
    } else {
        0
    }
}

} // verus!
