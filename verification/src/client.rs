//! The stream client: the state machine at the heart of the streaming
//! layer.
//!
//! A client starts unbound (no format negotiated). The single transition
//! out of that state is a successful initialization, which fixes the share
//! mode, timing mode and frame stride. Everything the engine must be told
//! for that call — stream flags, period, buffer duration — is derived here,
//! and every operation that only makes sense on an initialized client
//! fails with `ClientNotInit` before it.
//!
//! The engine performs the actual calls; its answers (buffer sizes,
//! padding, format acceptance) come back in as arguments.

use vstd::prelude::*;

use crate::errors::WasapiError;
use crate::ports::{AudioCaptureClient, AudioRenderClient};
use crate::types::{Direction, ShareMode, StreamMode, TimingMode};
use crate::waveformat::{spec_channelmasks, spec_to_waveformatex, SubFormat, WaveFormat};

verus! {

/// Raw stream flag: capture the mix a playback device is rendering.
pub const STREAMFLAGS_LOOPBACK: u32 = 0x00020000;

/// Raw stream flag: the engine signals an event when a buffer is ready.
pub const STREAMFLAGS_EVENTCALLBACK: u32 = 0x00040000;

/// Raw stream flag: let the engine convert the format automatically.
pub const STREAMFLAGS_AUTOCONVERTPCM: u32 = 0x80000000;

/// Raw stream flag: use default-quality sample rate conversion.
pub const STREAMFLAGS_SRC_DEFAULT_QUALITY: u32 = 0x08000000;

/// The raw wait result that means the event object was signaled.
pub const WAIT_OBJECT_SIGNALED: u32 = 0;

/// The share mode a stream mode selects.
pub open spec fn spec_sharemode_of(mode: StreamMode) -> ShareMode {
    match mode {
        StreamMode::PollingShared { .. } => ShareMode::Shared,
        StreamMode::EventsShared { .. } => ShareMode::Shared,
        StreamMode::PollingExclusive { .. } => ShareMode::Exclusive,
        StreamMode::EventsExclusive { .. } => ShareMode::Exclusive,
    }
}

/// The timing mode a stream mode selects.
pub open spec fn spec_timingmode_of(mode: StreamMode) -> TimingMode {
    match mode {
        StreamMode::PollingShared { .. } => TimingMode::Polling,
        StreamMode::PollingExclusive { .. } => TimingMode::Polling,
        StreamMode::EventsShared { .. } => TimingMode::Events,
        StreamMode::EventsExclusive { .. } => TimingMode::Events,
    }
}

/// Whether a stream mode asks for automatic format conversion; only the
/// shared modes can.
pub open spec fn spec_autoconvert_of(mode: StreamMode) -> bool {
    match mode {
        StreamMode::PollingShared { autoconvert, .. } => autoconvert,
        StreamMode::EventsShared { autoconvert, .. } => autoconvert,
        StreamMode::PollingExclusive { .. } => false,
        StreamMode::EventsExclusive { .. } => false,
    }
}

/// The device period handed to the engine: zero in shared modes (the
/// engine decides), the requested period in exclusive modes.
pub open spec fn spec_period_of(mode: StreamMode) -> i64 {
    match mode {
        StreamMode::PollingShared { .. } => 0,
        StreamMode::EventsShared { .. } => 0,
        StreamMode::PollingExclusive { period_hns, .. } => period_hns,
        StreamMode::EventsExclusive { period_hns } => period_hns,
    }
}

/// The buffer duration handed to the engine; in event-driven exclusive
/// mode it must equal the period.
pub open spec fn spec_buffer_duration_of(mode: StreamMode) -> i64 {
    match mode {
        StreamMode::PollingShared { buffer_duration_hns, .. } => buffer_duration_hns,
        StreamMode::EventsShared { buffer_duration_hns, .. } => buffer_duration_hns,
        StreamMode::PollingExclusive { buffer_duration_hns, .. } => buffer_duration_hns,
        StreamMode::EventsExclusive { period_hns } => period_hns,
    }
}

/// The raw stream flags derived from the direction pair, share mode,
/// timing mode and the auto-convert request. The flag constants occupy
/// disjoint bits, so summing set flags equals their bitwise union.
pub open spec fn spec_stream_flags(
    device_direction: Direction,
    direction: Direction,
    mode: StreamMode,
) -> u32 {
    (((if device_direction == Direction::Render && direction == Direction::Capture {
        STREAMFLAGS_LOOPBACK
    } else {
        0
    }) + (if spec_autoconvert_of(mode) {
        STREAMFLAGS_AUTOCONVERTPCM + STREAMFLAGS_SRC_DEFAULT_QUALITY
    } else {
        0
    }) + (if spec_timingmode_of(mode) == TimingMode::Events {
        STREAMFLAGS_EVENTCALLBACK
    } else {
        0
    })) as u32)
}

/// Everything a successful validation fixes: what the engine is to be
/// told, and what the client will record once the engine accepts.
#[derive(Clone, Copy, Debug, PartialEq, Eq, Structural)]
pub struct InitializeParams {
    /// The direction the stream will run in.
    pub direction: Direction,
    /// The share mode the stream mode selects.
    pub sharemode: ShareMode,
    /// The timing mode the stream mode selects.
    pub timingmode: TimingMode,
    /// The raw stream flags for the engine call.
    pub streamflags: u32,
    /// The device period for the engine call, in 100-ns units.
    pub period_hns: i64,
    /// The buffer duration for the engine call, in 100-ns units.
    pub buffer_duration_hns: i64,
    /// The frame stride of the negotiated format, in bytes.
    pub bytes_per_frame: usize,
}

/// What [`AudioClient::initialize_client`] decides, for every input.
///
/// Only one cross-direction combination is legal: a playback device
/// opened for shared-mode capture, which becomes a loopback stream. A
/// playback device opened for exclusive-mode capture fails with
/// `LoopbackWithExclusiveMode`; a capture device opened for playback
/// fails with `RenderToCaptureDevice`; everything else succeeds and fixes
/// the parameters.
pub open spec fn spec_initialize(
    device_direction: Direction,
    direction: Direction,
    mode: StreamMode,
    bytes_per_frame: usize,
) -> Result<InitializeParams, WasapiError> {
    if device_direction == Direction::Render && direction == Direction::Capture
        && spec_sharemode_of(mode) == ShareMode::Exclusive {
        Err(WasapiError::LoopbackWithExclusiveMode)
    } else if device_direction == Direction::Capture && direction == Direction::Render {
        Err(WasapiError::RenderToCaptureDevice)
    } else {
        Ok(
            InitializeParams {
                direction,
                sharemode: spec_sharemode_of(mode),
                timingmode: spec_timingmode_of(mode),
                streamflags: spec_stream_flags(device_direction, direction, mode),
                period_hns: spec_period_of(mode),
                buffer_duration_hns: spec_buffer_duration_of(mode),
                bytes_per_frame,
            },
        )
    }
}

/// The mathematical content of an [`AudioClient`].
pub struct AudioClientView {
    pub direction: Direction,
    pub sharemode: Option<ShareMode>,
    pub timingmode: Option<TimingMode>,
    pub bytes_per_frame: Option<usize>,
}

impl AudioClientView {
    /// Whether a successful initialization has been recorded.
    pub open spec fn is_initialized(self) -> bool {
        &&& self.sharemode is Some
        &&& self.timingmode is Some
        &&& self.bytes_per_frame is Some
    }
}

/// The state half of a stream client: the direction it was created for,
/// and the share mode, timing mode and frame stride fixed by a successful
/// initialization. All three stay unset until then — that is the central
/// invariant behind the `ClientNotInit` failures.
pub struct AudioClient {
    direction: Direction,
    sharemode: Option<ShareMode>,
    timingmode: Option<TimingMode>,
    bytes_per_frame: Option<usize>,
}

impl View for AudioClient {
    type V = AudioClientView;

    closed spec fn view(&self) -> AudioClientView {
        AudioClientView {
            direction: self.direction,
            sharemode: self.sharemode,
            timingmode: self.timingmode,
            bytes_per_frame: self.bytes_per_frame,
        }
    }
}

impl AudioClient {
    #[verifier::type_invariant]
    spec fn type_inv(self) -> bool {
        match self.bytes_per_frame {
            Option::Some(b) => b >= 1,
            Option::None => true,
        }
    }

    /// A fresh, unbound client for a device of the given direction.
    pub fn new(direction: Direction) -> (r: AudioClient)
        ensures
            r@ == (AudioClientView {
                direction,
                sharemode: None,
                timingmode: None,
                bytes_per_frame: None,
            }),
    {
        AudioClient { direction, sharemode: None, timingmode: None, bytes_per_frame: None }
    }

    /// The state of a client activated against the process-loopback
    /// virtual endpoint: pre-bound to the playback direction and shared
    /// mode, with everything else still unset. Such a client must be
    /// initialized for capture in shared mode.
    pub fn new_application_loopback_client() -> (r: AudioClient)
        ensures
            r@ == (AudioClientView {
                direction: Direction::Render,
                sharemode: Some(ShareMode::Shared),
                timingmode: None,
                bytes_per_frame: None,
            }),
    {
        AudioClient {
            direction: Direction::Render,
            sharemode: Some(ShareMode::Shared),
            timingmode: None,
            bytes_per_frame: None,
        }
    }

    /// Validate an initialization request and derive everything the
    /// engine call needs. The client itself is untouched; once the engine
    /// accepts, [`AudioClient::apply_initialize`] records the outcome.
    ///
    /// The decision is exactly [`spec_initialize`]: the one illegal
    /// direction pair and the loopback-with-exclusive combination fail
    /// before any engine call would be made, everything else succeeds.
    pub fn initialize_client(
        &self,
        wavefmt: &WaveFormat,
        direction: &Direction,
        stream_mode: &StreamMode,
    ) -> (r: Result<InitializeParams, WasapiError>)
        requires
            wavefmt@.wf(),
            wavefmt@.block_align >= 1,
        ensures
            r == spec_initialize(
                self@.direction,
                *direction,
                *stream_mode,
                wavefmt@.block_align as usize,
            ),
            r is Ok ==> r->Ok_0.bytes_per_frame >= 1,
    {
        let sharemode = match stream_mode {
            StreamMode::PollingShared { .. } => ShareMode::Shared,
            StreamMode::EventsShared { .. } => ShareMode::Shared,
            StreamMode::PollingExclusive { .. } => ShareMode::Exclusive,
            StreamMode::EventsExclusive { .. } => ShareMode::Exclusive,
        };
        let timing = match stream_mode {
            StreamMode::PollingShared { .. } => TimingMode::Polling,
            StreamMode::PollingExclusive { .. } => TimingMode::Polling,
            StreamMode::EventsShared { .. } => TimingMode::Events,
            StreamMode::EventsExclusive { .. } => TimingMode::Events,
        };
        let mut streamflags: u32 = 0;
        match (&self.direction, direction, &sharemode) {
            (Direction::Render, Direction::Capture, ShareMode::Shared) => {
                streamflags = STREAMFLAGS_LOOPBACK;
            },
            (Direction::Render, Direction::Capture, ShareMode::Exclusive) => {
                return Err(WasapiError::LoopbackWithExclusiveMode);
            },
            (Direction::Capture, Direction::Render, _) => {
                return Err(WasapiError::RenderToCaptureDevice);
            },
            _ => {},
        }
        match stream_mode {
            StreamMode::PollingShared { autoconvert, .. } => {
                if *autoconvert {
                    streamflags = streamflags + (STREAMFLAGS_AUTOCONVERTPCM
                        + STREAMFLAGS_SRC_DEFAULT_QUALITY);
                }
            },
            StreamMode::EventsShared { autoconvert, .. } => {
                if *autoconvert {
                    streamflags = streamflags + (STREAMFLAGS_AUTOCONVERTPCM
                        + STREAMFLAGS_SRC_DEFAULT_QUALITY);
                }
            },
            _ => {},
        }
        if timing == TimingMode::Events {
            streamflags = streamflags + STREAMFLAGS_EVENTCALLBACK;
        }
        let (period, buffer_duration): (i64, i64) = match stream_mode {
            StreamMode::PollingShared { buffer_duration_hns, .. } => (0, *buffer_duration_hns),
            StreamMode::EventsShared { buffer_duration_hns, .. } => (0, *buffer_duration_hns),
            StreamMode::PollingExclusive { period_hns, buffer_duration_hns } => (
                *period_hns,
                *buffer_duration_hns,
            ),
            StreamMode::EventsExclusive { period_hns } => (*period_hns, *period_hns),
        };
        Ok(
            InitializeParams {
                direction: *direction,
                sharemode,
                timingmode: timing,
                streamflags,
                period_hns: period,
                buffer_duration_hns: buffer_duration,
                bytes_per_frame: wavefmt.get_blockalign() as usize,
            },
        )
    }

    /// Record a successful engine initialization: the direction, share
    /// mode, timing mode and frame stride the validated request fixed.
    pub fn apply_initialize(&mut self, params: &InitializeParams)
        requires
            params.bytes_per_frame >= 1,
        ensures
            final(self)@ == (AudioClientView {
                direction: params.direction,
                sharemode: Some(params.sharemode),
                timingmode: Some(params.timingmode),
                bytes_per_frame: Some(params.bytes_per_frame),
            }),
    {
        proof {
            use_type_invariant(&*self);
        }
        self.direction = params.direction;
        self.sharemode = Some(params.sharemode);
        self.timingmode = Some(params.timingmode);
        self.bytes_per_frame = Some(params.bytes_per_frame);
    }

    /// The total ring-buffer capacity in frames, as the engine reports
    /// it. Valid only after initialization; before it, `ClientNotInit`.
    pub fn get_buffer_size(&self, engine_buffer_frames: u32) -> (r: Result<u32, WasapiError>)
        ensures
            self@.is_initialized() ==> r == Ok::<u32, WasapiError>(engine_buffer_frames),
            !self@.is_initialized() ==> r == Err::<u32, WasapiError>(WasapiError::ClientNotInit),
    {
        if self.sharemode.is_some() && self.timingmode.is_some() && self.bytes_per_frame.is_some() {
            Ok(engine_buffer_frames)
        } else {
            Err(WasapiError::ClientNotInit)
        }
    }

    /// The number of frames currently queued in the ring buffer, as the
    /// engine reports it. Valid only after initialization; before it,
    /// `ClientNotInit`.
    pub fn get_current_padding(&self, engine_padding_frames: u32) -> (r: Result<u32, WasapiError>)
        ensures
            self@.is_initialized() ==> r == Ok::<u32, WasapiError>(engine_padding_frames),
            !self@.is_initialized() ==> r == Err::<u32, WasapiError>(WasapiError::ClientNotInit),
    {
        if self.sharemode.is_some() && self.timingmode.is_some() && self.bytes_per_frame.is_some() {
            Ok(engine_padding_frames)
        } else {
            Err(WasapiError::ClientNotInit)
        }
    }

    /// How many frames may be written right now. In event-driven
    /// exclusive mode the engine signals exactly when a full buffer is
    /// free, so the whole capacity is available; in every other
    /// initialized mode it is capacity minus padding. Before the share
    /// and timing modes are set, `ClientNotInit`.
    pub fn get_available_space_in_frames(
        &self,
        engine_buffer_frames: u32,
        engine_padding_frames: u32,
    ) -> (r: Result<u32, WasapiError>)
        requires
            self@.sharemode is Some && self@.timingmode is Some && !(self@.sharemode == Some(
                ShareMode::Exclusive,
            ) && self@.timingmode == Some(TimingMode::Events)) ==> engine_padding_frames
                <= engine_buffer_frames,
        ensures
            self@.sharemode is None || self@.timingmode is None ==> r == Err::<u32, WasapiError>(
                WasapiError::ClientNotInit,
            ),
            self@.sharemode == Some(ShareMode::Exclusive) && self@.timingmode == Some(
                TimingMode::Events,
            ) ==> r == Ok::<u32, WasapiError>(engine_buffer_frames),
            self@.sharemode is Some && self@.timingmode is Some && !(self@.sharemode == Some(
                ShareMode::Exclusive,
            ) && self@.timingmode == Some(TimingMode::Events)) ==> r == Ok::<u32, WasapiError>(
                (engine_buffer_frames - engine_padding_frames) as u32,
            ),
    {
        match (self.sharemode, self.timingmode) {
            (Option::Some(ShareMode::Exclusive), Option::Some(TimingMode::Events)) => Ok(
                engine_buffer_frames,
            ),
            (Option::Some(_), Option::Some(_)) => Ok(engine_buffer_frames - engine_padding_frames),
            _ => Err(WasapiError::ClientNotInit),
        }
    }

    /// A playback port carrying the negotiated frame stride. Before
    /// initialization, `ClientNotInit`.
    pub fn get_audiorenderclient(&self) -> (r: Result<AudioRenderClient, WasapiError>)
        ensures
            self@.is_initialized() ==> r is Ok && r->Ok_0@ == self@.bytes_per_frame->0,
            !self@.is_initialized() ==> r == Err::<AudioRenderClient, WasapiError>(
                WasapiError::ClientNotInit,
            ),
    {
        proof {
            use_type_invariant(self);
        }
        if self.sharemode.is_some() && self.timingmode.is_some() {
            match self.bytes_per_frame {
                Option::Some(b) => Ok(AudioRenderClient::from_bytes_per_frame(b)),
                Option::None => Err(WasapiError::ClientNotInit),
            }
        } else {
            Err(WasapiError::ClientNotInit)
        }
    }

    /// A capture port carrying the negotiated frame stride and share
    /// mode. Before initialization, `ClientNotInit`.
    pub fn get_audiocaptureclient(&self) -> (r: Result<AudioCaptureClient, WasapiError>)
        ensures
            self@.is_initialized() ==> r is Ok && r->Ok_0@.bytes_per_frame
                == self@.bytes_per_frame->0 && r->Ok_0@.sharemode == self@.sharemode,
            !self@.is_initialized() ==> r == Err::<AudioCaptureClient, WasapiError>(
                WasapiError::ClientNotInit,
            ),
    {
        proof {
            use_type_invariant(self);
        }
        if self.sharemode.is_some() && self.timingmode.is_some() {
            match self.bytes_per_frame {
                Option::Some(b) => Ok(AudioCaptureClient::from_parts(self.sharemode, b)),
                Option::None => Err(WasapiError::ClientNotInit),
            }
        } else {
            Err(WasapiError::ClientNotInit)
        }
    }

    /// The direction this client was created for, or re-bound to by
    /// initialization.
    pub fn get_direction(&self) -> (r: Direction)
        ensures
            r == self@.direction,
    {
        self.direction
    }

    /// The share mode fixed by initialization, `None` before it.
    pub fn get_sharemode(&self) -> (r: Option<ShareMode>)
        ensures
            r == self@.sharemode,
    {
        self.sharemode
    }

    /// The timing mode fixed by initialization, `None` before it.
    pub fn get_timing_mode(&self) -> (r: Option<TimingMode>)
        ensures
            r == self@.timingmode,
    {
        self.timingmode
    }
}

/// The candidate sequence of the exclusive-mode quirk ladder for a
/// format: the format as given; for one or two channels also its
/// canonical shape (some drivers accept a format in that shape that they
/// reject in the extensible one); then one variant per suggested channel
/// mask, in the order of [`spec_channelmasks`].
pub open spec fn spec_quirk_candidates(v: crate::waveformat::WaveFormatView) -> Seq<
    crate::waveformat::WaveFormatView,
> {
    let base = seq![v];
    let with_canonical = if v.channels <= 2 {
        base.push(spec_to_waveformatex(v))
    } else {
        base
    };
    with_canonical + spec_channelmasks(v.channels as int).map_values(
        |m: u32| (crate::waveformat::WaveFormatView { channel_mask: m, ..v }),
    )
}

/// The ordered alternatives the exclusive-mode quirk ladder asks the
/// device about, exactly [`spec_quirk_candidates`]. Order matters:
/// drivers may silently accept a shape they would reject if asked
/// differently, so the alternatives must be tried first to last.
pub fn exclusive_quirk_candidates(wave_fmt: &WaveFormat) -> (r: Vec<WaveFormat>)
    requires
        wave_fmt@.channels <= 2 ==> wave_fmt@.sub_format == SubFormat::Pcm
            || wave_fmt@.sub_format == SubFormat::IeeeFloat,
    ensures
        r@.map_values(|f: WaveFormat| f@) == spec_quirk_candidates(wave_fmt@),
{
    let mut out: Vec<WaveFormat> = Vec::new();
    out.push(*wave_fmt);
    if wave_fmt.get_nchannels() <= 2 {
        match wave_fmt.to_waveformatex() {
            Ok(canonical) => {
                out.push(canonical);
            },
            Err(_) => {
                proof {
                    assert(false);
                }
            },
        }
    }
    let ghost prefix: Seq<crate::waveformat::WaveFormatView> = out@.map_values(
        |f: WaveFormat| f@,
    );
    let masks = crate::waveformat::make_channelmasks(wave_fmt.get_nchannels() as usize);
    let ghost base_len: int = out@.len() as int;
    let mut i: usize = 0;
    while i < masks.len()
        invariant
            i <= masks@.len(),
            masks@ == spec_channelmasks(wave_fmt@.channels as int),
            out@.len() == base_len + i,
            base_len == prefix.len(),
            forall|j: int| 0 <= j < base_len ==> #[trigger] out@[j]@ == prefix[j],
            forall|j: int|
                0 <= j < i ==> #[trigger] out@[base_len + j]@ == (crate::waveformat::WaveFormatView {
                    channel_mask: masks@[j],
                    ..wave_fmt@
                }),
        decreases masks@.len() - i,
    {
        out.push(wave_fmt.with_channel_mask(masks[i]));
        i += 1;
    }
    proof {
        let mapped = out@.map_values(|f: WaveFormat| f@);
        let wanted = spec_quirk_candidates(wave_fmt@);
        if wave_fmt@.channels <= 2 {
            assert(prefix =~= seq![wave_fmt@].push(spec_to_waveformatex(wave_fmt@)));
        } else {
            assert(prefix =~= seq![wave_fmt@]);
        }
        assert(wanted.len() == prefix.len() + masks@.len());
        assert forall|j: int| 0 <= j < mapped.len() implies mapped[j] == wanted[j] by {
            if j < base_len {
                assert(out@[j]@ == prefix[j]);
            } else {
                let k = j - base_len;
                assert(out@[base_len + k]@ == (crate::waveformat::WaveFormatView {
                    channel_mask: masks@[k],
                    ..wave_fmt@
                }));
            }
        }
        assert(mapped =~= wanted);
    }
    out
}

/// Pick the first candidate the device accepted: `accepted[i]` records
/// the device's answer for `candidates[i]`. If no candidate was accepted
/// the ladder is exhausted and the result is `UnsupportedFormat`.
pub fn select_first_accepted(candidates: &Vec<WaveFormat>, accepted: &Vec<bool>) -> (r: Result<
    WaveFormat,
    WasapiError,
>)
    requires
        candidates@.len() == accepted@.len(),
    ensures
        (forall|i: int| 0 <= i < accepted@.len() ==> !accepted@[i]) ==> r == Err::<
            WaveFormat,
            WasapiError,
        >(WasapiError::UnsupportedFormat),
        (exists|i: int| 0 <= i < accepted@.len() && accepted@[i]) ==> r is Ok && (exists|i: int|
            0 <= i < accepted@.len() && accepted@[i] && (forall|j: int|
                0 <= j < i ==> !accepted@[j]) && r->Ok_0 == candidates@[i]),
{
    let mut i: usize = 0;
    while i < accepted.len()
        invariant
            i <= accepted@.len(),
            candidates@.len() == accepted@.len(),
            forall|j: int| 0 <= j < i ==> !accepted@[j],
        decreases accepted@.len() - i,
    {
        if accepted[i] {
            return Ok(candidates[i]);
        }
        i += 1;
    }
    Err(WasapiError::UnsupportedFormat)
}

/// Interpret the raw result of a timed wait on an event handle: the
/// signaled value means the wait succeeded, anything else (including the
/// timeout value) is reported as `EventTimeout` so callers can tell "no
/// data yet" from a stream failure.
pub fn interpret_wait_result(raw: u32) -> (r: Result<(), WasapiError>)
    ensures
        raw == WAIT_OBJECT_SIGNALED ==> r is Ok,
        raw != WAIT_OBJECT_SIGNALED ==> r == Err::<(), WasapiError>(WasapiError::EventTimeout),
{
    if raw != WAIT_OBJECT_SIGNALED {
        Err(WasapiError::EventTimeout)
    } else {
        Ok(())
    }
}

/// The period in 100-ns units that corresponds to `frames` frames at
/// `samplerate` frames per second: the exact rational
/// `10_000_000 * frames / samplerate`, rounded half up.
pub open spec fn spec_period_100ns(frames: int, samplerate: int) -> int
    recommends
        samplerate >= 1,
{
    (20_000_000 * frames + samplerate) / (2 * samplerate)
}

/// Calculate the period in 100-ns units that corresponds to the given
/// number of buffer frames at the given sample rate, rounded half up.
pub fn calculate_period_100ns(frames: i64, samplerate: i64) -> (r: i64)
    requires
        1 <= samplerate,
        0 <= frames,
        20_000_000 * frames + samplerate <= i64::MAX,
        2 * samplerate <= i64::MAX,
    ensures
        r == spec_period_100ns(frames as int, samplerate as int),
{
    (20_000_000 * frames + samplerate) / (2 * samplerate)
}

/// The greatest common divisor, by Euclid's recurrence.
pub open spec fn spec_gcd(a: nat, b: nat) -> nat
    decreases b,
{
    if b == 0 {
        a
    } else {
        spec_gcd(b, a % b)
    }
}

/// The least common multiple of `a` and `b`.
pub open spec fn spec_lcm(a: nat, b: nat) -> nat {
    if spec_gcd(a, b) == 0 {
        0
    } else {
        a * b / spec_gcd(a, b)
    }
}

/// Relies on `num_integer::Integer::lcm` for `u32`: the least common
/// multiple of the two arguments, computed as `a * (b / gcd(a, b))`. For
/// positive arguments whose least common multiple fits the type, that is
/// exactly `spec_lcm`, a multiple of both arguments and at least as large
/// as either.
#[verifier::external_body]
fn lcm_u32(a: u32, b: u32) -> (r: u32)
    requires
        1 <= a,
        1 <= b,
        spec_lcm(a as nat, b as nat) <= u32::MAX,
    ensures
        r as nat == spec_lcm(a as nat, b as nat),
        r % a == 0,
        r % b == 0,
        a <= r,
        b <= r,
{
    num_integer::Integer::lcm(&a, &b)
}

/// The byte alignment a period must respect: the frame stride alone when
/// no extra alignment is asked for (or an alignment of zero is given),
/// else the least common multiple of the stride and the requested
/// alignment.
pub open spec fn spec_alignment_bytes(block_align: int, align_bytes: Option<u32>) -> int {
    match align_bytes {
        Option::Some(b) => if b == 0 {
            block_align
        } else {
            spec_lcm(block_align as nat, b as nat) as int
        },
        Option::None => block_align,
    }
}

/// The segment size in frames: the byte alignment divided by the frame
/// stride.
pub open spec fn spec_alignment_frames(block_align: int, align_bytes: Option<u32>) -> int {
    spec_alignment_bytes(block_align, align_bytes) / block_align
}

/// The desired period converted to frames, rounded half up.
pub open spec fn spec_desired_frames(adjusted: int, rate: int) -> int {
    (2 * adjusted * rate + 10_000_000) / 20_000_000
}

/// The minimum period converted to frames, rounded up.
pub open spec fn spec_min_frames(min_period: int, rate: int) -> int {
    (min_period * rate + 9_999_999) / 10_000_000
}

/// How many whole alignment segments the period spans: the desired frame
/// count rounded down to whole segments, plus one segment if that fell
/// below the device minimum.
pub open spec fn spec_nbr_segments(desired_frames: int, min_frames: int, align_frames: int) -> int {
    let n = desired_frames / align_frames;
    if n * align_frames < min_frames {
        n + 1
    } else {
        n
    }
}

/// What [`calculate_aligned_period_near`] computes: the desired period
/// clamped up to the device minimum, converted to frames, rounded to a
/// whole number of alignment segments (never below the minimum), and
/// converted back to 100-ns units.
pub open spec fn spec_aligned_period(
    desired_period: int,
    min_period: int,
    block_align: int,
    align_bytes: Option<u32>,
    rate: int,
) -> int {
    let adjusted = if desired_period >= min_period {
        desired_period
    } else {
        min_period
    };
    let af = spec_alignment_frames(block_align, align_bytes);
    let df = spec_desired_frames(adjusted, rate);
    let mf = spec_min_frames(min_period, rate);
    let n = spec_nbr_segments(df, mf, af);
    spec_period_100ns(af * n, rate)
}

/// A period of a whole number of alignment segments, each at least the
/// rounded-up minimum frame count, corresponds to a time of at least the
/// minimum period.
proof fn lemma_aligned_period_at_least_min(
    adjusted: int,
    min_period: int,
    rate: int,
    af: int,
)
    requires
        rate >= 1,
        af >= 1,
        min_period >= 0,
        adjusted >= min_period,
    ensures
        ({
            let df = spec_desired_frames(adjusted, rate);
            let mf = spec_min_frames(min_period, rate);
            let n = spec_nbr_segments(df, mf, af);
            af * n >= mf && spec_period_100ns(af * n, rate) >= min_period
        }),
{
    let yb = adjusted * rate;
    let y = min_period * rate;
    let qb = yb / 10_000_000;
    let q = y / 10_000_000;
    let df = spec_desired_frames(adjusted, rate);
    let mf = spec_min_frames(min_period, rate);
    let n0 = df / af;
    let n = spec_nbr_segments(df, mf, af);

    vstd::arithmetic::mul::lemma_mul_nonnegative(min_period, rate);
    vstd::arithmetic::mul::lemma_mul_inequality(min_period, adjusted, rate);
    assert(y <= yb);
    vstd::arithmetic::mul::lemma_mul_is_associative(2, adjusted, rate);
    assert(2 * adjusted * rate == 2 * yb);

    // df >= qb: the half-up rounding never drops below the floor.
    vstd::arithmetic::div_mod::lemma_fundamental_div_mod(yb, 10_000_000);
    vstd::arithmetic::div_mod::lemma_mod_bound(yb, 10_000_000);
    assert(2 * yb + 10_000_000 >= 20_000_000 * qb);
    vstd::arithmetic::div_mod::lemma_div_is_ordered(20_000_000 * qb, 2 * yb + 10_000_000, 20_000_000);
    vstd::arithmetic::div_mod::lemma_div_multiples_vanish(qb, 20_000_000);
    assert(df >= qb);

    // qb >= q.
    vstd::arithmetic::div_mod::lemma_div_is_ordered(y, yb, 10_000_000);
    assert(qb >= q);

    // mf <= q + 1.
    vstd::arithmetic::div_mod::lemma_fundamental_div_mod(y, 10_000_000);
    vstd::arithmetic::div_mod::lemma_mod_bound(y, 10_000_000);
    assert(y + 9_999_999 <= 10_000_000 * q + 19_999_998);
    vstd::arithmetic::div_mod::lemma_div_is_ordered(
        y + 9_999_999,
        10_000_000 * (q + 1) + 9_999_998,
        10_000_000,
    );
    vstd::arithmetic::div_mod::lemma_div_multiples_vanish_fancy(q + 1, 9_999_998, 10_000_000);
    assert(mf <= q + 1);

    assert(df >= mf - 1);

    // n * af >= mf.
    vstd::arithmetic::div_mod::lemma_fundamental_div_mod(df, af);
    vstd::arithmetic::div_mod::lemma_mod_bound(df, af);
    assert(n0 * af == af * n0) by {
        vstd::arithmetic::mul::lemma_mul_is_commutative(n0, af);
    }
    assert(af * n0 >= df - af + 1);
    if n0 * af < mf {
        assert(n == n0 + 1);
        assert(af * n == af * n0 + af) by {
            vstd::arithmetic::mul::lemma_mul_is_distributive_add(af, n0, 1);
        }
        assert(af * n >= df + 1);
        assert(af * n >= mf);
    } else {
        assert(n == n0);
        assert(af * n >= mf);
    }

    // 10_000_000 * mf >= y, so 10_000_000 * (af * n) >= y.
    vstd::arithmetic::div_mod::lemma_fundamental_div_mod(y + 9_999_999, 10_000_000);
    vstd::arithmetic::div_mod::lemma_mod_bound(y + 9_999_999, 10_000_000);
    assert(10_000_000 * mf >= y);
    vstd::arithmetic::mul::lemma_mul_inequality(mf, af * n, 10_000_000);
    assert(mf * 10_000_000 == 10_000_000 * mf) by {
        vstd::arithmetic::mul::lemma_mul_is_commutative(mf, 10_000_000);
    }
    assert((af * n) * 10_000_000 == 10_000_000 * (af * n)) by {
        vstd::arithmetic::mul::lemma_mul_is_commutative(af * n, 10_000_000);
    }
    assert(10_000_000 * (af * n) >= y);

    // The period of af * n frames is at least the minimum period.
    assert(20_000_000 * (af * n) + rate >= (2 * rate) * min_period) by {
        assert((2 * rate) * min_period == 2 * y) by {
            vstd::arithmetic::mul::lemma_mul_is_commutative(min_period, rate);
            vstd::arithmetic::mul::lemma_mul_is_distributive_add_other_way(2, rate, 0);
            assert((2 * rate) * min_period == 2 * (rate * min_period))
                by (nonlinear_arith);
        }
    }
    vstd::arithmetic::div_mod::lemma_div_is_ordered(
        (2 * rate) * min_period,
        20_000_000 * (af * n) + rate,
        2 * rate,
    );
    vstd::arithmetic::div_mod::lemma_div_multiples_vanish(min_period, 2 * rate);
    assert(spec_period_100ns(af * n, rate) >= min_period);
}

/// A period size in 100-ns units near a desired value, never below the
/// device minimum, whose buffer size in bytes is aligned both to the
/// format's frame stride and to the requested byte alignment (give `None`,
/// `Some(0)` or `Some(1)` for no extra alignment requirement). Some
/// hardware rejects buffer sizes that are not multiples of a fixed byte
/// count, commonly 128.
///
/// `min_period` is the device's minimum period as the engine reports it.
/// The result is exactly [`spec_aligned_period`]: a whole number of
/// alignment segments, and never below `min_period`.
pub fn calculate_aligned_period_near(
    desired_period: i64,
    min_period: i64,
    align_bytes: Option<u32>,
    wave_fmt: &WaveFormat,
) -> (r: i64)
    requires
        wave_fmt@.wf(),
        wave_fmt@.block_align >= 1,
        wave_fmt@.sample_rate >= 1,
        0 <= desired_period,
        0 <= min_period,
        desired_period * wave_fmt@.sample_rate as int <= 4_500_000_000_000_000_000,
        min_period * wave_fmt@.sample_rate as int <= 4_500_000_000_000_000_000,
        (match align_bytes {
            Option::Some(b) => b == 0 || spec_lcm(wave_fmt@.block_align as nat, b as nat)
                <= u32::MAX,
            Option::None => true,
        }),
    ensures
        r == spec_aligned_period(
            desired_period as int,
            min_period as int,
            wave_fmt@.block_align as int,
            align_bytes,
            wave_fmt@.sample_rate as int,
        ),
        r >= min_period,
{
    let adjusted_desired_period: i64 = if desired_period >= min_period {
        desired_period
    } else {
        min_period
    };
    let frame_bytes: u32 = wave_fmt.get_blockalign();
    let period_alignment_bytes: u32 = match align_bytes {
        Option::Some(0) => frame_bytes,
        Option::Some(bytes) => lcm_u32(frame_bytes, bytes),
        Option::None => frame_bytes,
    };
    let period_alignment_frames: i64 = (period_alignment_bytes / frame_bytes) as i64;
    proof {
        vstd::arithmetic::div_mod::lemma_div_is_ordered(
            frame_bytes as int,
            period_alignment_bytes as int,
            frame_bytes as int,
        );
        vstd::arithmetic::div_mod::lemma_div_by_self(frame_bytes as int);
        assert(period_alignment_frames >= 1);
    }
    let rate: i64 = wave_fmt.get_samplespersec() as i64;
    proof {
        vstd::arithmetic::mul::lemma_mul_nonnegative(adjusted_desired_period as int, rate as int);
        vstd::arithmetic::mul::lemma_mul_nonnegative(min_period as int, rate as int);
    }
    let desired_period_frames: i64 = (2 * (adjusted_desired_period * rate) + 10_000_000)
        / 20_000_000;
    let min_period_frames: i64 = (min_period * rate + 9_999_999) / 10_000_000;
    proof {
        vstd::arithmetic::div_mod::lemma_div_pos_is_pos(
            2 * (adjusted_desired_period as int * rate as int) + 10_000_000,
            20_000_000,
        );
        vstd::arithmetic::div_mod::lemma_fundamental_div_mod(
            desired_period_frames as int,
            period_alignment_frames as int,
        );
        vstd::arithmetic::div_mod::lemma_mod_bound(
            desired_period_frames as int,
            period_alignment_frames as int,
        );
        vstd::arithmetic::div_mod::lemma_div_pos_is_pos(
            desired_period_frames as int,
            period_alignment_frames as int,
        );
        vstd::arithmetic::div_mod::lemma_fundamental_div_mod(
            2 * (adjusted_desired_period as int * rate as int) + 10_000_000,
            20_000_000,
        );
        vstd::arithmetic::div_mod::lemma_mod_bound(
            2 * (adjusted_desired_period as int * rate as int) + 10_000_000,
            20_000_000,
        );
    }
    let mut nbr_segments: i64 = desired_period_frames / period_alignment_frames;
    let ghost n0: int = nbr_segments as int;
    let ghost paf: int = period_alignment_frames as int;
    let ghost dpf: int = desired_period_frames as int;
    proof {
        vstd::arithmetic::mul::lemma_mul_is_commutative(n0, paf);
        vstd::arithmetic::mul::lemma_mul_is_distributive_add(paf, n0, 1);
        assert(paf * n0 <= dpf);
    }
    if nbr_segments * period_alignment_frames < min_period_frames {
        nbr_segments += 1;
    }
    proof {
        vstd::arithmetic::mul::lemma_mul_is_associative(
            2,
            adjusted_desired_period as int,
            rate as int,
        );
        lemma_aligned_period_at_least_min(
            adjusted_desired_period as int,
            min_period as int,
            rate as int,
            paf,
        );
        assert(period_alignment_frames * nbr_segments <= dpf + paf);
        assert(20_000_000 * dpf <= 2 * (adjusted_desired_period as int * rate as int)
            + 10_000_000);
    }
    let aligned_period = calculate_period_100ns(period_alignment_frames * nbr_segments, rate);
    aligned_period
}


} // verus!
