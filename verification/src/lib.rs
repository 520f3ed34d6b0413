//! A verified model of a native audio streaming layer: wave-format
//! descriptors, the stream-client state machine, bounded buffer transfer
//! for playback and capture, and session-notification dispatch.
//!
//! The operating system's audio engine itself is an external collaborator.
//! Every function here is pure with respect to the engine: values the engine
//! reports (buffer sizes, padding, captured packets, wait results) enter as
//! arguments, and the contracts state exactly what is decided or computed
//! from them.

mod client;
mod device;
mod errors;
mod events;
mod ports;
mod types;
mod waveformat;

pub use client::{
    calculate_aligned_period_near, calculate_period_100ns, exclusive_quirk_candidates,
    interpret_wait_result, select_first_accepted, AudioClient, InitializeParams,
};
pub use device::device_index_with_name;
pub use errors::WasapiError;
pub use events::{channel_volume_targets, session_state_for_dispatch, DisconnectReason, EventRegistration};
pub use types::{
    DeviceState, Direction, Role, SampleType, SessionState, ShareMode, StreamMode, TimingMode,
};
pub use ports::{
    AudioCaptureClient, AudioRenderClient, BufferFlags, BufferInfo, CapturedPacket, RenderPacket,
};
pub use waveformat::{make_channelmasks, make_simple_channelmask, SubFormat, WaveFormat};
