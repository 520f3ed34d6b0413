//! The bounded-buffer ports: transfer of raw interleaved PCM bytes
//! between the application and the engine-owned ring buffer.
//!
//! The engine hands buffers out as packets; a port validates lengths
//! against its frame stride and moves bytes, all-or-nothing. A write whose
//! byte length does not match the frame count fails without touching
//! anything; a queue-backed write pops from the front of the queue only
//! when the queue holds enough bytes for the whole write.

use std::collections::VecDeque;

use vstd::prelude::*;

use crate::errors::WasapiError;
use crate::types::ShareMode;

verus! {

/// Raw engine flag bit: the data in the packet is not contiguous with the
/// previous packet.
pub const BUFFERFLAGS_DATA_DISCONTINUITY: u32 = 0x1;

/// Raw engine flag bit: treat the packet as silence.
pub const BUFFERFLAGS_SILENT: u32 = 0x2;

/// Raw engine flag bit: the packet's device position is unreliable.
pub const BUFFERFLAGS_TIMESTAMP_ERROR: u32 = 0x4;

/// Decoded form of the raw flags value `flags`.
pub open spec fn spec_buffer_flags(flags: u32) -> BufferFlags {
    BufferFlags {
        data_discontinuity: flags & BUFFERFLAGS_DATA_DISCONTINUITY > 0,
        silent: flags & BUFFERFLAGS_SILENT > 0,
        timestamp_error: flags & BUFFERFLAGS_TIMESTAMP_ERROR > 0,
    }
}

/// Decoded buffer flags, one field per engine flag bit.
#[derive(Clone, Copy, Debug, PartialEq, Eq, Structural)]
pub struct BufferFlags {
    pub data_discontinuity: bool,
    pub silent: bool,
    pub timestamp_error: bool,
}

impl BufferFlags {
    /// The raw flags value this decodes back to.
    pub open spec fn spec_to_u32(self) -> u32 {
        (((if self.data_discontinuity {
            BUFFERFLAGS_DATA_DISCONTINUITY
        } else {
            0
        }) + (if self.silent {
            BUFFERFLAGS_SILENT
        } else {
            0
        }) + (if self.timestamp_error {
            BUFFERFLAGS_TIMESTAMP_ERROR
        } else {
            0
        })) as u32)
    }

    /// Decode a raw flags value.
    pub fn new(flags: u32) -> (r: BufferFlags)
        ensures
            r == spec_buffer_flags(flags),
    {
        BufferFlags {
            data_discontinuity: flags & BUFFERFLAGS_DATA_DISCONTINUITY > 0,
            silent: flags & BUFFERFLAGS_SILENT > 0,
            timestamp_error: flags & BUFFERFLAGS_TIMESTAMP_ERROR > 0,
        }
    }

    /// The value with no flag set.
    pub fn none() -> (r: BufferFlags)
        ensures
            r == (BufferFlags {
                data_discontinuity: false,
                silent: false,
                timestamp_error: false,
            }),
    {
        BufferFlags { data_discontinuity: false, silent: false, timestamp_error: false }
    }

    /// Encode back to the raw flags value.
    pub fn to_u32(&self) -> (r: u32)
        ensures
            r == self.spec_to_u32(),
    {
        let mut value: u32 = 0;
        if self.data_discontinuity {
            value += BUFFERFLAGS_DATA_DISCONTINUITY;
        }
        if self.silent {
            value += BUFFERFLAGS_SILENT;
        }
        if self.timestamp_error {
            value += BUFFERFLAGS_TIMESTAMP_ERROR;
        }
        value
    }
}

/// Decoding a value encoded from decoded flags gives the flags back:
/// the three flag bits survive the round trip.
pub proof fn lemma_buffer_flags_round_trip(f: BufferFlags)
    ensures
        spec_buffer_flags(f.spec_to_u32()) == f,
{
    let d = f.data_discontinuity;
    let s = f.silent;
    let t = f.timestamp_error;
    let v = f.spec_to_u32();
    assert((v & 1u32 > 0) == d && (v & 2u32 > 0) == s && (v & 4u32 > 0) == t) by (bit_vector)
        requires
            v == (if d {
                1u32
            } else {
                0u32
            }) + (if s {
                2u32
            } else {
                0u32
            }) + (if t {
                4u32
            } else {
                0u32
            }),
    ;
}

/// Metadata describing one packet read from a capture buffer: the decoded
/// flags, the device-relative index of its first frame, and that frame's
/// timestamp in 100-ns units. Produced fresh on every read, never
/// persisted.
#[derive(Clone, Copy, Debug, PartialEq, Eq, Structural)]
pub struct BufferInfo {
    pub flags: BufferFlags,
    pub index: u64,
    pub timestamp: u64,
}

impl BufferInfo {
    /// Decode the raw flags value and pair it with the packet position.
    pub fn new(flags: u32, index: u64, timestamp: u64) -> (r: BufferInfo)
        ensures
            r == (BufferInfo { flags: spec_buffer_flags(flags), index, timestamp }),
    {
        BufferInfo { flags: BufferFlags::new(flags), index, timestamp }
    }

    /// The empty metadata returned for a no-op read.
    pub fn none() -> (r: BufferInfo)
        ensures
            r == (BufferInfo {
                flags: (BufferFlags {
                    data_discontinuity: false,
                    silent: false,
                    timestamp_error: false,
                }),
                index: 0,
                timestamp: 0,
            }),
    {
        BufferInfo { flags: BufferFlags::none(), index: 0, timestamp: 0 }
    }
}

/// One packet as the engine's capture buffer hands it out: the raw flags,
/// frame position and timestamp, and the packet's bytes, whose length is
/// always the frame count times the frame stride.
pub struct CapturedPacket {
    pub nbr_frames: u32,
    pub flags: u32,
    pub index: u64,
    pub timestamp: u64,
    pub bytes: Vec<u8>,
}

/// A validated write, ready to be copied into an acquired region of the
/// engine's ring buffer and released with the given flags. A frame count
/// of zero means the write is a no-op and no region is acquired.
pub struct RenderPacket {
    pub nbr_frames: u32,
    pub bytes: Vec<u8>,
    pub release_flags: u32,
}

/// The raw release flags for an optional decoded flags value: the encoded
/// flags if given, zero otherwise.
pub open spec fn spec_release_flags(buffer_flags: Option<BufferFlags>) -> u32 {
    match buffer_flags {
        Option::Some(f) => f.spec_to_u32(),
        Option::None => 0,
    }
}

/// A playback port bound to a stream client. It holds the frame stride
/// the client negotiated; its lifetime is tied to the client outliving
/// it, and it keeps no other state.
pub struct AudioRenderClient {
    bytes_per_frame: usize,
}

impl View for AudioRenderClient {
    type V = usize;

    closed spec fn view(&self) -> usize {
        self.bytes_per_frame
    }
}

impl AudioRenderClient {
    #[verifier::type_invariant]
    spec fn type_inv(self) -> bool {
        self.bytes_per_frame >= 1
    }

    pub(crate) fn from_bytes_per_frame(bytes_per_frame: usize) -> (r: AudioRenderClient)
        requires
            bytes_per_frame >= 1,
        ensures
            r@ == bytes_per_frame,
    {
        AudioRenderClient { bytes_per_frame }
    }

    /// The frame stride in bytes this port writes with.
    pub fn get_bytes_per_frame(&self) -> (r: usize)
        ensures
            r == self@,
            r >= 1,
    {
        proof {
            use_type_invariant(self);
        }
        self.bytes_per_frame
    }

    /// Validate a write of `nbr_frames` frames from a byte slice.
    ///
    /// The byte length must be exactly `nbr_frames` times the frame
    /// stride, else the write fails with `DataLengthMismatch` and nothing
    /// is written. A frame count of zero is a no-op success. On success
    /// the returned packet carries exactly the given bytes and the encoded
    /// release flags.
    pub fn write_to_device(
        &self,
        nbr_frames: usize,
        data: &Vec<u8>,
        buffer_flags: Option<BufferFlags>,
    ) -> (r: Result<RenderPacket, WasapiError>)
        requires
            nbr_frames * self@ <= u32::MAX,
        ensures
            nbr_frames == 0 ==> r is Ok && r->Ok_0.nbr_frames == 0 && r->Ok_0.bytes@ == Seq::<
                u8,
            >::empty(),
            nbr_frames > 0 && data@.len() != nbr_frames * self@ ==> r == Err::<
                RenderPacket,
                WasapiError,
            >(
                WasapiError::DataLengthMismatch {
                    received: data@.len() as usize,
                    expected: (nbr_frames * self@) as usize,
                },
            ),
            nbr_frames > 0 && data@.len() == nbr_frames * self@ ==> r is Ok
                && r->Ok_0.nbr_frames == nbr_frames && r->Ok_0.bytes@ == data@
                && r->Ok_0.release_flags == spec_release_flags(buffer_flags),
    {
        proof {
            use_type_invariant(self);
            assert(nbr_frames * 1 <= nbr_frames * (self@ as int)) by (nonlinear_arith)
                requires
                    1 <= self@,
                    0 <= nbr_frames,
            ;
        }
        if nbr_frames == 0 {
            return Ok(RenderPacket { nbr_frames: 0, bytes: Vec::new(), release_flags: 0 });
        }
        let nbr_bytes: usize = nbr_frames * self.bytes_per_frame;
        if nbr_bytes != data.len() {
            return Err(
                WasapiError::DataLengthMismatch { received: data.len(), expected: nbr_bytes },
            );
        }
        let mut bytes: Vec<u8> = Vec::new();
        let mut i: usize = 0;
        while i < data.len()
            invariant
                i <= data@.len(),
                bytes@ == data@.take(i as int),
            decreases data@.len() - i,
        {
            bytes.push(data[i]);
            i += 1;
            proof {
                assert(bytes@ =~= data@.take(i as int));
            }
        }
        proof {
            assert(bytes@ =~= data@);
        }
        let flags: u32 = match buffer_flags {
            Option::Some(bflags) => bflags.to_u32(),
            Option::None => 0,
        };
        Ok(RenderPacket { nbr_frames: nbr_frames as u32, bytes, release_flags: flags })
    }

    /// Validate a write of `nbr_frames` frames popped from the front of a
    /// byte queue.
    ///
    /// If the queue holds fewer bytes than the write needs, the write
    /// fails with `DataLengthTooShort` and the queue is left unmodified —
    /// partial pops never happen. A frame count of zero is a no-op
    /// success. On success exactly `nbr_frames` times the frame stride
    /// bytes leave the front of the queue and form the packet.
    pub fn write_to_device_from_deque(
        &self,
        nbr_frames: usize,
        data: &mut VecDeque<u8>,
        buffer_flags: Option<BufferFlags>,
    ) -> (r: Result<RenderPacket, WasapiError>)
        requires
            nbr_frames * self@ <= u32::MAX,
        ensures
            nbr_frames == 0 ==> r is Ok && r->Ok_0.nbr_frames == 0 && r->Ok_0.bytes@ == Seq::<
                u8,
            >::empty() && final(data)@ == old(data)@,
            nbr_frames > 0 && old(data)@.len() < nbr_frames * self@ ==> r == Err::<
                RenderPacket,
                WasapiError,
            >(
                WasapiError::DataLengthTooShort {
                    received: old(data)@.len() as usize,
                    expected: (nbr_frames * self@) as usize,
                },
            ) && final(data)@ == old(data)@,
            nbr_frames > 0 && old(data)@.len() >= nbr_frames * self@ ==> r is Ok
                && r->Ok_0.nbr_frames == nbr_frames && r->Ok_0.bytes@ == old(data)@.take(
                (nbr_frames * self@) as int,
            ) && final(data)@ == old(data)@.skip((nbr_frames * self@) as int)
                && r->Ok_0.release_flags == spec_release_flags(buffer_flags),
    {
        proof {
            use_type_invariant(self);
            assert(nbr_frames * 1 <= nbr_frames * (self@ as int)) by (nonlinear_arith)
                requires
                    1 <= self@,
                    0 <= nbr_frames,
            ;
        }
        if nbr_frames == 0 {
            return Ok(RenderPacket { nbr_frames: 0, bytes: Vec::new(), release_flags: 0 });
        }
        let nbr_bytes: usize = nbr_frames * self.bytes_per_frame;
        if nbr_bytes > data.len() {
            return Err(
                WasapiError::DataLengthTooShort { received: data.len(), expected: nbr_bytes },
            );
        }
        let ghost original: Seq<u8> = data@;
        let mut bytes: Vec<u8> = Vec::new();
        let mut i: usize = 0;
        while i < nbr_bytes
            invariant
                i <= nbr_bytes,
                nbr_bytes <= original.len(),
                data@ == original.skip(i as int),
                bytes@ == original.take(i as int),
            decreases nbr_bytes - i,
        {
            let popped = data.pop_front();
            match popped {
                Option::Some(b) => {
                    bytes.push(b);
                },
                Option::None => {
                    proof {
                        assert(false);
                    }
                },
            }
            i += 1;
            proof {
                assert(data@ =~= original.skip(i as int));
                assert(bytes@ =~= original.take(i as int));
            }
        }
        let flags: u32 = match buffer_flags {
            Option::Some(bflags) => bflags.to_u32(),
            Option::None => 0,
        };
        Ok(RenderPacket { nbr_frames: nbr_frames as u32, bytes, release_flags: flags })
    }
}

/// A capture port bound to a stream client. It holds the frame stride and
/// share mode the client negotiated; its lifetime is tied to the client
/// outliving it, and it keeps no other state.
pub struct AudioCaptureClient {
    sharemode: Option<ShareMode>,
    bytes_per_frame: usize,
}

/// The mathematical content of an [`AudioCaptureClient`].
pub struct AudioCaptureClientView {
    pub sharemode: Option<ShareMode>,
    pub bytes_per_frame: usize,
}

impl View for AudioCaptureClient {
    type V = AudioCaptureClientView;

    closed spec fn view(&self) -> AudioCaptureClientView {
        AudioCaptureClientView { sharemode: self.sharemode, bytes_per_frame: self.bytes_per_frame }
    }
}

impl AudioCaptureClient {
    #[verifier::type_invariant]
    spec fn type_inv(self) -> bool {
        self.bytes_per_frame >= 1
    }

    pub(crate) fn from_parts(sharemode: Option<ShareMode>, bytes_per_frame: usize) -> (r:
        AudioCaptureClient)
        requires
            bytes_per_frame >= 1,
        ensures
            r@ == (AudioCaptureClientView { sharemode, bytes_per_frame }),
    {
        AudioCaptureClient { sharemode, bytes_per_frame }
    }

    /// The share mode this port was created under.
    pub fn get_sharemode(&self) -> (r: Option<ShareMode>)
        ensures
            r == self@.sharemode,
    {
        self.sharemode
    }

    /// The frame stride in bytes this port reads with.
    pub fn get_bytes_per_frame(&self) -> (r: usize)
        ensures
            r == self@.bytes_per_frame,
            r >= 1,
    {
        proof {
            use_type_invariant(self);
        }
        self.bytes_per_frame
    }

    /// How to size the next read. In exclusive mode the packet size is
    /// implicitly the whole buffer, so there is nothing to ask and the
    /// answer is `None`; in shared mode the engine-reported next packet
    /// size is passed through.
    pub fn get_next_packet_size(&self, engine_frames: u32) -> (r: Option<u32>)
        ensures
            self@.sharemode == Some(ShareMode::Exclusive) ==> r is None,
            self@.sharemode != Some(ShareMode::Exclusive) ==> r == Some(engine_frames),
    {
        match self.sharemode {
            Option::Some(ShareMode::Exclusive) => Option::None,
            _ => Option::Some(engine_frames),
        }
    }

    /// Accept an engine packet into a caller buffer. Returns the number of
    /// frames read and the packet's metadata.
    ///
    /// A caller buffer with room for no whole frame is a valid no-op, as
    /// is an empty packet. If the packet holds more frames than the buffer
    /// has room for, the read fails with `DataLengthTooShort` and the
    /// buffer is untouched. Otherwise the packet's bytes land at the start
    /// of the buffer and everything beyond them is left unmodified.
    pub fn read_from_device(&self, data: &mut Vec<u8>, packet: &CapturedPacket) -> (r: Result<
        (u32, BufferInfo),
        WasapiError,
    >)
        requires
            packet.bytes@.len() == packet.nbr_frames * self@.bytes_per_frame,
        ensures
            final(data)@.len() == old(data)@.len(),
            (old(data)@.len() as int) / (self@.bytes_per_frame as int) == 0 ==> r == Ok::<
                (u32, BufferInfo),
                WasapiError,
            >((0u32, spec_buffer_info_none())) && final(data)@ == old(data)@,
            (old(data)@.len() as int) / (self@.bytes_per_frame as int) > 0 && packet.nbr_frames == 0
                ==> r == Ok::<(u32, BufferInfo), WasapiError>((0u32, spec_packet_info(packet)))
                && final(data)@ == old(data)@,
            (old(data)@.len() as int) / (self@.bytes_per_frame as int) > 0 && packet.nbr_frames > 0
                && (old(data)@.len() as int) / (self@.bytes_per_frame as int) < packet.nbr_frames ==> r
                == Err::<
                (u32, BufferInfo),
                WasapiError,
            >(
                WasapiError::DataLengthTooShort {
                    received: ((old(data)@.len() as int) / (self@.bytes_per_frame as int)) as usize,
                    expected: packet.nbr_frames as usize,
                },
            ) && final(data)@ == old(data)@,
            (old(data)@.len() as int) / (self@.bytes_per_frame as int) > 0 && packet.nbr_frames > 0
                && (old(data)@.len() as int) / (self@.bytes_per_frame as int) >= packet.nbr_frames ==> r
                == Ok::<
                (u32, BufferInfo),
                WasapiError,
            >((packet.nbr_frames, spec_packet_info(packet))) && final(data)@ == packet.bytes@
                + old(data)@.skip(packet.bytes@.len() as int),
    {
        proof {
            use_type_invariant(self);
        }
        let data_len_in_frames: usize = data.len() / self.bytes_per_frame;
        if data_len_in_frames == 0 {
            return Ok((0, BufferInfo::none()));
        }
        let buffer_info = BufferInfo::new(packet.flags, packet.index, packet.timestamp);
        if packet.nbr_frames == 0 {
            return Ok((0, buffer_info));
        }
        if data_len_in_frames < packet.nbr_frames as usize {
            return Err(
                WasapiError::DataLengthTooShort {
                    received: data_len_in_frames,
                    expected: packet.nbr_frames as usize,
                },
            );
        }
        let len_in_bytes: usize = packet.bytes.len();
        proof {
            lemma_frames_fit(
                old(data)@.len() as int,
                packet.nbr_frames as int,
                self.bytes_per_frame as int,
            );
        }
        let ghost original: Seq<u8> = data@;
        let mut i: usize = 0;
        while i < len_in_bytes
            invariant
                i <= len_in_bytes,
                len_in_bytes <= data@.len(),
                len_in_bytes == packet.bytes@.len(),
                data@.len() == original.len(),
                data@ == packet.bytes@.take(i as int) + original.skip(i as int),
            decreases len_in_bytes - i,
        {
            data.set(i, packet.bytes[i]);
            i += 1;
            proof {
                assert(data@ =~= packet.bytes@.take(i as int) + original.skip(i as int));
            }
        }
        proof {
            assert(data@ =~= packet.bytes@ + original.skip(len_in_bytes as int));
        }
        Ok((packet.nbr_frames, buffer_info))
    }

    /// Append the whole packet to the back of a byte queue; the queue
    /// grows by exactly the packet's bytes, and bounding its growth is the
    /// caller's responsibility. Returns the packet's metadata.
    pub fn read_from_device_to_deque(&self, data: &mut VecDeque<u8>, packet: &CapturedPacket) -> (r:
        BufferInfo)
        ensures
            final(data)@ == old(data)@ + packet.bytes@,
            r == spec_packet_info(packet),
    {
        let buffer_info = BufferInfo::new(packet.flags, packet.index, packet.timestamp);
        let ghost original: Seq<u8> = data@;
        let mut i: usize = 0;
        while i < packet.bytes.len()
            invariant
                i <= packet.bytes@.len(),
                data@ == original + packet.bytes@.take(i as int),
            decreases packet.bytes@.len() - i,
        {
            data.push_back(packet.bytes[i]);
            i += 1;
            proof {
                assert(data@ =~= original + packet.bytes@.take(i as int));
            }
        }
        proof {
            assert(data@ =~= original + packet.bytes@);
        }
        buffer_info
    }
}

/// The metadata decoded from a packet.
pub open spec fn spec_packet_info(packet: &CapturedPacket) -> BufferInfo {
    BufferInfo {
        flags: spec_buffer_flags(packet.flags),
        index: packet.index,
        timestamp: packet.timestamp,
    }
}

/// The empty metadata.
pub open spec fn spec_buffer_info_none() -> BufferInfo {
    BufferInfo {
        flags: BufferFlags { data_discontinuity: false, silent: false, timestamp_error: false },
        index: 0,
        timestamp: 0,
    }
}

/// When a buffer holds at least `frames` whole strides, it holds at least
/// `frames * stride` bytes.
proof fn lemma_frames_fit(len: int, frames: int, stride: int)
    requires
        stride >= 1,
        frames >= 0,
        len / stride >= frames,
        len >= 0,
    ensures
        frames * stride <= len,
{
    vstd::arithmetic::div_mod::lemma_fundamental_div_mod(len, stride);
    vstd::arithmetic::div_mod::lemma_mod_bound(len, stride);
    vstd::arithmetic::mul::lemma_mul_inequality(frames, len / stride, stride);
    assert((len / stride) * stride <= len);
}

} // verus!
