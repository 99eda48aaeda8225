use crate::error::ConvertError;
use crate::jxl_io::StreamInfo;
use crate::timing::{delay_of, MIN_FRAME_DELAY_MS};
use vstd::prelude::*;

verus! {

/// The smallest input, in bytes, that is handed to the decoder at all.
pub const MIN_INPUT_LEN: usize = 2;

/// The frame count that `get_jxl_info` reports for every animated stream.
/// Counting frames exactly would take a full decode; this is a cheap estimate.
pub const ANIMATED_FRAME_ESTIMATE: usize = 2;

/// What `get_jxl_info` reports of a stream, read from its header alone.
#[derive(Clone, Copy, Debug, PartialEq, Eq, Structural)]
pub struct JxlInfo {
    pub width: u32,
    pub height: u32,
    pub num_frames: usize,
    pub has_alpha: bool,
}

/// `x`, saturated to the range of `u32`.
pub open spec fn clamp_u32(x: usize) -> u32 {
    if x > u32::MAX {
        u32::MAX
    } else {
        x as u32
    }
}

/// The report for a stream with the given basic information.
pub open spec fn info_of(info: StreamInfo) -> JxlInfo {
    JxlInfo {
        width: clamp_u32(info.width),
        height: clamp_u32(info.height),
        num_frames: if info.animation is Some { ANIMATED_FRAME_ESTIMATE } else { 1 },
        has_alpha: info.extra_channels > 0,
    }
}

/// Builds the report for a stream from its basic information.
pub fn report_info(info: &StreamInfo) -> (r: JxlInfo)
    ensures
        r == info_of(*info),
{
    let width: u32 = if info.width > u32::MAX as usize { u32::MAX } else { info.width as u32 };
    let height: u32 = if info.height > u32::MAX as usize { u32::MAX } else { info.height as u32 };
    let num_frames: usize = if info.animation.is_some() { ANIMATED_FRAME_ESTIMATE } else { 1 };
    JxlInfo { width, height, num_frames, has_alpha: info.extra_channels > 0 }
}

/// Dimensions that a PNG can declare: both non-zero and within `u32`.
pub open spec fn dims_ok(info: StreamInfo) -> bool {
    0 < info.width <= u32::MAX && 0 < info.height <= u32::MAX
}

/// Rejects a stream whose declared size no PNG can carry.
pub fn check_dimensions(info: &StreamInfo) -> (r: Result<(), ConvertError>)
    ensures
        r is Ok <==> dims_ok(*info),
        r is Err ==> r->Err_0 is InvalidDimensions,
{
    if info.width == 0 || info.height == 0 || info.width > u32::MAX as usize || info.height > u32::MAX as usize {
        Err(ConvertError::InvalidDimensions)
    } else {
        Ok(())
    }
}

/// The number of bytes of one frame: four per pixel, rows without padding.
pub open spec fn frame_len(width: int, height: int) -> int {
    width * 4 * height
}

/// A zeroed frame buffer of `width * 4` bytes by `height` rows, or
/// `BufferAllocationFailed` where that size does not fit in `usize`.
pub fn frame_buffer(width: usize, height: usize) -> (r: Result<Vec<u8>, ConvertError>)
    ensures
        r is Ok <==> frame_len(width as int, height as int) <= usize::MAX,
        r is Ok ==> r->Ok_0@.len() == frame_len(width as int, height as int)
            && forall|i: int| 0 <= i < r->Ok_0@.len() ==> r->Ok_0@[i] == 0u8,
        r is Err ==> r->Err_0 is BufferAllocationFailed,
{
    match width.checked_mul(4) {
        None => {
            if height == 0 {
                proof {
                    assert(frame_len(width as int, height as int) == 0) by (nonlinear_arith)
                        requires height == 0;
                }
                Ok(Vec::new())
            } else {
                proof {
                    assert(frame_len(width as int, height as int) >= width * 4) by (nonlinear_arith)
                        requires height >= 1, width >= 0;
                }
                Err(ConvertError::BufferAllocationFailed)
            }
        },
        Some(stride) => match stride.checked_mul(height) {
            None => Err(ConvertError::BufferAllocationFailed),
            Some(n) => {
                let v = vec![0u8; n];
                proof {
                    assert forall|i: int| 0 <= i < v@.len() implies v@[i] == 0u8 by {
                        assert(cloned(0u8, v@[i]));
                    }
                }
                Ok(v)
            },
        },
    }
}

/// One decoded frame: packed RGBA8 pixels, row-major without padding, the
/// duration in ticks that its header gave, if any, and the time it is shown for.
#[derive(Debug)]
pub struct FrameRecord {
    pub pixels: Vec<u8>,
    pub duration_ticks: Option<u32>,
    pub delay_ms: u32,
}

/// A fully decoded stream: its size, its ticks per second where it is animated,
/// and its frames in display order.
#[derive(Debug)]
pub struct DecodedStream {
    pub width: u32,
    pub height: u32,
    pub animation: Option<(u32, u32)>,
    pub frames: Vec<FrameRecord>,
}

/// A frame of the given size whose delay is its own duration converted at the
/// stream's tick rate.
pub open spec fn frame_ok(f: FrameRecord, width: u32, height: u32, animation: Option<(u32, u32)>) -> bool {
    &&& f.pixels@.len() == frame_len(width as int, height as int)
    &&& f.delay_ms == delay_of(animation, f.duration_ticks)
}

impl DecodedStream {
    /// A non-empty size, at least one frame, and every frame of that size with a
    /// delay computed from the stream's timing.
    pub open spec fn wf(&self) -> bool {
        &&& self.width > 0
        &&& self.height > 0
        &&& frame_len(self.width as int, self.height as int) <= usize::MAX
        &&& self.frames@.len() >= 1
        &&& forall|i: int| 0 <= i < self.frames@.len() ==> frame_ok(#[trigger] self.frames@[i], self.width, self.height, self.animation)
    }

    /// Whether the stream goes out as a single still PNG.
    pub open spec fn is_still(&self) -> bool {
        self.frames@.len() == 1 || self.animation is None
    }
}

/// A stream reports alpha exactly when it declares an extra channel.
pub proof fn lemma_alpha_iff_extra_channel(info: StreamInfo)
    ensures
        info_of(info).has_alpha <==> info.extra_channels >= 1,
{
}

/// Every delay that the timing rules give is at least the floor; a stream
/// without animation gives exactly the floor.
pub proof fn lemma_delay_floor(animation: Option<(u32, u32)>, ticks: Option<u32>)
    ensures
        delay_of(animation, ticks) >= MIN_FRAME_DELAY_MS,
        animation is None ==> delay_of(animation, ticks) == MIN_FRAME_DELAY_MS,
{
}

} // verus!
