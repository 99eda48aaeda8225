use jxl::api::states::{Initialized, WithFrameInfo, WithImageInfo};
use jxl::api::{JxlDecoder, JxlDecoderOptions, JxlOutputBuffer, JxlPixelFormat, ProcessingResult};
use vstd::prelude::*;

verus! {

/// A decoder positioned before the stream header.
#[verifier::external_body]
pub struct AwaitingHeader {
    dec: JxlDecoder<Initialized>,
}

/// A decoder positioned after the stream header or after a frame's pixels,
/// that is before the next frame header.
#[verifier::external_body]
pub struct AwaitingFrame {
    dec: JxlDecoder<WithImageInfo>,
}

/// A decoder positioned after a frame header, before that frame's pixels.
#[verifier::external_body]
pub struct AwaitingPixels {
    dec: JxlDecoder<WithFrameInfo>,
}

/// What one attempt at a decoding stage came to.
pub enum Progress<D, B> {
    /// The stage finished; the decoder is positioned after it.
    Complete(D),
    /// The stage needs bytes beyond those consumed; the decoder is as before the attempt.
    NeedsMoreInput(B),
    /// The stream is malformed; the message is the decoder's.
    Failed(String),
}

/// `rest` is what is left of `input` after bytes were taken from its front.
pub open spec fn is_rest_of(rest: Seq<u8>, input: Seq<u8>) -> bool {
    rest.len() <= input.len() && rest == input.subrange(input.len() - rest.len(), input.len() as int)
}

/// The basic information of a stream, as plain values.
#[derive(Clone, Copy, Debug)]
pub struct StreamInfo {
    pub width: usize,
    pub height: usize,
    /// Ticks per second as (numerator, denominator), for an animated stream.
    pub animation: Option<(u32, u32)>,
    /// The number of channels beyond the colour channels.
    pub extra_channels: usize,
}

/// Relies on `JxlDecoder::new` with `JxlDecoderOptions::default()`: a decoder
/// positioned before the stream header.
#[verifier::external_body]
pub(crate) fn new_decoder() -> (r: AwaitingHeader) {
    AwaitingHeader { dec: JxlDecoder::new(JxlDecoderOptions::default()) }
}

/// Relies on `JxlDecoder<Initialized>::process` reading the stream header from
/// a byte slice, which only ever takes bytes from the slice's front.
#[verifier::external_body]
pub(crate) fn process_header(dec: AwaitingHeader, input: &mut &[u8]) -> (r: Progress<AwaitingFrame, AwaitingHeader>)
    ensures
        is_rest_of(final(input)@, old(input)@),
{
    match dec.dec.process(input, None) {
        Ok(ProcessingResult::Complete { result }) => Progress::Complete(AwaitingFrame { dec: result }),
        Ok(ProcessingResult::NeedsMoreInput { fallback, .. }) => Progress::NeedsMoreInput(AwaitingHeader { dec: fallback }),
        Err(e) => Progress::Failed(e.to_string()),
    }
}

/// Relies on `JxlDecoder<WithImageInfo>::basic_info`: size, animation timing and
/// extra channels of the stream.
#[verifier::external_body]
pub(crate) fn basic_info(dec: &AwaitingFrame) -> (r: StreamInfo) {
    let info = dec.dec.basic_info();
    StreamInfo {
        width: info.size.0,
        height: info.size.1,
        animation: info.animation.as_ref().map(|a| (a.tps_numerator, a.tps_denominator)),
        extra_channels: info.extra_channels.len(),
    }
}

/// Relies on `JxlPixelFormat::rgba8` and `JxlDecoder::set_pixel_format`: frames
/// come out as interleaved 8-bit RGBA, extra channels left out.
#[verifier::external_body]
pub(crate) fn request_rgba8(dec: &mut AwaitingFrame, extra_channels: usize) -> (r: Result<(), String>) {
    match dec.dec.set_pixel_format(JxlPixelFormat::rgba8(extra_channels)) {
        Ok(()) => Ok(()),
        Err(e) => Err(e.to_string()),
    }
}

/// Relies on `JxlDecoder<WithImageInfo>::process` reading the next frame header
/// from a byte slice, which only ever takes bytes from the slice's front.
#[verifier::external_body]
pub(crate) fn process_frame_header(dec: AwaitingFrame, input: &mut &[u8]) -> (r: Progress<AwaitingPixels, AwaitingFrame>)
    ensures
        is_rest_of(final(input)@, old(input)@),
{
    match dec.dec.process(input, None) {
        Ok(ProcessingResult::Complete { result }) => Progress::Complete(AwaitingPixels { dec: result }),
        Ok(ProcessingResult::NeedsMoreInput { fallback, .. }) => Progress::NeedsMoreInput(AwaitingFrame { dec: fallback }),
        Err(e) => Progress::Failed(e.to_string()),
    }
}

/// Relies on `JxlDecoder::scanned_frames`, whose last entry is recorded when a
/// visible frame's header is read: that frame's duration in ticks.
#[verifier::external_body]
pub(crate) fn frame_duration_ticks(dec: &AwaitingPixels) -> (r: Option<u32>) {
    dec.dec.scanned_frames().last().map(|f| f.duration_ticks)
}

/// Relies on `JxlOutputBuffer::new`, which asserts non-zero row count and row
/// length and a buffer of at least `rows * row_bytes` bytes, and on
/// `JxlDecoder<WithFrameInfo>::process`, which writes the frame's pixels into
/// that buffer and only ever takes bytes from the input slice's front.
#[verifier::external_body]
pub(crate) fn process_pixels(
    dec: AwaitingPixels,
    input: &mut &[u8],
    pixels: &mut Vec<u8>,
    rows: usize,
    row_bytes: usize,
) -> (r: Progress<AwaitingFrame, AwaitingPixels>)
    requires
        rows > 0,
        row_bytes > 0,
        old(pixels)@.len() == rows * row_bytes,
    ensures
        is_rest_of(final(input)@, old(input)@),
        final(pixels)@.len() == old(pixels)@.len(),
{
    let mut buffers = [JxlOutputBuffer::new(pixels.as_mut_slice(), rows, row_bytes)];
    match dec.dec.process(input, &mut buffers, None) {
        Ok(ProcessingResult::Complete { result }) => Progress::Complete(AwaitingFrame { dec: result }),
        Ok(ProcessingResult::NeedsMoreInput { fallback, .. }) => Progress::NeedsMoreInput(AwaitingPixels { dec: fallback }),
        Err(e) => Progress::Failed(e.to_string()),
    }
}

/// Relies on `JxlDecoder<WithImageInfo>::has_more_frames`: whether the stream
/// holds a frame after the one decoded last.
#[verifier::external_body]
pub(crate) fn has_more_frames(dec: &AwaitingFrame) -> (r: bool) {
    dec.dec.has_more_frames()
}

} // verus!
