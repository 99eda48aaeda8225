use crate::error::{ConvertError, Stage};
use crate::jxl_io::{
    basic_info, has_more_frames, is_rest_of, new_decoder, process_frame_header, process_header,
    process_pixels, request_rgba8, AwaitingFrame, AwaitingHeader, AwaitingPixels, Progress,
    StreamInfo,
};
use crate::stream::{
    check_dimensions, dims_ok, frame_buffer, frame_len, frame_ok, DecodedStream, FrameRecord,
    MIN_INPUT_LEN,
};
use crate::jxl_io::frame_duration_ticks;
use crate::timing::frame_delay_ms;
use vstd::prelude::*;

verus! {

/// `e` is an error of the given decoding stage.
pub open spec fn stage_error(e: ConvertError, stage: Stage) -> bool {
    match e {
        ConvertError::IncompleteStream { stage: s } => s == stage,
        ConvertError::DecodeError { stage: s, .. } => s == stage,
        _ => false,
    }
}

/// Taking bytes from the front twice is taking them once.
pub proof fn lemma_rest_trans(a: Seq<u8>, b: Seq<u8>, c: Seq<u8>)
    requires
        is_rest_of(a, b),
        is_rest_of(b, c),
    ensures
        is_rest_of(a, c),
{
    assert(a =~= c.subrange(c.len() - a.len(), c.len() as int));
}

/// Taking no bytes leaves the input as it is.
pub proof fn lemma_rest_refl(a: Seq<u8>)
    ensures
        is_rest_of(a, a),
{
    assert(a =~= a.subrange(0, a.len() as int));
}

/// What a stage does after an attempt that wanted more input: with `before`
/// bytes left before the attempt and `after` left now, it gives up where no
/// input is left, or where the attempt took none (a retry could not differ),
/// and otherwise tries again.
pub fn shortfall(stage: Stage, before: usize, after: usize) -> (r: Option<ConvertError>)
    ensures
        r is Some <==> (after == 0 || after == before),
        r is Some ==> r->Some_0 == (ConvertError::IncompleteStream { stage }),
{
    if after == 0 || after == before {
        Some(ConvertError::IncompleteStream { stage })
    } else {
        None
    }
}

/// What a stage driver does after one attempt.
pub enum StageStep<D, B> {
    /// The stage is complete.
    Done(D),
    /// Feed the decoder again.
    Retry(B),
    /// The stage failed.
    Stop(ConvertError),
}

/// Decides on one attempt at a stage, given what the decoder returned and the
/// bytes left before (`before`) and after (`after`) the attempt: a completed
/// stage is done, a decoder failure is a `DecodeError` of the stage carrying
/// the decoder's message, and a request for more input is retried unless
/// `shortfall` gives up.
pub fn stage_step<D, B>(step: Progress<D, B>, stage: Stage, before: usize, after: usize) -> (r: StageStep<D, B>)
    ensures
        match step {
            Progress::Complete(d) => r == StageStep::<D, B>::Done(d),
            Progress::Failed(m) => r == StageStep::<D, B>::Stop(ConvertError::DecodeError { stage, message: m }),
            Progress::NeedsMoreInput(b) => if after == 0 || after == before {
                r == StageStep::<D, B>::Stop(ConvertError::IncompleteStream { stage })
            } else {
                r == StageStep::<D, B>::Retry(b)
            },
        },
{
    match step {
        Progress::Complete(d) => StageStep::Done(d),
        Progress::Failed(message) => StageStep::Stop(ConvertError::DecodeError { stage, message }),
        Progress::NeedsMoreInput(b) => match shortfall(stage, before, after) {
            Some(e) => StageStep::Stop(e),
            None => StageStep::Retry(b),
        },
    }
}

/// Runs the stream-header stage to its end, feeding the decoder until it
/// completes, fails, or wants bytes that the input cannot give.
pub fn drive_header(dec: AwaitingHeader, input: &mut &[u8]) -> (r: Result<AwaitingFrame, ConvertError>)
    ensures
        is_rest_of(final(input)@, old(input)@),
        r is Err ==> stage_error(r->Err_0, Stage::Header),
{
    let ghost start = input@;
    proof { lemma_rest_refl(start); }
    let mut dec = dec;
    loop
        invariant
            is_rest_of(input@, start),
            start == old(input)@,
        decreases input@.len(),
    {
        let before = input.len();
        let ghost mid = input@;
        let step = process_header(dec, input);
        proof { lemma_rest_trans(input@, mid, start); }
        match stage_step(step, Stage::Header, before, input.len()) {
            StageStep::Done(next) => return Ok(next),
            StageStep::Retry(back) => dec = back,
            StageStep::Stop(e) => return Err(e),
        }
    }
}

/// Runs the header stage of the next frame to its end.
pub fn drive_frame_header(dec: AwaitingFrame, input: &mut &[u8]) -> (r: Result<AwaitingPixels, ConvertError>)
    ensures
        is_rest_of(final(input)@, old(input)@),
        r is Err ==> stage_error(r->Err_0, Stage::FrameHeader),
{
    let ghost start = input@;
    proof { lemma_rest_refl(start); }
    let mut dec = dec;
    loop
        invariant
            is_rest_of(input@, start),
            start == old(input)@,
        decreases input@.len(),
    {
        let before = input.len();
        let ghost mid = input@;
        let step = process_frame_header(dec, input);
        proof { lemma_rest_trans(input@, mid, start); }
        match stage_step(step, Stage::FrameHeader, before, input.len()) {
            StageStep::Done(next) => return Ok(next),
            StageStep::Retry(back) => dec = back,
            StageStep::Stop(e) => return Err(e),
        }
    }
}

/// Runs the pixel stage of the current frame to its end, the decoder writing
/// `rows` rows of `row_bytes` bytes each into `pixels`.
pub fn drive_pixels(
    dec: AwaitingPixels,
    input: &mut &[u8],
    pixels: &mut Vec<u8>,
    rows: usize,
    row_bytes: usize,
) -> (r: Result<AwaitingFrame, ConvertError>)
    requires
        rows > 0,
        row_bytes > 0,
        old(pixels)@.len() == rows * row_bytes,
    ensures
        is_rest_of(final(input)@, old(input)@),
        final(pixels)@.len() == old(pixels)@.len(),
        r is Err ==> stage_error(r->Err_0, Stage::PixelData),
{
    let ghost start = input@;
    let ghost len = pixels@.len();
    proof { lemma_rest_refl(start); }
    let mut dec = dec;
    loop
        invariant
            is_rest_of(input@, start),
            start == old(input)@,
            len == old(pixels)@.len(),
            pixels@.len() == len,
            len == rows * row_bytes,
            rows > 0,
            row_bytes > 0,
        decreases input@.len(),
    {
        let before = input.len();
        let ghost mid = input@;
        let step = process_pixels(dec, input, pixels, rows, row_bytes);
        proof { lemma_rest_trans(input@, mid, start); }
        match stage_step(step, Stage::PixelData, before, input.len()) {
            StageStep::Done(next) => return Ok(next),
            StageStep::Retry(back) => dec = back,
            StageStep::Stop(e) => return Err(e),
        }
    }
}

/// An error that the frame loop can end in.
pub open spec fn frame_loop_error(e: ConvertError) -> bool {
    stage_error(e, Stage::FrameHeader) || stage_error(e, Stage::PixelData) || e is BufferAllocationFailed
}

/// Decodes frame after frame, from a decoder positioned before the first frame
/// header, until the decoder reports no further frame. A stream cannot hold
/// more frames than it has bytes: where the decoder reports a frame beyond the
/// first `max_frames`, the call fails with `IncompleteStream` in the frame
/// header stage, before decoding that frame (at once where `max_frames` is 0).
pub fn collect_frames(dec: AwaitingFrame, info: &StreamInfo, input: &mut &[u8], max_frames: usize) -> (r: Result<Vec<FrameRecord>, ConvertError>)
    requires
        dims_ok(*info),
    ensures
        is_rest_of(final(input)@, old(input)@),
        r is Ok ==> {
            &&& 1 <= r->Ok_0@.len() <= max_frames
            &&& forall|i: int| 0 <= i < r->Ok_0@.len() ==> frame_ok(#[trigger] r->Ok_0@[i], info.width as u32, info.height as u32, info.animation)
            &&& frame_len(info.width as int, info.height as int) <= usize::MAX
        },
        r is Err ==> frame_loop_error(r->Err_0),
        max_frames == 0 ==> r is Err && r->Err_0 is IncompleteStream && stage_error(r->Err_0, Stage::FrameHeader),
{
    let ghost start = input@;
    proof { lemma_rest_refl(start); }
    let mut frames: Vec<FrameRecord> = Vec::new();
    let mut dec = dec;
    loop
        invariant
            is_rest_of(input@, start),
            start == old(input)@,
            dims_ok(*info),
            frames@.len() <= max_frames,
            frames@.len() > 0 ==> frame_len(info.width as int, info.height as int) <= usize::MAX,
            forall|i: int| 0 <= i < frames@.len() ==> frame_ok(#[trigger] frames@[i], info.width as u32, info.height as u32, info.animation),
        decreases max_frames - frames@.len(),
    {
        if frames.len() >= max_frames {
            return Err(ConvertError::IncompleteStream { stage: Stage::FrameHeader });
        }
        let ghost s0 = input@;
        let header_step = drive_frame_header(dec, input);
        proof { lemma_rest_trans(input@, s0, start); }
        let frame_dec = match header_step {
            Ok(d) => d,
            Err(e) => return Err(e),
        };
        let ticks = frame_duration_ticks(&frame_dec);
        let delay_ms = frame_delay_ms(info.animation, ticks);
        let mut pixels = match frame_buffer(info.width, info.height) {
            Ok(p) => p,
            Err(e) => return Err(e),
        };
        proof {
            assert(info.width * 4 <= usize::MAX) by (nonlinear_arith)
                requires info.width * 4 * info.height <= usize::MAX, info.height >= 1, info.width >= 0;
            assert(frame_len(info.width as int, info.height as int) == info.height * (info.width * 4)) by (nonlinear_arith);
        }
        let ghost s1 = input@;
        let pixel_step = drive_pixels(frame_dec, input, &mut pixels, info.height, info.width * 4);
        proof { lemma_rest_trans(input@, s1, start); }
        let next = match pixel_step {
            Ok(d) => d,
            Err(e) => return Err(e),
        };
        frames.push(FrameRecord { pixels, duration_ticks: ticks, delay_ms });
        proof {
            assert(frame_ok(frames@.last(), info.width as u32, info.height as u32, info.animation));
        }
        if !has_more_frames(&next) {
            return Ok(frames);
        }
        dec = next;
    }
}

/// Decodes a whole stream: its header, then every frame.
pub fn decode_stream(data: &[u8]) -> (r: Result<DecodedStream, ConvertError>)
    ensures
        (r is Err && r->Err_0 is InputTooSmall) <==> data@.len() < MIN_INPUT_LEN,
        r is Ok ==> r->Ok_0.wf() && r->Ok_0.frames@.len() <= data@.len(),
        r is Err ==> {
            ||| r->Err_0 is InputTooSmall
            ||| r->Err_0 is InvalidDimensions
            ||| stage_error(r->Err_0, Stage::Header)
            ||| frame_loop_error(r->Err_0)
        },
{
    if data.len() < MIN_INPUT_LEN {
        return Err(ConvertError::InputTooSmall);
    }
    let mut input: &[u8] = data;
    let mut dec = match drive_header(new_decoder(), &mut input) {
        Ok(d) => d,
        Err(e) => return Err(e),
    };
    let info = basic_info(&dec);
    match check_dimensions(&info) {
        Ok(()) => {},
        Err(e) => return Err(e),
    }
    match request_rgba8(&mut dec, info.extra_channels) {
        Ok(()) => {},
        Err(message) => return Err(ConvertError::DecodeError { stage: Stage::Header, message }),
    }
    let frames = match collect_frames(dec, &info, &mut input, data.len()) {
        Ok(f) => f,
        Err(e) => return Err(e),
    };
    Ok(DecodedStream { width: info.width as u32, height: info.height as u32, animation: info.animation, frames })
}

} // verus!
