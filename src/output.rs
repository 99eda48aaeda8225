use crate::decode::{decode_stream, drive_header, frame_loop_error, stage_error};
use crate::error::{ConvertError, EncodePhase, Stage};
use crate::jxl_io::{basic_info, new_decoder};
use crate::png_io::{
    apng_declared, apng_finish, apng_of, apng_output, apng_frames_written, apng_open, apng_set_delay, apng_write_frame,
    encode_png_still, png_still_of,
};
use crate::stream::{check_dimensions, dims_ok, frame_len, frame_ok, info_of, report_info, DecodedStream, FrameRecord, JxlInfo, MIN_INPUT_LEN};
use crate::timing::{apng_delay, apng_delay_of};
use vstd::prelude::*;

verus! {

/// `e` is an encoding error of the given phase.
pub open spec fn encode_error(e: ConvertError, phase: EncodePhase) -> bool {
    match e {
        ConvertError::EncodeError { phase: p, .. } => p == phase,
        _ => false,
    }
}

/// A frame of the given size whose delay an APNG can carry exactly.
pub open spec fn apng_frame_ok(f: FrameRecord, width: u32, height: u32) -> bool {
    &&& f.pixels@.len() == width * 4 * height
    &&& apng_delay_of(f.delay_ms) is Some
}

/// A size and a frame count that an APNG header can declare.
pub open spec fn apng_header_ok(width: u32, height: u32, num_frames: int) -> bool {
    width > 0 && height > 0 && 1 <= num_frames <= u32::MAX
}

/// The frames as the APNG writer receives them: delay fraction, then pixels.
pub open spec fn apng_frames_of(frames: Seq<FrameRecord>) -> Seq<(u16, u16, Seq<u8>)> {
    frames.map_values(|f: FrameRecord| (apng_delay_of(f.delay_ms)->Some_0.0, apng_delay_of(f.delay_ms)->Some_0.1, f.pixels@))
}

/// Writes the frames as one APNG that loops forever, declaring their number up
/// front and giving each frame, in order, its delay as `apng_delay` expresses
/// it. Fails in setup on a zero size or no frames, and otherwise at the first
/// frame whose delay no APNG fraction holds exactly or whose pixels do not
/// fill the image.
pub fn encode_apng(width: u32, height: u32, frames: &Vec<FrameRecord>) -> (r: Result<Vec<u8>, ConvertError>)
    ensures
        r is Ok <==> (apng_header_ok(width, height, frames@.len() as int)
            && forall|i: int| 0 <= i < frames@.len() ==> apng_frame_ok(#[trigger] frames@[i], width, height)),
        r is Ok ==> r->Ok_0@ == apng_of(width, height, apng_frames_of(frames@)),
        r is Err ==> match r->Err_0 {
            ConvertError::EncodeError { phase, frame, .. } => match phase {
                EncodePhase::Setup => frame is None && !apng_header_ok(width, height, frames@.len() as int),
                EncodePhase::FrameDelay => frame is Some && apng_header_ok(width, height, frames@.len() as int)
                    && frame->Some_0 < frames@.len()
                    && apng_delay_of(frames@[frame->Some_0 as int].delay_ms) is None
                    && forall|j: int| 0 <= j < frame->Some_0 ==> apng_frame_ok(#[trigger] frames@[j], width, height),
                EncodePhase::FrameData => frame is Some && apng_header_ok(width, height, frames@.len() as int)
                    && frame->Some_0 < frames@.len()
                    && apng_delay_of(frames@[frame->Some_0 as int].delay_ms) is Some
                    && frames@[frame->Some_0 as int].pixels@.len() != width * 4 * height
                    && forall|j: int| 0 <= j < frame->Some_0 ==> apng_frame_ok(#[trigger] frames@[j], width, height),
                _ => false,
            },
            _ => false,
        },
{
    if frames.len() > u32::MAX as usize || frames.len() == 0 || width == 0 || height == 0 {
        let message = if frames.len() > u32::MAX as usize {
            String::from_str("too many frames for an APNG")
        } else {
            String::from_str("an APNG needs a non-empty size and at least one frame")
        };
        return Err(ConvertError::EncodeError { phase: EncodePhase::Setup, frame: None, message });
    }
    let w4: u128 = (width as u128) * 4;
    let h: u128 = height as u128;
    proof {
        assert(w4 * h <= 0x4_0000_0000u128 * 0x1_0000_0000u128) by (nonlinear_arith)
            requires w4 <= 0x4_0000_0000u128, h <= 0x1_0000_0000u128;
    }
    let frame_bytes: u128 = w4 * h;
    let mut out: Vec<u8> = Vec::new();
    let mut writer = match apng_open(&mut out, width, height, frames.len() as u32) {
        Ok(w) => w,
        Err(message) => return Err(ConvertError::EncodeError { phase: EncodePhase::Setup, frame: None, message }),
    };
    let ghost bytes = apng_output(writer);
    let mut i: usize = 0;
    while i < frames.len()
        invariant
            i <= frames@.len(),
            frame_bytes == width * 4 * height,
            apng_output(writer) == bytes,
            apng_header_ok(width, height, frames@.len() as int),
            apng_declared(writer) == (width, height, frames@.len() as u32),
            forall|j: int| 0 <= j < i ==> apng_frame_ok(#[trigger] frames@[j], width, height),
            apng_frames_written(writer) == apng_frames_of(frames@.take(i as int)),
        decreases frames@.len() - i,
    {
        let (numerator, denominator) = match apng_delay(frames[i].delay_ms) {
            Some(fraction) => fraction,
            None => return Err(ConvertError::EncodeError {
                phase: EncodePhase::FrameDelay,
                frame: Some(i),
                message: String::from_str("delay has no exact APNG fraction"),
            }),
        };
        match apng_set_delay(&mut writer, numerator, denominator) {
            Ok(()) => {},
            Err(message) => return Err(ConvertError::EncodeError { phase: EncodePhase::FrameDelay, frame: Some(i), message }),
        }
        if frames[i].pixels.len() as u128 != frame_bytes {
            return Err(ConvertError::EncodeError {
                phase: EncodePhase::FrameData,
                frame: Some(i),
                message: String::from_str("frame data does not fill the image"),
            });
        }
        match apng_write_frame(&mut writer, frames[i].pixels.as_slice()) {
            Ok(()) => {},
            Err(message) => return Err(ConvertError::EncodeError { phase: EncodePhase::FrameData, frame: Some(i), message }),
        }
        proof {
            assert(frames@.take(i as int + 1) =~= frames@.take(i as int).push(frames@[i as int]));
            assert(apng_frames_of(frames@.take(i as int + 1)) =~= apng_frames_of(frames@.take(i as int)).push(
                (numerator, denominator, frames@[i as int].pixels@)));
        }
        i = i + 1;
    }
    proof {
        assert(frames@.take(frames@.len() as int) =~= frames@);
    }
    match apng_finish(writer) {
        Ok(()) => {},
        Err(message) => return Err(ConvertError::EncodeError { phase: EncodePhase::Finish, frame: None, message }),
    }
    Ok(out)
}

/// What the output of a decoded stream is: for a still stream, the PNG of its
/// first frame, which always succeeds; otherwise the APNG of all its frames in
/// order, each with its delay fraction, written exactly when the frame count
/// fits in `u32` and every delay has an exact APNG fraction.
pub open spec fn output_ok(stream: DecodedStream, r: Result<Vec<u8>, ConvertError>) -> bool {
    if stream.is_still() {
        &&& r is Ok
        &&& r->Ok_0@ == png_still_of(stream.width, stream.height, stream.frames@[0].pixels@)
    } else {
        &&& r is Ok <==> (stream.frames@.len() <= u32::MAX
            && forall|i: int| 0 <= i < stream.frames@.len() ==> apng_delay_of(#[trigger] stream.frames@[i].delay_ms) is Some)
        &&& r is Ok ==> r->Ok_0@ == apng_of(stream.width, stream.height, apng_frames_of(stream.frames@))
        &&& r is Err ==> (encode_error(r->Err_0, EncodePhase::FrameDelay) || (encode_error(r->Err_0, EncodePhase::Setup) && stream.frames@.len() > u32::MAX))
    }
}

/// Serialises a decoded stream: a still PNG where it has one frame or no
/// animation, an APNG of all its frames otherwise.
pub fn encode_stream(stream: &DecodedStream) -> (r: Result<Vec<u8>, ConvertError>)
    requires
        stream.wf(),
    ensures
        output_ok(*stream, r),
{
    if stream.frames.len() == 1 || stream.animation.is_none() {
        let first = &stream.frames[0];
        proof {
            assert(frame_ok(stream.frames@[0], stream.width, stream.height, stream.animation));
            assert(frame_len(stream.width as int, stream.height as int) == stream.width * stream.height * 4) by (nonlinear_arith);
        }
        match encode_png_still(stream.width, stream.height, first.pixels.as_slice()) {
            Ok(png) => Ok(png),
            Err(message) => Err(ConvertError::EncodeError { phase: EncodePhase::Still, frame: None, message }),
        }
    } else {
        proof {
            assert forall|i: int| 0 <= i < stream.frames@.len() implies (#[trigger] stream.frames@[i]).pixels@.len() == stream.width * 4 * stream.height by {
                assert(frame_ok(stream.frames@[i], stream.width, stream.height, stream.animation));
            }
        }
        encode_apng(stream.width, stream.height, &stream.frames)
    }
}

/// Frames whose delays fit in 16 bits reach the APNG in order, each carrying
/// its delay in milliseconds over 1000 and its own pixels.
pub proof fn lemma_apng_frames_in_ms(frames: Seq<FrameRecord>)
    requires
        forall|i: int| 0 <= i < frames.len() ==> (#[trigger] frames[i]).delay_ms <= u16::MAX,
    ensures
        apng_frames_of(frames).len() == frames.len(),
        forall|i: int| 0 <= i < frames.len() ==> #[trigger] apng_frames_of(frames)[i] == (frames[i].delay_ms as u16, 1000u16, frames[i].pixels@),
{
    assert forall|i: int| 0 <= i < frames.len() implies #[trigger] apng_frames_of(frames)[i] == (frames[i].delay_ms as u16, 1000u16, frames[i].pixels@) by {
        assert(frames[i].delay_ms <= u16::MAX);
    }
}

/// A stream without animation comes out as one still PNG of the stream's size,
/// made of its first frame, whose pixels are `width * 4 * height` bytes.
pub proof fn lemma_still_output(stream: DecodedStream, r: Result<Vec<u8>, ConvertError>)
    requires
        stream.wf(),
        stream.animation is None,
        r is Ok,
        output_ok(stream, r),
    ensures
        r->Ok_0@ == png_still_of(stream.width, stream.height, stream.frames@[0].pixels@),
        stream.frames@[0].pixels@.len() == stream.width * 4 * stream.height,
{
    assert(frame_ok(stream.frames@[0], stream.width, stream.height, stream.animation));
}

/// Decodes a JPEG XL stream and encodes it as a PNG, or as an APNG where the
/// stream is animated and has more than one frame.
pub fn decode_jxl_to_png(data: &[u8]) -> (r: Result<Vec<u8>, ConvertError>)
    ensures
        (r is Err && r->Err_0 is InputTooSmall) <==> data@.len() < MIN_INPUT_LEN,
        r is Ok ==> exists|s: DecodedStream| s.wf() && s.frames@.len() <= data@.len() && output_ok(s, r),
        r is Err ==> {
            ||| r->Err_0 is InputTooSmall
            ||| r->Err_0 is InvalidDimensions
            ||| stage_error(r->Err_0, Stage::Header)
            ||| frame_loop_error(r->Err_0)
            ||| r->Err_0 is EncodeError
        },
        data@.len() <= u32::MAX ==> (r is Err && r->Err_0 is EncodeError ==> encode_error(r->Err_0, EncodePhase::FrameDelay)),
{
    let stream = match decode_stream(data) {
        Ok(s) => s,
        Err(e) => return Err(e),
    };
    let r = encode_stream(&stream);
    proof {
        if r is Ok {
            assert(stream.wf() && stream.frames@.len() <= data@.len() && output_ok(stream, r));
        }
    }
    r
}

/// Reads a stream's header alone, no pixels, rejects a zero width or height,
/// and reports its size, whether it has alpha, and an estimate of its frame
/// count.
pub fn get_jxl_info(data: &[u8]) -> (r: Result<JxlInfo, ConvertError>)
    ensures
        (r is Err && r->Err_0 is InputTooSmall) <==> data@.len() < MIN_INPUT_LEN,
        r is Err ==> r->Err_0 is InputTooSmall || r->Err_0 is InvalidDimensions || stage_error(r->Err_0, Stage::Header),
        r is Ok ==> exists|info| dims_ok(info) && r->Ok_0 == info_of(info),
{
    if data.len() < MIN_INPUT_LEN {
        return Err(ConvertError::InputTooSmall);
    }
    let mut input: &[u8] = data;
    let dec = match drive_header(new_decoder(), &mut input) {
        Ok(d) => d,
        Err(e) => return Err(e),
    };
    let info = basic_info(&dec);
    match check_dimensions(&info) {
        Ok(()) => {},
        Err(e) => return Err(e),
    }
    Ok(report_info(&info))
}

} // verus!
