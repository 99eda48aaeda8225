use image::ImageEncoder;
use vstd::prelude::*;

verus! {

/// The PNG file that `image`'s PNG encoder writes for an RGBA8 image of the
/// given size and row-major pixels.
pub uninterp spec fn png_still_of(width: u32, height: u32, pixels: Seq<u8>) -> Seq<u8>;

/// Relies on `image::codecs::png::PngEncoder::write_image` with
/// `ExtendedColorType::Rgba8`, which asserts that the buffer holds exactly
/// `width * height * 4` bytes and refuses a zero width or height; writing into
/// a `Vec` cannot fail.
#[verifier::external_body]
pub(crate) fn encode_png_still(width: u32, height: u32, pixels: &[u8]) -> (r: Result<Vec<u8>, String>)
    requires
        pixels@.len() == width * height * 4,
    ensures
        r is Ok <==> (width > 0 && height > 0),
        r is Ok ==> r->Ok_0@ == png_still_of(width, height, pixels@),
{
    let mut out = Vec::new();
    let written = image::codecs::png::PngEncoder::new(&mut out).write_image(pixels, width, height, image::ExtendedColorType::Rgba8);
    match written {
        Ok(()) => Ok(out),
        Err(e) => Err(e.to_string()),
    }
}

/// An APNG stream being written into a borrowed byte vector.
#[verifier::external_body]
pub struct ApngWriter<'a> {
    w: png::Writer<&'a mut Vec<u8>>,
}

/// The frames that an APNG writer has written so far, in order: each frame's
/// delay fraction and its RGBA8 pixels.
pub uninterp spec fn apng_frames_written(w: ApngWriter) -> Seq<(u16, u16, Seq<u8>)>;

/// The width, height and frame count that an APNG writer was opened with.
pub uninterp spec fn apng_declared(w: ApngWriter) -> (u32, u32, u32);

/// The delay fraction that an APNG writer gives the next frame it writes.
pub uninterp spec fn apng_next_delay(w: ApngWriter) -> (u16, u16);

/// The bytes that an APNG writer's output vector holds once the writer is gone.
pub uninterp spec fn apng_output(w: ApngWriter) -> Seq<u8>;

/// The APNG file that `png` writes for an 8-bit RGBA animation of the given
/// size that loops forever, from its frames in order (delay fraction, pixels).
pub uninterp spec fn apng_of(width: u32, height: u32, frames: Seq<(u16, u16, Seq<u8>)>) -> Seq<u8>;

/// Relies on `png::Encoder::new`, `set_color(Rgba)`, `set_depth(Eight)`,
/// `set_animated(num_frames, 0)` and `write_header`: an 8-bit RGBA APNG of
/// `num_frames` frames that loops forever, with `validate_sequence(true)`, so
/// that writing past the declared frames, or finishing before them, fails.
/// `set_animated` refuses zero frames, `write_header` a zero width or height;
/// writing into a `Vec` cannot fail. `out` holds what the writer has written
/// when the writer is gone.
#[verifier::external_body]
pub(crate) fn apng_open<'a>(out: &'a mut Vec<u8>, width: u32, height: u32, num_frames: u32) -> (r: Result<ApngWriter<'a>, String>)
    ensures
        r is Ok <==> (width > 0 && height > 0 && num_frames > 0),
        r is Ok ==> apng_declared(r->Ok_0) == (width, height, num_frames) && apng_frames_written(r->Ok_0) == Seq::<(u16, u16, Seq<u8>)>::empty(),
        r is Ok ==> final(out)@ == apng_output(r->Ok_0),
{
    let mut encoder = png::Encoder::new(out, width, height);
    encoder.validate_sequence(true);
    encoder.set_color(png::ColorType::Rgba);
    encoder.set_depth(png::BitDepth::Eight);
    if let Err(e) = encoder.set_animated(num_frames, 0) {
        return Err(e.to_string());
    }
    match encoder.write_header() {
        Ok(w) => Ok(ApngWriter { w }),
        Err(e) => Err(e.to_string()),
    }
}

/// Relies on `png::Writer::set_frame_delay`: the next frame is shown for
/// `numerator / denominator` seconds. It fails only once every declared frame
/// has been written.
#[verifier::external_body]
pub(crate) fn apng_set_delay(w: &mut ApngWriter<'_>, numerator: u16, denominator: u16) -> (r: Result<(), String>)
    ensures
        apng_declared(*final(w)) == apng_declared(*old(w)),
        apng_frames_written(*final(w)) == apng_frames_written(*old(w)),
        apng_output(*final(w)) == apng_output(*old(w)),
        apng_frames_written(*old(w)).len() < apng_declared(*old(w)).2 ==> r is Ok,
        r is Ok ==> apng_next_delay(*final(w)) == (numerator, denominator),
{
    match w.w.set_frame_delay(numerator, denominator) {
        Ok(()) => Ok(()),
        Err(e) => Err(e.to_string()),
    }
}

/// Relies on `png::Writer::write_image_data` for data of exactly
/// `width * 4 * height` bytes: with sequence validation on, it writes the next
/// frame, with the delay set last, where frames remain to be written, and
/// fails otherwise.
#[verifier::external_body]
pub(crate) fn apng_write_frame(w: &mut ApngWriter<'_>, pixels: &[u8]) -> (r: Result<(), String>)
    requires
        pixels@.len() == apng_declared(*old(w)).0 * 4 * apng_declared(*old(w)).1,
    ensures
        apng_declared(*final(w)) == apng_declared(*old(w)),
        apng_output(*final(w)) == apng_output(*old(w)),
        r is Ok <==> apng_frames_written(*old(w)).len() < apng_declared(*old(w)).2,
        r is Ok ==> apng_frames_written(*final(w)) == apng_frames_written(*old(w)).push(
            (apng_next_delay(*old(w)).0, apng_next_delay(*old(w)).1, pixels@),
        ),
{
    match w.w.write_image_data(pixels) {
        Ok(()) => Ok(()),
        Err(e) => Err(e.to_string()),
    }
}

/// Relies on `png::Writer::finish`: with sequence validation on, it closes the
/// stream once every declared frame has been written, and fails before that.
/// The file is then the APNG of the declared size and the written frames.
#[verifier::external_body]
pub(crate) fn apng_finish(w: ApngWriter<'_>) -> (r: Result<(), String>)
    ensures
        r is Ok <==> apng_frames_written(w).len() == apng_declared(w).2,
        r is Ok ==> apng_output(w) == apng_of(apng_declared(w).0, apng_declared(w).1, apng_frames_written(w)),
{
    match w.w.finish() {
        Ok(()) => Ok(()),
        Err(e) => Err(e.to_string()),
    }
}

} // verus!
