//! Converts JPEG XL still and animated images into PNG and APNG.
//!
//! The decoder is driven stage by stage (stream header, then for each frame
//! its header and its pixels), the frames are collected with their delays,
//! and the result is written as one PNG or as one APNG.

pub mod decode;
pub mod error;
pub mod jxl_io;
pub mod output;
pub mod png_io;
pub mod stream;
pub mod timing;

pub use decode::{collect_frames, decode_stream, shortfall};
pub use error::{ConvertError, EncodePhase, Stage};
pub use jxl_io::StreamInfo;
pub use output::{decode_jxl_to_png, encode_apng, encode_stream, get_jxl_info};
pub use stream::{
    check_dimensions, frame_buffer, report_info, DecodedStream, FrameRecord, JxlInfo,
    ANIMATED_FRAME_ESTIMATE, MIN_INPUT_LEN,
};
pub use timing::{apng_delay, apply_delay_floor, frame_delay_ms, ticks_to_ms, MIN_FRAME_DELAY_MS};
