use vstd::prelude::*;

verus! {

/// The decoding stage that was running when a decode failed.
#[derive(Clone, Copy, Debug, PartialEq, Eq, Structural)]
pub enum Stage {
    /// The stream header, which carries the image's basic information.
    Header,
    /// The header of one frame.
    FrameHeader,
    /// The pixel data of one frame.
    PixelData,
}

/// The step of PNG or APNG serialisation that failed.
#[derive(Clone, Copy, Debug, PartialEq, Eq, Structural)]
pub enum EncodePhase {
    /// Writing a single still PNG.
    Still,
    /// Declaring the animation and writing the PNG header.
    Setup,
    /// Setting the delay of one animation frame.
    FrameDelay,
    /// Writing the pixels of one animation frame.
    FrameData,
    /// Closing the animated stream.
    Finish,
}

/// Every way a conversion can fail. None of them leaves partial output.
#[derive(Debug)]
pub enum ConvertError {
    /// The input is shorter than the smallest possible stream.
    InputTooSmall,
    /// The input ran out while the given stage still wanted bytes.
    IncompleteStream { stage: Stage },
    /// The stream declares a width or a height of zero.
    InvalidDimensions,
    /// The decoder reported malformed data during the given stage.
    DecodeError { stage: Stage, message: String },
    /// The frame buffer's size does not fit in memory.
    BufferAllocationFailed,
    /// The PNG or APNG writer failed; `frame` names the frame where one applies.
    EncodeError { phase: EncodePhase, frame: Option<usize>, message: String },
}

impl ConvertError {
    /// The stage of a stream error, if it is one.
    pub fn stage(&self) -> (r: Option<Stage>)
        ensures
            r == match self {
                ConvertError::IncompleteStream { stage } => Some(*stage),
                ConvertError::DecodeError { stage, .. } => Some(*stage),
                _ => None::<Stage>,
            },
    {
        match self {
            ConvertError::IncompleteStream { stage } => Some(*stage),
            ConvertError::DecodeError { stage, .. } => Some(*stage),
            _ => None,
        }
    }
}

} // verus!
