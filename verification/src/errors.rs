use vstd::prelude::*;

verus! {

/// Everything that can end one video's run early. Each failure is local to
/// the run that raised it; sibling runs are unaffected.
#[derive(Clone, Copy, Debug, PartialEq, Eq, Structural)]
pub enum PipelineError {
    /// A grid dimension (rows, columns, spacing or thumbnail width) is zero.
    InvalidLayout,
    /// The probe reported a zero duration or a zero pixel dimension.
    InvalidMedia,
    /// The decode service failed to produce the still for one sample.
    DecodeFailed { index: u64, timestamp_ms: u64 },
    /// The staged-frame set does not hold one frame per planned sample.
    MissingFrame,
    /// A staged frame could not be placed onto the canvas.
    BlitFailed { index: u64 },
    /// The requested grid does not fit the limits of a raster image
    /// (dimensions must fit `u32`, the pixel buffer must fit in memory).
    SheetTooLarge,
    /// The staging directory could not be created, or the finished sheet
    /// could not be persisted.
    StagingIo,
}

} // verus!
