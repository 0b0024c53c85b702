use vstd::prelude::*;

verus! {

/// The failures that the library reports.
#[derive(Debug, Clone, Copy, PartialEq, Eq, Structural)]
pub enum AtiumError {
    /// The tool's executable could not be launched while probing it.
    UnavailableTool,
    /// The tool was launched while probing it, but exited with a failure.
    ProbeFailed,
    /// A process could not be spawned at all.
    ExecutionFailed,
    /// A process ran and reported failure through its exit status.
    CommandError,
    /// A transcoding step failed.
    ConversionError,
    /// Reading, writing or decoding data failed.
    IOError,
    /// The analysis text does not have the expected shape.
    MalformedAnalysis,
    /// The analysis has no track at the requested index.
    TrackNotFound,
    /// The track has no field of the requested name.
    FieldNotFound,
    /// A width or a height is not an integer.
    InvalidDimension,
    /// A timestamp is not of the form `hh:mm:ss`.
    InvalidTimestamp,
}

} // verus!
