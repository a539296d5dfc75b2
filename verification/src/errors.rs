//! Failure taxonomy of the pipeline.
//!
//! Every failure carries a message and a tag saying which stage failed:
//! reading or decoding the input image, writing the rendered waveform, or
//! handling a command-line argument.  The mapping itself has no failure
//! modes: every luminance value is either gated away or mapped to a voice.

use vstd::prelude::*;

verus! {

/// A failure of the pipeline, tagged with the stage it came from.
#[derive(Clone, Debug)]
pub enum Error {
    /// The input image could not be opened or decoded.
    Decode(String),
    /// The rendered waveform could not be written.
    Write(String),
    /// A command-line argument was malformed.
    Argument(String),
}

/// Anything that can be folded into the pipeline's error type.
///
/// The stages that talk to the outside world implement this for the
/// foreign error values they meet, choosing the matching [`Error`] tag.
pub trait Errorable {
    /// Fold this value into an [`Error`].
    fn to_err(&self) -> Error;
}

/// Shorthand for a result that fails with the pipeline's error type.
pub type SimpleResult<T> = Result<T, Error>;

} // verus!
