use vstd::prelude::*;

verus! {

/// The ways in which talking to the service, or reading what it answers, can
/// fail. Every one of them is final: nothing is retried and no partial result
/// is handed out beside it.
#[derive(Clone, Copy, Debug, PartialEq, Eq, Structural)]
pub enum Error {
    /// An exchange with the service did not complete.
    TransportError,
    /// The conversion page does not hold exactly one token element, or that
    /// element carries no token.
    ProtocolMismatch,
    /// The result page has no marked content region.
    RegionNotFound,
    /// A block is shorter than the annotated run that was found inside it.
    SegmentationInvariantViolated,
    /// The answer to a submission names no result.
    MissingRedirect,
    /// The pattern engine or the selector engine refused one of the
    /// expressions of this library, as a build without Unicode tables does.
    PatternRejected,
}

} // verus!
