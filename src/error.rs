use vstd::prelude::*;

verus! {

/// Failures surfaced by the synchronous operations of the core.
#[derive(Debug, Clone, Copy, PartialEq, Eq, Structural)]
pub enum AppError {
    /// The session, document or chat does not exist or is not owned by the caller.
    NotFound,
    /// The operation was attempted outside the stage or state it requires.
    InvalidState,
    /// The object store or the completion service failed.
    UpstreamFailure,
    /// The completion service's output did not parse as plan content.
    MalformedGeneration,
    /// The page rasterizer failed or produced no pages.
    ConversionFailure,
}

} // verus!
