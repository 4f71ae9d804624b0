use vstd::prelude::*;

verus! {

/// Errors that end the current command.
#[derive(Debug)]
pub enum PlayError {
    /// The domain policy denied this domain.
    Rejected(String),
    /// An insertion index outside `[min, max]`: `(index, min, max)`.
    IndexOutOfRange(usize, usize, usize),
    /// The extractor could not resolve a mandatory item.
    MetadataUnavailable,
    /// The streaming-service client has no valid session.
    AuthUnavailable,
    /// The queue is too short to rotate its tail.
    RotationInvalid,
}

} // verus!
