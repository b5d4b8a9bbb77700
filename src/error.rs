//! The ways one exchange with the completion service can fail inside the
//! library.
use vstd::prelude::*;

verus! {

/// Why a request could not be built or a reply could not be read.
#[derive(Debug, Clone, Copy, PartialEq, Eq, Structural)]
pub enum CompletionError {
    /// The reply body is not JSON.
    Malformed,
    /// The reply body is JSON of another shape than a chat completion.
    Schema,
    /// The reply holds no choice to read.
    NoChoices,
}

} // verus!
