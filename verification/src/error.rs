use vstd::prelude::*;

verus! {

/// The errors that the bindings themselves raise.
#[derive(Debug, Clone, PartialEq, Eq)]
pub enum ServiceError {
    /// The service could not be configured (for instance, no identity token).
    ConfigError(String),
    /// A message could not be received or was not a publication.
    ReceiveError(String),
}

} // verus!
