//! Typed failures surfaced by the credential store.

use vstd::prelude::*;

verus! {

/// Why a credential lookup, or the construction of the facade, failed.
///
/// The store performs no retries and never substitutes one provider for
/// another: each failure is reported to the caller as is.
#[derive(Debug, PartialEq, Eq)]
pub enum LlmError {
    /// The provider identifier is outside the fixed enumeration.
    UnknownProvider(String),
    /// The provider is recognized but no secret is configured for it.
    MissingProviderKey(String),
    /// The outbound HTTP client could not be constructed.
    HttpClientBuild,
}

} // verus!
