use crate::http_client::HttpError;
use vstd::prelude::*;
use vstd::std_specs::convert::FromSpecImpl;

verus! {

/// What a cloud provider reports when it cannot answer.
#[derive(Clone, Copy, Debug, PartialEq, Eq, Structural)]
pub enum CloudProviderError {
    /// No credentials, no clock, or no key material to sign a request with.
    AuthenticationError,
    /// This is not the provider's platform, or its answer has another shape.
    NotAvailable,
    /// The transport failed, for whatever reason.
    ResourceUnreachable,
    /// The user-supplied configuration document is missing or unreadable.
    ConfigurationError,
}

impl From<HttpError> for CloudProviderError {
    /// Every transport failure is reported as `ResourceUnreachable`.
    fn from(error: HttpError) -> (provider_error: CloudProviderError) {
        CloudProviderError::ResourceUnreachable
    }
}

impl FromSpecImpl<HttpError> for CloudProviderError {
    open spec fn obeys_from_spec() -> bool {
        true
    }

    open spec fn from_spec(error: HttpError) -> CloudProviderError {
        CloudProviderError::ResourceUnreachable
    }
}

} // verus!
