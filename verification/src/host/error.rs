use vstd::prelude::*;
use vstd::std_specs::convert::FromSpecImpl;

verus! {

/// `std::io::Error`, what the operating system reports when a directory
/// or a file cannot be written.
#[verifier::external_type_specification]
#[verifier::external_body]
pub struct ExIoError(std::io::Error);

/// What can go wrong while the host is set up.
#[derive(Debug)]
pub enum HostError {
    /// The host name could not be set.
    HostnameError,
    /// The SSH host key could not be generated.
    SSHSetupError,
    /// A directory or a file could not be written.
    IOError(std::io::Error),
}

impl From<std::io::Error> for HostError {
    fn from(error: std::io::Error) -> (host_error: HostError) {
        HostError::IOError(error)
    }
}

impl FromSpecImpl<std::io::Error> for HostError {
    open spec fn obeys_from_spec() -> bool {
        true
    }

    open spec fn from_spec(error: std::io::Error) -> HostError {
        HostError::IOError(error)
    }
}

} // verus!
