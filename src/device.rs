use vstd::prelude::*;

verus! {

#[verifier::external_type_specification]
#[verifier::external_body]
pub struct ExIoError(std::io::Error);

/// Why a transport channel could not be set up.
#[derive(Debug)]
pub enum OscDeviceError {
    /// The local endpoint could not be bound, or the remote one not connected.
    Socket(std::io::Error),
}

} // verus!
