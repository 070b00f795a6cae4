//! The ways a dump call can fail.

use vstd::prelude::*;
use vstd::std_specs::convert::FromSpecImpl;

verus! {

/// `std::io::Error`, carried through as an opaque value: nothing is read from it.
#[verifier::external_type_specification]
#[verifier::external_body]
pub struct ExIoError(std::io::Error);

/// The status code with which a remote call came back.
///
/// The code is kept as the remote side reported it; its meaning belongs to
/// the remote service.
#[derive(Clone, Copy, Debug, PartialEq, Eq, Structural)]
pub struct StatusCode {
    pub code: i32,
}

/// Why a dump call produced no text.
#[derive(Debug)]
pub enum DumpError {
    /// The pipe could not be created, or reading from it failed.
    Io(std::io::Error),
    /// The remote dump call itself came back with a failure status.
    Remote(StatusCode),
}

impl From<std::io::Error> for DumpError {
    fn from(err: std::io::Error) -> (res: DumpError) {
        DumpError::Io(err)
    }
}

impl FromSpecImpl<std::io::Error> for DumpError {
    open spec fn obeys_from_spec() -> bool {
        true
    }

    open spec fn from_spec(err: std::io::Error) -> DumpError {
        DumpError::Io(err)
    }
}

impl From<StatusCode> for DumpError {
    fn from(status: StatusCode) -> (res: DumpError) {
        DumpError::Remote(status)
    }
}

impl FromSpecImpl<StatusCode> for DumpError {
    open spec fn obeys_from_spec() -> bool {
        true
    }

    open spec fn from_spec(status: StatusCode) -> DumpError {
        DumpError::Remote(status)
    }
}

} // verus!
