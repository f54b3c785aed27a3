//! The ways in which an exchange with the sensor fails.

use embedded_io::ReadExactError;
use vstd::prelude::*;

verus! {

/// `embedded_io::ReadExactError`, the error of a read that must fill its
/// buffer. It is carried through as it came; nothing is claimed of its
/// contents.
#[verifier::external_type_specification]
#[verifier::external_body]
#[verifier::reject_recursive_types(E)]
pub struct ExReadExactError<E>(ReadExactError<E>);

/// Why an exchange with the sensor failed. `E` is the transport's own error.
#[derive(Debug)]
#[verifier::reject_recursive_types(E)]
pub enum Error<E> {
    /// The transport failed, or ran dry, while bytes were read.
    Read(ReadExactError<E>),
    /// The transport failed while bytes were written.
    Write(E),
    /// A measurement frame does not carry the checksum of its own bytes.
    ChecksumError,
    /// The sensor answered a command with another frame than its acknowledgement.
    IncorrectResponse,
    /// The command could not be handed to the sensor.
    NoResponse,
}

} // verus!
