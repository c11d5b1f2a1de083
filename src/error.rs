use vstd::prelude::*;

verus! {

/// Relies on `std::io::ErrorKind` only as an opaque value that an I/O
/// failure's kind is carried in; nothing is assumed of its variants.
#[verifier::external_type_specification]
#[verifier::external_body]
pub struct ExIoErrorKind(std::io::ErrorKind);

/// USB errors.
#[derive(Copy, Clone, Debug, PartialEq, Eq, Hash)]
pub enum Error {
    /// An identifier that was never issued was passed as argument.
    InvalidId,
    /// The device the identifier refers to is not connected.
    NotConnected,
    /// The device subsystem reported an I/O failure of this kind.
    Io(std::io::ErrorKind),
}

} // verus!
