//! Outside types that the library carries through, and their messages.
use vstd::prelude::*;

verus! {

/// `std::io::Error`, carried opaquely inside the library's errors.
#[verifier::external_type_specification]
#[verifier::external_body]
pub struct ExIoError(std::io::Error);

/// The `Display` text of an I/O error (`<std::io::Error as Display>::fmt`).
///
/// The text names an operating-system error and depends on the platform,
/// so nothing is stated about it.
#[verifier::external_body]
pub(crate) fn io_error_message(e: &std::io::Error) -> String {
    format!("{}", e)
}

} // verus!
