use vstd::prelude::*;

verus! {

/// The two fatal ways a friendly configuration can fail validation.
/// An unrecognized log-level name is deliberately not an error: it
/// falls back to a per-scope default severity instead.
#[derive(Clone, Copy, Debug, PartialEq, Eq, Structural)]
pub enum Error {
    /// A required or allow-listed hex-encoded key is not valid
    /// hexadecimal or decodes to the wrong size.
    InvalidPublicKey,
    /// The hostname string does not conform to valid host syntax.
    InvalidHostname,
}

} // verus!
