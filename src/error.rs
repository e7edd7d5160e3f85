use vstd::prelude::*;

verus! {

/// The failures that end a class translation.
#[derive(Clone, Copy, Debug, PartialEq, Eq, Structural)]
pub enum ClassError {
    /// A foreign owner address could not be mapped to a local address.
    AddressConversionFailure,
    /// The instantiation parameters could not be encoded to the wire format.
    SerializationFailure,
}

} // verus!
