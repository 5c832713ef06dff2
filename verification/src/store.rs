//! The storage contract: the one capability the embedding application
//! implements, "store one resolved record", together with the declarations
//! of the outside types that its signature carries.

use vstd::prelude::*;

verus! {

/// The record an external lookup resolves an address to. Its fields are
/// irrelevant to this pipeline stage: it is carried through to the storage
/// sink as an opaque payload, never inspected or altered.
#[verifier::external_type_specification]
#[verifier::external_body]
pub struct ExIPInfo(ipapi::IPInfo);

/// The error type the storage contract reports failure with.
#[verifier::external_type_specification]
#[verifier::external_body]
pub struct ExIoError(std::io::Error);

/// The storage contract, implemented by the embedding application: receive
/// one resolved record per successfully dispatched request. Implementations
/// must be safe to invoke concurrently from multiple in-flight requests, and
/// the sink alone decides whether a call succeeds.
pub trait IPQueryStore: Send + Sync + Clone {
    fn store(&self, ip_info: ipapi::IPInfo) -> Result<(), std::io::Error>;
}

/// Relies on std's `ToString` (through `Display` of `std::io::Error`): renders
/// the sink's error into its human-readable cause message.
#[verifier::external_body]
pub(crate) fn io_error_message(e: &std::io::Error) -> String {
    e.to_string()
}

} // verus!
