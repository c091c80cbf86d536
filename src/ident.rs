//! Identifiers of services, servers and state machines.
use vstd::prelude::*;

verus! {

/// The 64-bit identifier that a name or a network address hashes to.
/// Every node derives identifiers with the same function, so the same
/// string gives the same identifier on every node.
pub uninterp spec fn ident_of(name: Seq<char>) -> u64;

/// Relies on `twox_hash::XxHash64::oneshot` with seed 0 over the UTF-8
/// bytes of `name`: its result depends on those bytes alone.
#[verifier::external_body]
pub(crate) fn xxhash64_of_str(name: &str) -> (r: u64)
    ensures
        r == ident_of(name@),
{
    twox_hash::XxHash64::oneshot(0, name.as_bytes())
}

/// The identifier of the service, server or state machine named `name`.
pub fn hash_str(name: &str) -> (r: u64)
    ensures
        r == ident_of(name@),
{
    xxhash64_of_str(name)
}

} // verus!
