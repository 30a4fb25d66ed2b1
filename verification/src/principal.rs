//! The caller's identity, as the Internet Computer gives it.

use candid::Principal;
use vstd::prelude::*;

verus! {

/// `candid::Principal`: an opaque blob of at most 29 bytes that identifies a caller.
#[verifier::external_type_specification]
#[verifier::external_body]
pub struct ExPrincipal(candid::Principal);

/// The bytes that a principal holds (what `Principal::as_slice` returns).
pub uninterp spec fn principal_bytes(p: Principal) -> Seq<u8>;

/// The textual form of the principal made of the bytes `raw`: what
/// `Principal::to_text` returns for it.
pub uninterp spec fn principal_text(raw: Seq<u8>) -> Seq<char>;

/// `Principal::to_text`: the text depends on the principal's bytes alone (a
/// checksum of them, then the bytes, in grouped base 32).
#[verifier::external_body]
pub(crate) fn caller_text(caller: &Principal) -> (text: String)
    ensures
        text@ == principal_text(principal_bytes(*caller)),
{
    caller.to_text()
}

} // verus!
