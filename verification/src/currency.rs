//! The currency policy: a fixed allow-list of currency codes, and the rule
//! that an amount is positive.

use crate::response::{invalid_amount, unsupported_currency, PaymentResponse, Response};
use vstd::prelude::*;

verus! {

/// The currency codes that the ledger accepts.
pub open spec fn supported_currencies() -> Seq<Seq<char>> {
    seq!["SOL"@, "SUI"@, "USDC"@, "USDT"@, "RAY"@]
}

/// `code` is one of the supported currency codes, letter for letter.
pub open spec fn is_supported(code: Seq<char>) -> bool {
    supported_currencies().contains(code)
}

/// Why a payment of `amount` in `currency` is refused, if it is: the amount is
/// looked at first.
pub open spec fn refusal(amount: int, currency: Seq<char>) -> Option<Response> {
    if amount <= 0 {
        Some(invalid_amount())
    } else if !is_supported(currency) {
        Some(unsupported_currency(currency))
    } else {
        None
    }
}

/// Whether two strings hold the same characters.
pub fn same_text(a: &str, b: &str) -> (r: bool)
    ensures
        r == (a@ == b@),
{
    a.to_owned() == b.to_owned()
}

/// Whether `code` is on the allow-list.
pub fn is_supported_currency(code: &str) -> (b: bool)
    ensures
        b == is_supported(code@),
{
    let b = same_text(code, "SOL") || same_text(code, "SUI") || same_text(code, "USDC")
        || same_text(code, "USDT") || same_text(code, "RAY");
    proof {
        let all = supported_currencies();
        assert(all[0] == "SOL"@ && all[1] == "SUI"@ && all[2] == "USDC"@ && all[3] == "USDT"@
            && all[4] == "RAY"@);
    }
    b
}

/// The supported currency codes, in the order of the allow-list.
pub fn get_supported_currencies() -> (codes: Vec<String>)
    ensures
        codes@.len() == supported_currencies().len(),
        forall|i: int| 0 <= i < codes@.len() ==> codes@[i]@ == supported_currencies()[i],
{
    let mut codes: Vec<String> = Vec::new();
    codes.push("SOL".to_owned());
    codes.push("SUI".to_owned());
    codes.push("USDC".to_owned());
    codes.push("USDT".to_owned());
    codes.push("RAY".to_owned());
    codes
}

/// Accepts or refuses a proposed payment. Nothing is stored and no identifier
/// is taken.
pub fn validate_payment(amount: i64, currency: &str) -> (r: Result<(), PaymentResponse>)
    ensures
        match r {
            Ok(_) => refusal(amount as int, currency@) is None,
            Err(e) => refusal(amount as int, currency@) == Some(e@),
        },
{
    if amount <= 0 {
        Err(PaymentResponse::invalid_amount())
    } else if !is_supported_currency(currency) {
        Err(PaymentResponse::unsupported_currency(currency))
    } else {
        Ok(())
    }
}

} // verus!
