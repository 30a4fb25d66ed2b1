//! The answer that every ledger operation gives: a success flag, a message,
//! and, on rejection, the kind of error. Each kind of refusal that the ledger
//! gives has an error of its own; a failure of the membership service carries
//! what the service reported.

use crate::payment::{clone_opt, opt_view};
use vstd::prelude::*;
use vstd::string::StringExecFns;

verus! {

/// The outcome of one operation.
#[derive(Debug, PartialEq, Eq)]
pub struct PaymentResponse {
    pub success: bool,
    pub message: String,
    pub payment_id: Option<String>,
    pub transaction_hash: Option<String>,
    pub error: Option<String>,
}

/// A response, as mathematical values.
pub struct Response {
    pub success: bool,
    pub message: Seq<char>,
    pub payment_id: Option<Seq<char>>,
    pub transaction_hash: Option<Seq<char>>,
    pub error: Option<Seq<char>>,
}

impl View for PaymentResponse {
    type V = Response;

    open spec fn view(&self) -> Response {
        Response {
            success: self.success,
            message: self.message@,
            payment_id: opt_view(self.payment_id),
            transaction_hash: opt_view(self.transaction_hash),
            error: opt_view(self.error),
        }
    }
}

/// A rejection that names no payment.
pub open spec fn rejection(message: Seq<char>, error: Seq<char>) -> Response {
    Response {
        success: false,
        message,
        payment_id: None,
        transaction_hash: None,
        error: Some(error),
    }
}

/// The amount was zero or negative.
pub open spec fn invalid_amount() -> Response {
    rejection("Amount must be greater than 0"@, "Invalid amount"@)
}

/// The currency is not on the allow-list. The message names the offending code.
pub open spec fn unsupported_currency(currency: Seq<char>) -> Response {
    rejection("Unsupported currency: "@ + currency, "Unsupported currency"@)
}

/// The ledger holds no payment with the identifier given.
pub open spec fn not_found() -> Response {
    rejection("Payment not found"@, "Payment not found"@)
}

/// The payment is settled already; the response carries the hash it was settled with.
pub open spec fn already_completed(id: Seq<char>, hash: Option<Seq<char>>) -> Response {
    Response {
        success: false,
        message: "Payment already completed"@,
        payment_id: Some(id),
        transaction_hash: hash,
        error: Some("Payment already completed"@),
    }
}

/// A settled payment cannot be cancelled. The error is this refusal's own, not
/// that of a second settlement.
pub open spec fn cannot_cancel_completed(id: Seq<char>) -> Response {
    Response {
        success: false,
        message: "Cannot cancel completed payment"@,
        payment_id: Some(id),
        transaction_hash: None,
        error: Some("Cannot cancel completed payment"@),
    }
}

/// A membership can be activated only for a settled payment.
pub open spec fn payment_not_completed() -> Response {
    rejection("Payment not completed"@, "Payment not completed"@)
}

/// The membership service failed or refused; `detail` is what it reported.
pub open spec fn activation_failed(
    id: Seq<char>,
    hash: Option<Seq<char>>,
    detail: Seq<char>,
) -> Response {
    Response {
        success: false,
        message: "Failed to activate membership"@,
        payment_id: Some(id),
        transaction_hash: hash,
        error: Some(detail),
    }
}

/// A success that names the payment it is about.
pub open spec fn acceptance(message: Seq<char>, id: Seq<char>, hash: Option<Seq<char>>) -> Response {
    Response { success: true, message, payment_id: Some(id), transaction_hash: hash, error: None }
}

/// The payment was opened under the identifier `id`.
pub open spec fn created(id: Seq<char>) -> Response {
    acceptance("Payment request created successfully"@, id, None)
}

/// The payment was settled with the signature `signature`.
pub open spec fn verified(id: Seq<char>, signature: Seq<char>) -> Response {
    acceptance("Payment verified successfully"@, id, Some(signature))
}

/// The payment was cancelled.
pub open spec fn cancelled(id: Seq<char>) -> Response {
    acceptance("Payment cancelled successfully"@, id, None)
}

/// The membership service activated the membership.
pub open spec fn activated(id: Seq<char>, hash: Option<Seq<char>>) -> Response {
    acceptance("Membership activated successfully"@, id, hash)
}

impl PaymentResponse {
    fn rejection(message: String, error: &str) -> (r: PaymentResponse)
        ensures
            r@ == rejection(message@, error@),
    {
        PaymentResponse {
            success: false,
            message,
            payment_id: None,
            transaction_hash: None,
            error: Some(error.to_owned()),
        }
    }

    fn acceptance(message: &str, id: &String, hash: Option<String>) -> (r: PaymentResponse)
        ensures
            r@ == acceptance(message@, id@, opt_view(hash)),
    {
        PaymentResponse {
            success: true,
            message: message.to_owned(),
            payment_id: Some(id.clone()),
            transaction_hash: hash,
            error: None,
        }
    }

    pub fn invalid_amount() -> (r: PaymentResponse)
        ensures
            r@ == invalid_amount(),
    {
        Self::rejection("Amount must be greater than 0".to_owned(), "Invalid amount")
    }

    pub fn unsupported_currency(currency: &str) -> (r: PaymentResponse)
        ensures
            r@ == unsupported_currency(currency@),
    {
        let mut message = "Unsupported currency: ".to_owned();
        message.append(currency);
        Self::rejection(message, "Unsupported currency")
    }

    pub fn not_found() -> (r: PaymentResponse)
        ensures
            r@ == not_found(),
    {
        Self::rejection("Payment not found".to_owned(), "Payment not found")
    }

    pub fn already_completed(id: &String, hash: &Option<String>) -> (r: PaymentResponse)
        ensures
            r@ == already_completed(id@, opt_view(*hash)),
    {
        PaymentResponse {
            success: false,
            message: "Payment already completed".to_owned(),
            payment_id: Some(id.clone()),
            transaction_hash: clone_opt(hash),
            error: Some("Payment already completed".to_owned()),
        }
    }

    pub fn cannot_cancel_completed(id: &String) -> (r: PaymentResponse)
        ensures
            r@ == cannot_cancel_completed(id@),
    {
        PaymentResponse {
            success: false,
            message: "Cannot cancel completed payment".to_owned(),
            payment_id: Some(id.clone()),
            transaction_hash: None,
            error: Some("Cannot cancel completed payment".to_owned()),
        }
    }

    pub fn payment_not_completed() -> (r: PaymentResponse)
        ensures
            r@ == payment_not_completed(),
    {
        Self::rejection("Payment not completed".to_owned(), "Payment not completed")
    }

    pub fn activation_failed(id: &String, hash: &Option<String>, detail: String) -> (r:
        PaymentResponse)
        ensures
            r@ == activation_failed(id@, opt_view(*hash), detail@),
    {
        PaymentResponse {
            success: false,
            message: "Failed to activate membership".to_owned(),
            payment_id: Some(id.clone()),
            transaction_hash: clone_opt(hash),
            error: Some(detail),
        }
    }

    pub fn created(id: &String) -> (r: PaymentResponse)
        ensures
            r@ == created(id@),
    {
        Self::acceptance("Payment request created successfully", id, None)
    }

    pub fn verified(id: &String, signature: &String) -> (r: PaymentResponse)
        ensures
            r@ == verified(id@, signature@),
    {
        Self::acceptance("Payment verified successfully", id, Some(signature.clone()))
    }

    pub fn cancelled(id: &String) -> (r: PaymentResponse)
        ensures
            r@ == cancelled(id@),
    {
        Self::acceptance("Payment cancelled successfully", id, None)
    }

    pub fn activated(id: &String, hash: &Option<String>) -> (r: PaymentResponse)
        ensures
            r@ == activated(id@, opt_view(*hash)),
    {
        Self::acceptance("Membership activated successfully", id, clone_opt(hash))
    }
}

} // verus!
