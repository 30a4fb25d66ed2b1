//! Activation of a membership for a settled payment.
//!
//! The ledger decides whether the membership service is to be called and with
//! what; the caller of this library makes the call and hands its outcome back.
//! Nothing here changes the ledger.

use crate::ledger::{LedgerModel, PaymentLedger};
use crate::payment::{opt_view, PaymentStatus};
use crate::response::{
    activated, activation_failed, not_found, payment_not_completed, PaymentResponse, Response,
};
use crate::text::{contains, str_contains};
use vstd::prelude::*;

verus! {

/// The membership tier that a payment's description names: the first of
/// `Ghosties`, `Spicy Chads` and `Street Team` that occurs in it, in this
/// order of priority, else `Basic`.
pub open spec fn membership_tier(description: Seq<char>) -> Seq<char> {
    if contains(description, "Ghosties"@) {
        "Ghosties"@
    } else if contains(description, "Spicy Chads"@) {
        "Spicy Chads"@
    } else if contains(description, "Street Team"@) {
        "Street Team"@
    } else {
        "Basic"@
    }
}

/// Derives the membership tier from a payment's description.
pub fn extract_membership_tier(description: &str) -> (tier: String)
    ensures
        tier@ == membership_tier(description@),
{
    if str_contains(description, "Ghosties") {
        "Ghosties".to_owned()
    } else if str_contains(description, "Spicy Chads") {
        "Spicy Chads".to_owned()
    } else if str_contains(description, "Street Team") {
        "Street Team".to_owned()
    } else {
        "Basic".to_owned()
    }
}

/// The canister that holds the memberships, by its principal as text.
pub open spec fn membership_canister() -> Seq<char> {
    "laci2-ryaaa-aaaap-qp5oa-cai"@
}

/// The method of the membership canister that activates a membership.
pub open spec fn activation_method() -> Seq<char> {
    "complete_cross_chain_payment"@
}

/// One call of the membership service: the canister and the method to call,
/// the payer, the tier, the amount and the currency to pass, and the payment
/// that the call is for.
#[derive(Debug, PartialEq, Eq)]
pub struct MembershipActivation {
    pub canister: String,
    pub method: String,
    pub user_principal: String,
    pub membership_tier: String,
    pub amount: i64,
    pub currency: String,
    pub payment_id: String,
    pub transaction_hash: Option<String>,
}

/// A call of the membership service, as mathematical values.
pub struct Activation {
    pub canister: Seq<char>,
    pub method: Seq<char>,
    pub user_principal: Seq<char>,
    pub membership_tier: Seq<char>,
    pub amount: int,
    pub currency: Seq<char>,
    pub payment_id: Seq<char>,
    pub transaction_hash: Option<Seq<char>>,
}

impl View for MembershipActivation {
    type V = Activation;

    open spec fn view(&self) -> Activation {
        Activation {
            canister: self.canister@,
            method: self.method@,
            user_principal: self.user_principal@,
            membership_tier: self.membership_tier@,
            amount: self.amount as int,
            currency: self.currency@,
            payment_id: self.payment_id@,
            transaction_hash: opt_view(self.transaction_hash),
        }
    }
}

/// What is to be done about a request to activate a membership.
#[derive(Debug, PartialEq, Eq)]
pub enum ActivationStep {
    /// Refused: no call is made, and this is the answer.
    Rejected(PaymentResponse),
    /// The membership service is to be called once, with this.
    Call(MembershipActivation),
}

/// An activation step, as mathematical values.
pub enum Step {
    Rejected(Response),
    Call(Activation),
}

impl View for ActivationStep {
    type V = Step;

    open spec fn view(&self) -> Step {
        match self {
            ActivationStep::Rejected(response) => Step::Rejected(response@),
            ActivationStep::Call(call) => Step::Call(call@),
        }
    }
}

/// The step that a ledger takes for the payment `id`: a call of the membership
/// service if and only if the payment exists and is completed.
pub open spec fn activation_step(ledger: LedgerModel, id: Seq<char>) -> Step {
    match ledger.get(id) {
        None => Step::Rejected(not_found()),
        Some(r) => if r.status != PaymentStatus::Completed {
            Step::Rejected(payment_not_completed())
        } else {
            Step::Call(
                Activation {
                    canister: membership_canister(),
                    method: activation_method(),
                    user_principal: r.user_principal,
                    membership_tier: membership_tier(r.description),
                    amount: r.amount,
                    currency: r.currency,
                    payment_id: r.id,
                    transaction_hash: r.transaction_hash,
                },
            )
        },
    }
}

/// The outcome of a call of the membership service: done, or the failure it
/// reported.
pub open spec fn outcome_view(outcome: Result<(), String>) -> Result<(), Seq<char>> {
    match outcome {
        Ok(_) => Ok(()),
        Err(detail) => Err(detail@),
    }
}

/// The answer to give once the membership service has answered `call`.
pub open spec fn activation_response(call: Activation, outcome: Result<(), Seq<char>>) -> Response {
    match outcome {
        Ok(_) => activated(call.payment_id, call.transaction_hash),
        Err(detail) => activation_failed(call.payment_id, call.transaction_hash, detail),
    }
}

impl PaymentLedger {
    /// Decides whether a membership is to be activated for the payment
    /// `payment_id`, and with what tier.
    ///
    /// Only a completed payment leads to a call. The ledger is read, never
    /// written: asking again for the same payment gives the same step.
    pub fn activate_membership(&self, payment_id: &str) -> (step: ActivationStep)
        requires
            self.wf(),
        ensures
            step@ == activation_step(self@, payment_id@),
    {
        let payment = match self.get_payment(payment_id) {
            Some(p) => p,
            None => {
                return ActivationStep::Rejected(PaymentResponse::not_found());
            },
        };
        if payment.status != PaymentStatus::Completed {
            return ActivationStep::Rejected(PaymentResponse::payment_not_completed());
        }
        let membership_tier = extract_membership_tier(payment.description.as_str());
        ActivationStep::Call(
            MembershipActivation {
                canister: "laci2-ryaaa-aaaap-qp5oa-cai".to_owned(),
                method: "complete_cross_chain_payment".to_owned(),
                user_principal: payment.user_principal,
                membership_tier,
                amount: payment.amount,
                currency: payment.currency,
                payment_id: payment.id,
                transaction_hash: payment.transaction_hash,
            },
        )
    }
}

/// Turns the outcome of the call into the answer for the caller: success with
/// the payment's identifier and hash, or the failure with its detail. A
/// failure is reported, never retried.
pub fn conclude_activation(call: &MembershipActivation, outcome: Result<(), String>) -> (response:
    PaymentResponse)
    ensures
        response@ == activation_response(call@, outcome_view(outcome)),
{
    match outcome {
        Ok(_) => PaymentResponse::activated(&call.payment_id, &call.transaction_hash),
        Err(detail) => PaymentResponse::activation_failed(
            &call.payment_id,
            &call.transaction_hash,
            detail,
        ),
    }
}

} // verus!
