//! Payment records, the requests that create and settle them, and their
//! mathematical views.
//!
//! Amounts are whole numbers of the currency's minor unit; times are seconds
//! since the epoch.

use vstd::prelude::*;

verus! {

/// Where a payment stands in its life.
#[derive(Clone, Copy, Debug, PartialEq, Eq, Structural)]
pub enum PaymentStatus {
    /// Created and waiting for settlement.
    Pending,
    /// Reserved: no operation enters this state.
    Processing,
    /// Settled. Terminal.
    Completed,
    /// Cancelled or failed.
    Failed,
    /// Reserved for payments whose deadline has passed: no operation enters this state.
    Expired,
}

/// The view of an optional string.
pub open spec fn opt_view(o: Option<String>) -> Option<Seq<char>> {
    match o {
        Some(s) => Some(s@),
        None => None,
    }
}

/// A copy of an optional string.
pub fn clone_opt(o: &Option<String>) -> (r: Option<String>)
    ensures
        r == *o,
{
    match o {
        Some(s) => Some(s.clone()),
        None => None,
    }
}

/// One payment intent, as the ledger stores it.
#[derive(Debug, PartialEq, Eq)]
pub struct PaymentRequest {
    pub id: String,
    pub amount: i64,
    pub currency: String,
    pub recipient_address: String,
    pub description: String,
    pub expires_at: i64,
    pub created_at: i64,
    pub status: PaymentStatus,
    pub transaction_hash: Option<String>,
    pub metadata: Option<String>,
    pub user_principal: String,
}

/// What a payment record holds, as mathematical values.
pub struct PaymentRecord {
    pub id: Seq<char>,
    pub amount: int,
    pub currency: Seq<char>,
    pub recipient_address: Seq<char>,
    pub description: Seq<char>,
    pub expires_at: int,
    pub created_at: int,
    pub status: PaymentStatus,
    pub transaction_hash: Option<Seq<char>>,
    pub metadata: Option<Seq<char>>,
    pub user_principal: Seq<char>,
}

impl View for PaymentRequest {
    type V = PaymentRecord;

    open spec fn view(&self) -> PaymentRecord {
        PaymentRecord {
            id: self.id@,
            amount: self.amount as int,
            currency: self.currency@,
            recipient_address: self.recipient_address@,
            description: self.description@,
            expires_at: self.expires_at as int,
            created_at: self.created_at as int,
            status: self.status,
            transaction_hash: opt_view(self.transaction_hash),
            metadata: opt_view(self.metadata),
            user_principal: self.user_principal@,
        }
    }
}

impl Clone for PaymentRequest {
    fn clone(&self) -> (r: Self)
        ensures
            r == *self,
    {
        PaymentRequest {
            id: self.id.clone(),
            amount: self.amount,
            currency: self.currency.clone(),
            recipient_address: self.recipient_address.clone(),
            description: self.description.clone(),
            expires_at: self.expires_at,
            created_at: self.created_at,
            status: self.status,
            transaction_hash: clone_opt(&self.transaction_hash),
            metadata: clone_opt(&self.metadata),
            user_principal: self.user_principal.clone(),
        }
    }
}

/// What a caller asks for when opening a payment.
#[derive(Debug, PartialEq, Eq)]
pub struct CreatePaymentRequest {
    pub amount: i64,
    pub currency: String,
    pub description: String,
    pub expires_in_minutes: Option<i32>,
    pub metadata: Option<String>,
}

/// A request to open a payment, as mathematical values.
pub struct CreatePayment {
    pub amount: int,
    pub currency: Seq<char>,
    pub description: Seq<char>,
    pub expires_in_minutes: Option<int>,
    pub metadata: Option<Seq<char>>,
}

impl View for CreatePaymentRequest {
    type V = CreatePayment;

    open spec fn view(&self) -> CreatePayment {
        CreatePayment {
            amount: self.amount as int,
            currency: self.currency@,
            description: self.description@,
            expires_in_minutes: match self.expires_in_minutes {
                Some(m) => Some(m as int),
                None => None,
            },
            metadata: opt_view(self.metadata),
        }
    }
}

/// A settlement signature offered for a payment.
#[derive(Debug, PartialEq, Eq)]
pub struct VerifyPaymentRequest {
    pub payment_id: String,
    pub transaction_signature: String,
}

} // verus!
