//! The payment ledger and the lifecycle of the payments in it.
//!
//! The ledger is modelled as the sequence of its records in the order of
//! their creation, together with the identifier counter. Every operation is
//! stated as a function from the model before the call to the model after it
//! and the response given.
//!
//! A payment is created pending. Settling makes it completed, which is final;
//! cancelling makes it failed. A record's deadline is advisory: no operation
//! compares it with the clock, so no payment is ever marked expired, on
//! writing or on reading, and none is ever marked processing. Records are
//! never deleted.

use crate::currency::{is_supported, refusal, validate_payment};
use crate::ids::{generate_id, lemma_payment_id_injective, parse_payment_id, payment_id};
use crate::laws::law_create_accepts_valid;
use crate::payment::{
    opt_view, CreatePayment, CreatePaymentRequest, PaymentRecord, PaymentRequest, PaymentStatus,
    VerifyPaymentRequest,
};
use crate::principal::{caller_text, principal_bytes, principal_text};
use crate::response::{
    already_completed, cancelled, cannot_cancel_completed, created, not_found, verified,
    PaymentResponse, Response,
};
use candid::Principal;
use vstd::prelude::*;

verus! {

/// The time in whole seconds, from the time in nanoseconds since the epoch.
pub fn timestamp_seconds(nanoseconds: u64) -> (seconds: i64)
    ensures
        seconds == nanoseconds / 1_000_000_000,
{
    (nanoseconds / 1_000_000_000) as i64
}

/// What the service says of the settlement network.
pub fn get_solana_status() -> (status: String)
    ensures
        status@ == "Solana network is accessible through IC RPC canister"@,
{
    "Solana network is accessible through IC RPC canister".to_owned()
}

/// The address that receives every payment.
pub open spec fn treasury() -> Seq<char> {
    "IC_SPICY_TREASURY"@
}

/// The minutes until a payment expires, when the request names none.
pub const DEFAULT_EXPIRY_MINUTES: i32 = 30;

/// The minutes until the payment asked for by `request` expires.
pub open spec fn expiry_minutes(request: CreatePayment) -> int {
    match request.expires_in_minutes {
        Some(m) => m,
        None => DEFAULT_EXPIRY_MINUTES as int,
    }
}

/// What holds of every record in a ledger: the amount is positive, the
/// currency supported, the recipient the treasury; the status is pending,
/// completed or failed; and the completed records, and no others, hold a
/// settlement hash.
pub open spec fn record_ok(r: PaymentRecord) -> bool {
    &&& r.amount > 0
    &&& is_supported(r.currency)
    &&& r.recipient_address == treasury()
    &&& (r.status is Pending || r.status is Completed || r.status is Failed)
    &&& (r.transaction_hash is Some <==> r.status is Completed)
}

/// The record that `request` opens under the identifier `id`.
pub open spec fn opened(id: Seq<char>, request: CreatePayment, user: Seq<char>, now: int)
    -> PaymentRecord {
    PaymentRecord {
        id,
        amount: request.amount,
        currency: request.currency,
        recipient_address: treasury(),
        description: request.description,
        expires_at: now + expiry_minutes(request) * 60,
        created_at: now,
        status: PaymentStatus::Pending,
        transaction_hash: None,
        metadata: request.metadata,
        user_principal: user,
    }
}

/// `r` settled with `signature`: nothing else changes.
pub open spec fn settled(r: PaymentRecord, signature: Seq<char>) -> PaymentRecord {
    PaymentRecord { status: PaymentStatus::Completed, transaction_hash: Some(signature), ..r }
}

/// `r` cancelled: nothing but the status changes.
pub open spec fn failed(r: PaymentRecord) -> PaymentRecord {
    PaymentRecord { status: PaymentStatus::Failed, ..r }
}

/// The ledger as mathematical values: its records in the order of their
/// creation, and the number of identifiers given out so far.
pub struct LedgerModel {
    pub records: Seq<PaymentRecord>,
    pub counter: nat,
}

impl LedgerModel {
    /// The ledger at the start: no record, no identifier given out.
    pub open spec fn empty() -> LedgerModel {
        LedgerModel { records: Seq::empty(), counter: 0 }
    }

    /// The invariant of the ledger: the `n`-th record carries the `n`-th
    /// identifier, so identifiers are unique and have no gap, and every
    /// record is sound.
    pub open spec fn wf(self) -> bool {
        &&& self.counter == self.records.len()
        &&& forall|i: int|
            0 <= i < self.records.len() ==> (#[trigger] self.records[i]).id == payment_id(
                (i + 1) as nat,
            )
        &&& forall|i: int| 0 <= i < self.records.len() ==> record_ok(#[trigger] self.records[i])
    }

    /// Some record carries the identifier `id`.
    pub open spec fn has(self, id: Seq<char>) -> bool {
        exists|i: int| 0 <= i < self.records.len() && (#[trigger] self.records[i]).id == id
    }

    /// The place of the record with the identifier `id`.
    pub open spec fn index_of(self, id: Seq<char>) -> int {
        choose|i: int| 0 <= i < self.records.len() && (#[trigger] self.records[i]).id == id
    }

    /// The record with the identifier `id`, if there is one.
    pub open spec fn get(self, id: Seq<char>) -> Option<PaymentRecord> {
        if self.has(id) {
            Some(self.records[self.index_of(id)])
        } else {
            None
        }
    }

    /// The ledger with the record at place `i` replaced.
    pub open spec fn with_record(self, i: int, r: PaymentRecord) -> LedgerModel {
        LedgerModel { records: self.records.update(i, r), counter: self.counter }
    }

    /// Opening a payment: a refused request changes nothing; an accepted one
    /// takes the next identifier and appends a pending record.
    pub open spec fn create(self, request: CreatePayment, user: Seq<char>, now: int) -> (
        LedgerModel,
        Response,
    ) {
        match refusal(request.amount, request.currency) {
            Some(response) => (self, response),
            None => {
                let id = payment_id(self.counter + 1);
                (
                    LedgerModel {
                        records: self.records.push(opened(id, request, user, now)),
                        counter: self.counter + 1,
                    },
                    created(id),
                )
            },
        }
    }

    /// Settling a payment: an unknown identifier and a settled payment are
    /// refused and change nothing; otherwise the record becomes completed
    /// and holds the signature.
    pub open spec fn verify(self, id: Seq<char>, signature: Seq<char>) -> (LedgerModel, Response) {
        match self.get(id) {
            None => (self, not_found()),
            Some(r) => if r.status == PaymentStatus::Completed {
                (self, already_completed(r.id, r.transaction_hash))
            } else {
                (self.with_record(self.index_of(id), settled(r, signature)), verified(r.id, signature))
            },
        }
    }

    /// Cancelling a payment: an unknown identifier and a settled payment are
    /// refused and change nothing; otherwise the record becomes failed.
    /// Cancelling a payment that has failed already is accepted again.
    pub open spec fn cancel(self, id: Seq<char>) -> (LedgerModel, Response) {
        match self.get(id) {
            None => (self, not_found()),
            Some(r) => if r.status == PaymentStatus::Completed {
                (self, cannot_cancel_completed(id))
            } else {
                (self.with_record(self.index_of(id), failed(r)), cancelled(id))
            },
        }
    }

    /// In a well-formed ledger an identifier names at most one record.
    pub proof fn lemma_index_of(self, id: Seq<char>, i: int)
        requires
            self.wf(),
            0 <= i < self.records.len(),
            self.records[i].id == id,
        ensures
            self.has(id),
            self.index_of(id) == i,
            self.get(id) == Some(self.records[i]),
    {
        let j = self.index_of(id);
        assert(self.records[j].id == payment_id((j + 1) as nat));
        assert(self.records[i].id == payment_id((i + 1) as nat));
        lemma_payment_id_injective((i + 1) as nat, (j + 1) as nat);
    }
}

/// The machine limits of a creation: a request that is accepted needs an
/// identifier left in the counter and a deadline that is a time.
pub open spec fn creation_fits(ledger: LedgerModel, request: CreatePayment, now: int) -> bool {
    refusal(request.amount, request.currency) is None ==> {
        &&& ledger.counter < u64::MAX
        &&& i64::MIN <= now + expiry_minutes(request) * 60 <= i64::MAX
    }
}

/// What a creation does: ledger and answer are those of `create`. A refused
/// request leaves the ledger, with its counter, as it was. An accepted one is
/// answered with the next identifier, which is not empty, which no record
/// carried and which differs from every identifier given out before; the
/// counter and the number of records go up by one; and the record under the
/// new identifier is pending.
pub open spec fn creation(
    before: LedgerModel,
    after: LedgerModel,
    response: Response,
    request: CreatePayment,
    user: Seq<char>,
    now: int,
) -> bool {
    let id = payment_id(before.counter + 1);
    &&& (after, response) == before.create(request, user, now)
    &&& refusal(request.amount, request.currency) is Some ==> after == before && !response.success
    &&& refusal(request.amount, request.currency) is None ==> {
        &&& response.success
        &&& response.payment_id == Some(id)
        &&& id.len() > 0
        &&& !before.has(id)
        &&& forall|k: nat| 1 <= k <= before.counter ==> #[trigger] payment_id(k) != id
        &&& after.counter == before.counter + 1
        &&& after.records.len() == before.records.len() + 1
        &&& after.get(id) matches Some(r) && r.status == PaymentStatus::Pending
    }
}

/// The views of a run of stored records, one for one.
pub open spec fn record_views(payments: Seq<PaymentRequest>) -> Seq<PaymentRecord> {
    payments.map_values(|p: PaymentRequest| p@)
}

/// The payment ledger: the authoritative store of payment records.
pub struct PaymentLedger {
    payments: Vec<PaymentRequest>,
    counter: u64,
}

impl View for PaymentLedger {
    type V = LedgerModel;

    closed spec fn view(&self) -> LedgerModel {
        LedgerModel {
            records: record_views(self.payments@),
            counter: self.counter as nat,
        }
    }
}

impl PaymentLedger {
    /// The ledger's invariant holds.
    pub open spec fn wf(&self) -> bool {
        self@.wf()
    }

    /// A ledger with no payment in it.
    pub fn new() -> (ledger: PaymentLedger)
        ensures
            ledger@ == LedgerModel::empty(),
            ledger.wf(),
    {
        let ledger = PaymentLedger { payments: Vec::new(), counter: 0 };
        assert(ledger@.records =~= Seq::empty());
        ledger
    }

    /// The stored records, in the order of their creation.
    pub fn payments(&self) -> (payments: &Vec<PaymentRequest>)
        ensures
            record_views(payments@) == self@.records,
    {
        &self.payments
    }

    /// The place of the record with the identifier `id`: the identifier is
    /// read back to its number, and the `n`-th record is at place `n - 1`.
    fn position(&self, id: &str) -> (r: Option<usize>)
        requires
            self.wf(),
        ensures
            match r {
                Some(i) => {
                    &&& i < self.payments.len()
                    &&& self@.has(id@)
                    &&& self@.index_of(id@) == i
                    &&& self@.get(id@) == Some(self.payments[i as int]@)
                },
                None => !self@.has(id@) && self@.get(id@) is None,
            },
    {
        match parse_payment_id(id) {
            Some(n) => {
                if 1 <= n && n <= self.payments.len() as u64 {
                    let i = (n - 1) as usize;
                    proof {
                        assert(self@.records[i as int].id == payment_id(n as nat));
                        self@.lemma_index_of(id@, i as int);
                    }
                    Some(i)
                } else {
                    proof {
                        if self@.has(id@) {
                            let j = self@.index_of(id@);
                            assert(self@.records[j].id == payment_id((j + 1) as nat));
                            lemma_payment_id_injective((j + 1) as nat, n as nat);
                        }
                    }
                    None
                }
            },
            None => {
                proof {
                    if self@.has(id@) {
                        let j = self@.index_of(id@);
                        assert(self@.records[j].id == payment_id((j + 1) as nat));
                    }
                }
                None
            },
        }
    }

    /// Opens a payment for the caller whose identity, as text, is
    /// `user_principal`, at the time `now`.
    ///
    /// The request is validated before anything else: a refused request takes
    /// no identifier and stores nothing. An accepted one is answered with the
    /// next identifier, which is not empty, which no record carried and which
    /// differs from every identifier given out before; the counter and the
    /// number of records go up by one.
    pub fn create_payment_for(
        &mut self,
        request: CreatePaymentRequest,
        user_principal: String,
        now: i64,
    ) -> (response: PaymentResponse)
        requires
            old(self).wf(),
            creation_fits(old(self)@, request@, now as int),
        ensures
            final(self).wf(),
            creation(
                old(self)@,
                final(self)@,
                response@,
                request@,
                user_principal@,
                now as int,
            ),
    {
        match validate_payment(request.amount, request.currency.as_str()) {
            Err(refused) => {
                return refused;
            },
            Ok(_) => {},
        }
        let id = generate_id(&mut self.counter);
        let minutes: i64 = match request.expires_in_minutes {
            Some(m) => m as i64,
            None => DEFAULT_EXPIRY_MINUTES as i64,
        };
        let response = PaymentResponse::created(&id);
        let payment = PaymentRequest {
            id,
            amount: request.amount,
            currency: request.currency,
            recipient_address: "IC_SPICY_TREASURY".to_owned(),
            description: request.description,
            expires_at: now + minutes * 60,
            created_at: now,
            status: PaymentStatus::Pending,
            transaction_hash: None,
            metadata: request.metadata,
            user_principal,
        };
        self.payments.push(payment);
        proof {
            let after = old(self)@.create(request@, user_principal@, now as int).0;
            assert(self@.records =~= after.records);
            law_create_accepts_valid(old(self)@, request@, user_principal@, now as int);
        }
        response
    }

    /// Opens a payment for `caller` at the time `now`: the record is owned by
    /// the caller's principal in its textual form.
    pub fn create_payment(
        &mut self,
        request: CreatePaymentRequest,
        caller: &Principal,
        now: i64,
    ) -> (response: PaymentResponse)
        requires
            old(self).wf(),
            creation_fits(old(self)@, request@, now as int),
        ensures
            final(self).wf(),
            creation(
                old(self)@,
                final(self)@,
                response@,
                request@,
                principal_text(principal_bytes(*caller)),
                now as int,
            ),
    {
        self.create_payment_for(request, caller_text(caller), now)
    }

    /// The record with the identifier `payment_id`, if there is one.
    pub fn get_payment(&self, payment_id: &str) -> (r: Option<PaymentRequest>)
        requires
            self.wf(),
        ensures
            match r {
                Some(p) => self@.get(payment_id@) == Some(p@),
                None => self@.get(payment_id@) is None,
            },
    {
        match self.position(payment_id) {
            Some(i) => Some(self.payments[i].clone()),
            None => None,
        }
    }

    /// The status of the payment with the identifier `payment_id`, if there is one.
    pub fn get_payment_status(&self, payment_id: &str) -> (r: Option<PaymentStatus>)
        requires
            self.wf(),
        ensures
            match r {
                Some(s) => self@.get(payment_id@) matches Some(p) && p.status == s,
                None => self@.get(payment_id@) is None,
            },
    {
        match self.position(payment_id) {
            Some(i) => Some(self.payments[i].status),
            None => None,
        }
    }

    /// Settles a payment with the signature given.
    ///
    /// A settled payment is never settled again: the second signature is
    /// refused and the first one stays.
    pub fn verify_payment(&mut self, request: VerifyPaymentRequest) -> (response: PaymentResponse)
        requires
            old(self).wf(),
        ensures
            final(self).wf(),
            (final(self)@, response@) == old(self)@.verify(
                request.payment_id@,
                request.transaction_signature@,
            ),
    {
        match self.position(request.payment_id.as_str()) {
            None => PaymentResponse::not_found(),
            Some(i) => {
                if self.payments[i].status == PaymentStatus::Completed {
                    PaymentResponse::already_completed(
                        &self.payments[i].id,
                        &self.payments[i].transaction_hash,
                    )
                } else {
                    let mut updated = self.payments[i].clone();
                    updated.status = PaymentStatus::Completed;
                    updated.transaction_hash = Some(request.transaction_signature.clone());
                    let response = PaymentResponse::verified(
                        &updated.id,
                        &request.transaction_signature,
                    );
                    self.payments.set(i, updated);
                    proof {
                        let after = old(self)@.verify(
                            request.payment_id@,
                            request.transaction_signature@,
                        ).0;
                        assert(self@.records =~= after.records);
                    }
                    response
                }
            },
        }
    }

    /// Cancels a payment that is not settled.
    pub fn cancel_payment(&mut self, payment_id: &str) -> (response: PaymentResponse)
        requires
            old(self).wf(),
        ensures
            final(self).wf(),
            (final(self)@, response@) == old(self)@.cancel(payment_id@),
    {
        match self.position(payment_id) {
            None => PaymentResponse::not_found(),
            Some(i) => {
                if self.payments[i].status == PaymentStatus::Completed {
                    PaymentResponse::cannot_cancel_completed(&self.payments[i].id)
                } else {
                    let mut updated = self.payments[i].clone();
                    updated.status = PaymentStatus::Failed;
                    let response = PaymentResponse::cancelled(&updated.id);
                    self.payments.set(i, updated);
                    proof {
                        let after = old(self)@.cancel(payment_id@).0;
                        assert(self@.records =~= after.records);
                    }
                    response
                }
            },
        }
    }
}

} // verus!
