//! What holds of the ledger in every state and for every request, proved
//! over the model that the operations' contracts are stated in.

use crate::activation::{activation_step, Step};
use crate::currency::is_supported;
use crate::ids::{lemma_decimal_value, lemma_payment_id_injective, payment_id};
use crate::ledger::{failed, opened, record_ok, settled, LedgerModel};
use crate::payment::{CreatePayment, PaymentRecord, PaymentStatus};
use crate::response::{
    activation_failed, already_completed, cancelled, cannot_cancel_completed, created,
    invalid_amount, not_found, payment_not_completed, unsupported_currency, verified, Response,
};
use crate::stats::{completed, stats_of, Rate, Stats};
use vstd::prelude::*;

verus! {

/// One operation that can change a ledger.
pub enum Operation {
    /// Opening a payment: the request, the caller's identity, the time.
    Create(CreatePayment, Seq<char>, int),
    /// Settling a payment: its identifier, the signature.
    Verify(Seq<char>, Seq<char>),
    /// Cancelling a payment: its identifier.
    Cancel(Seq<char>),
}

/// The ledger after `op`.
pub open spec fn apply(ledger: LedgerModel, op: Operation) -> LedgerModel {
    match op {
        Operation::Create(request, user, now) => ledger.create(request, user, now).0,
        Operation::Verify(id, signature) => ledger.verify(id, signature).0,
        Operation::Cancel(id) => ledger.cancel(id).0,
    }
}

/// The answer that `op` gets.
pub open spec fn answer(ledger: LedgerModel, op: Operation) -> Response {
    match op {
        Operation::Create(request, user, now) => ledger.create(request, user, now).1,
        Operation::Verify(id, signature) => ledger.verify(id, signature).1,
        Operation::Cancel(id) => ledger.cancel(id).1,
    }
}

/// The ledger after the operations `ops`, made one after the other.
pub open spec fn run(ledger: LedgerModel, ops: Seq<Operation>) -> LedgerModel
    decreases ops.len(),
{
    if ops.len() == 0 {
        ledger
    } else {
        apply(run(ledger, ops.drop_last()), ops.last())
    }
}

/// The identifiers that the creations among `ops` were given, in order.
pub open spec fn issued(ledger: LedgerModel, ops: Seq<Operation>) -> Seq<Seq<char>>
    decreases ops.len(),
{
    if ops.len() == 0 {
        Seq::empty()
    } else {
        let earlier = issued(ledger, ops.drop_last());
        let given = answer(run(ledger, ops.drop_last()), ops.last());
        if ops.last() is Create && given.success {
            earlier.push(given.payment_id->0)
        } else {
            earlier
        }
    }
}

/// What never changes in a record once it is created.
pub open spec fn same_intent(a: PaymentRecord, b: PaymentRecord) -> bool {
    &&& a.id == b.id
    &&& a.amount == b.amount
    &&& a.currency == b.currency
    &&& a.recipient_address == b.recipient_address
    &&& a.description == b.description
    &&& a.created_at == b.created_at
    &&& a.expires_at == b.expires_at
    &&& a.metadata == b.metadata
    &&& a.user_principal == b.user_principal
}

/// What `get` finds is a record of the ledger, sound and under the identifier
/// asked for.
pub proof fn lemma_get(ledger: LedgerModel, id: Seq<char>)
    requires
        ledger.wf(),
        ledger.has(id),
    ensures
        0 <= ledger.index_of(id) < ledger.records.len(),
        ledger.get(id) == Some(ledger.records[ledger.index_of(id)]),
        ledger.records[ledger.index_of(id)].id == id,
        record_ok(ledger.records[ledger.index_of(id)]),
{
}

/// Where a well-formed ledger differs from another at one place only, the
/// record there is found under its identifier, and every other identifier is
/// found as in the other ledger.
proof fn lemma_changed_at(ledger: LedgerModel, after: LedgerModel, place: int)
    requires
        ledger.wf(),
        after.wf(),
        0 <= place < after.records.len(),
        ledger.records.len() <= after.records.len() <= ledger.records.len() + 1,
        ledger.records.len() < after.records.len() ==> place == ledger.records.len(),
        forall|j: int|
            0 <= j < ledger.records.len() && j != place ==> after.records[j]
                == #[trigger] ledger.records[j],
    ensures
        after.get(after.records[place].id) == Some(after.records[place]),
        forall|id: Seq<char>|
            id != after.records[place].id ==> #[trigger] after.get(id) == ledger.get(id),
{
    after.lemma_index_of(after.records[place].id, place);
    assert forall|id: Seq<char>| id != after.records[place].id implies #[trigger] after.get(id)
        == ledger.get(id) by {
        if ledger.has(id) {
            let j = ledger.index_of(id);
            assert(ledger.records[j].id == payment_id((j + 1) as nat));
            assert(after.records[j].id == payment_id((j + 1) as nat));
            assert(after.records[j] == ledger.records[j]);
            after.lemma_index_of(id, j);
        } else if after.has(id) {
            assert(ledger.records[after.index_of(id)].id == id);
        }
    }
}

/// Replacing a record by one with the same identifier moves no record: every
/// identifier is found where it was.
proof fn lemma_replace(ledger: LedgerModel, i: int, r: PaymentRecord)
    requires
        ledger.wf(),
        0 <= i < ledger.records.len(),
        r.id == ledger.records[i].id,
        record_ok(r),
    ensures
        ledger.with_record(i, r).wf(),
        ledger.with_record(i, r).get(r.id) == Some(r),
        forall|id: Seq<char>|
            id != r.id ==> #[trigger] ledger.with_record(i, r).get(id) == ledger.get(id),
{
    let after = ledger.with_record(i, r);
    assert forall|j: int| 0 <= j < after.records.len() implies (#[trigger] after.records[j]).id
        == payment_id((j + 1) as nat) && record_ok(after.records[j]) by {
        assert(ledger.records[j].id == payment_id((j + 1) as nat));
        assert(record_ok(ledger.records[j]));
    }
    lemma_changed_at(ledger, after, i);
}

/// Appending a record under the next identifier moves no record, and the new
/// identifier was not in the ledger before.
proof fn lemma_append(ledger: LedgerModel, r: PaymentRecord)
    requires
        ledger.wf(),
        r.id == payment_id(ledger.counter + 1),
        record_ok(r),
    ensures
        !ledger.has(r.id),
        (LedgerModel { records: ledger.records.push(r), counter: ledger.counter + 1 }).wf(),
        (LedgerModel { records: ledger.records.push(r), counter: ledger.counter + 1 }).get(r.id)
            == Some(r),
        forall|id: Seq<char>|
            id != r.id ==> #[trigger] (LedgerModel {
                records: ledger.records.push(r),
                counter: ledger.counter + 1,
            }).get(id) == ledger.get(id),
{
    let after = LedgerModel { records: ledger.records.push(r), counter: ledger.counter + 1 };
    let n = ledger.records.len() as int;
    if ledger.has(r.id) {
        let j = ledger.index_of(r.id);
        assert(ledger.records[j].id == payment_id((j + 1) as nat));
        lemma_payment_id_injective((j + 1) as nat, ledger.counter + 1);
    }
    assert forall|j: int| 0 <= j < after.records.len() implies (#[trigger] after.records[j]).id
        == payment_id((j + 1) as nat) && record_ok(after.records[j]) by {
        if j < n {
            assert(ledger.records[j].id == payment_id((j + 1) as nat));
            assert(record_ok(ledger.records[j]));
        }
    }
    lemma_changed_at(ledger, after, n);
}

/// Each kind of refusal that the ledger gives carries an error of its own:
/// the errors of an invalid amount, an unsupported currency, an unknown
/// payment, a second settlement, a cancellation of a completed payment and an
/// activation before completion differ from one another.
pub proof fn law_refusals_differ_in_error(
    currency: Seq<char>,
    id: Seq<char>,
    hash: Option<Seq<char>>,
)
    ensures
        invalid_amount().error != unsupported_currency(currency).error,
        invalid_amount().error != not_found().error,
        invalid_amount().error != already_completed(id, hash).error,
        invalid_amount().error != cannot_cancel_completed(id).error,
        invalid_amount().error != payment_not_completed().error,
        unsupported_currency(currency).error != not_found().error,
        unsupported_currency(currency).error != already_completed(id, hash).error,
        unsupported_currency(currency).error != cannot_cancel_completed(id).error,
        unsupported_currency(currency).error != payment_not_completed().error,
        not_found().error != already_completed(id, hash).error,
        not_found().error != cannot_cancel_completed(id).error,
        not_found().error != payment_not_completed().error,
        already_completed(id, hash).error != cannot_cancel_completed(id).error,
        already_completed(id, hash).error != payment_not_completed().error,
        cannot_cancel_completed(id).error != payment_not_completed().error,
{
    reveal_strlit("Invalid amount");
    reveal_strlit("Unsupported currency");
    reveal_strlit("Payment not found");
    reveal_strlit("Payment already completed");
    reveal_strlit("Cannot cancel completed payment");
    reveal_strlit("Payment not completed");
    assert("Invalid amount"@.len() == 14);
    assert("Unsupported currency"@.len() == 20);
    assert("Payment not found"@.len() == 17);
    assert("Payment already completed"@.len() == 25);
    assert("Cannot cancel completed payment"@.len() == 31);
    assert("Payment not completed"@.len() == 21);
}

/// Every answer of the ledger and of the activation tells its kind by its
/// message: the messages of the seven kinds of refusal differ from one
/// another, whatever the currency named in one of them.
pub proof fn law_refusals_differ_in_message(
    currency: Seq<char>,
    id: Seq<char>,
    hash: Option<Seq<char>>,
    detail: Seq<char>,
)
    ensures
        invalid_amount().message != unsupported_currency(currency).message,
        invalid_amount().message != not_found().message,
        invalid_amount().message != already_completed(id, hash).message,
        invalid_amount().message != cannot_cancel_completed(id).message,
        invalid_amount().message != payment_not_completed().message,
        invalid_amount().message != activation_failed(id, hash, detail).message,
        unsupported_currency(currency).message != not_found().message,
        unsupported_currency(currency).message != already_completed(id, hash).message,
        unsupported_currency(currency).message != cannot_cancel_completed(id).message,
        unsupported_currency(currency).message != payment_not_completed().message,
        unsupported_currency(currency).message != activation_failed(id, hash, detail).message,
        not_found().message != already_completed(id, hash).message,
        not_found().message != cannot_cancel_completed(id).message,
        not_found().message != payment_not_completed().message,
        not_found().message != activation_failed(id, hash, detail).message,
        already_completed(id, hash).message != cannot_cancel_completed(id).message,
        already_completed(id, hash).message != payment_not_completed().message,
        already_completed(id, hash).message != activation_failed(id, hash, detail).message,
        cannot_cancel_completed(id).message != payment_not_completed().message,
        cannot_cancel_completed(id).message != activation_failed(id, hash, detail).message,
        payment_not_completed().message != activation_failed(id, hash, detail).message,
{
    reveal_strlit("Amount must be greater than 0");
    reveal_strlit("Unsupported currency: ");
    reveal_strlit("Payment not found");
    reveal_strlit("Payment already completed");
    reveal_strlit("Cannot cancel completed payment");
    reveal_strlit("Payment not completed");
    reveal_strlit("Failed to activate membership");
    let unsupported = "Unsupported currency: "@ + currency;
    assert(unsupported[0] == 'U');
    assert("Amount must be greater than 0"@[0] == 'A');
    assert("Payment not found"@[0] == 'P' && "Payment not found"@.len() == 17);
    assert("Payment already completed"@[0] == 'P' && "Payment already completed"@.len() == 25);
    assert("Cannot cancel completed payment"@[0] == 'C');
    assert("Payment not completed"@[0] == 'P' && "Payment not completed"@.len() == 21);
    assert("Failed to activate membership"@[0] == 'F');
}

/// In every ledger no two records share an identifier, and no identifier is
/// empty.
pub proof fn law_identifiers_distinct(ledger: LedgerModel, i: int, j: int)
    requires
        ledger.wf(),
        0 <= i < ledger.records.len(),
        0 <= j < ledger.records.len(),
        i != j,
    ensures
        ledger.records[i].id != ledger.records[j].id,
        ledger.records[i].id.len() > 0,
{
    assert(ledger.records[i].id == payment_id((i + 1) as nat));
    assert(ledger.records[j].id == payment_id((j + 1) as nat));
    if ledger.records[i].id == ledger.records[j].id {
        lemma_payment_id_injective((i + 1) as nat, (j + 1) as nat);
    }
    lemma_decimal_value((i + 1) as nat);
}

/// Every valid request is accepted, under the next identifier, which is not
/// empty, which no record carries and which no earlier creation was given.
/// The counter and the number of records go up by one, and the ledger then
/// holds the new record, pending, with the fields of the request.
pub proof fn law_create_accepts_valid(
    ledger: LedgerModel,
    request: CreatePayment,
    user: Seq<char>,
    now: int,
)
    requires
        ledger.wf(),
        request.amount > 0,
        is_supported(request.currency),
    ensures
        ({
            let id = payment_id(ledger.counter + 1);
            let (after, response) = ledger.create(request, user, now);
            &&& response == created(id)
            &&& response.success
            &&& !ledger.has(id)
            &&& forall|k: nat| 1 <= k <= ledger.counter ==> #[trigger] payment_id(k) != id
            &&& id.len() > 0
            &&& after.wf()
            &&& after.counter == ledger.counter + 1
            &&& after.records.len() == ledger.records.len() + 1
            &&& after.get(id) == Some(opened(id, request, user, now))
            &&& forall|other: Seq<char>| other != id ==> #[trigger] after.get(other) == ledger.get(other)
        }),
{
    let id = payment_id(ledger.counter + 1);
    lemma_append(ledger, opened(id, request, user, now));
    assert forall|k: nat| 1 <= k <= ledger.counter implies #[trigger] payment_id(k) != id by {
        if payment_id(k) == id {
            lemma_payment_id_injective(k, ledger.counter + 1);
        }
    }
    lemma_decimal_value(ledger.counter + 1);
}

/// A request for a zero or negative amount is refused as an invalid amount,
/// whatever its currency. It takes no identifier and stores nothing: a request
/// made after it is answered as if the refused one had never been made.
pub proof fn law_create_refuses_nonpositive_amount(
    ledger: LedgerModel,
    request: CreatePayment,
    user: Seq<char>,
    now: int,
    next: CreatePayment,
    next_user: Seq<char>,
    later: int,
)
    requires
        request.amount <= 0,
    ensures
        ledger.create(request, user, now) == (ledger, invalid_amount()),
        !invalid_amount().success,
        ledger.create(request, user, now).0.create(next, next_user, later) == ledger.create(
            next,
            next_user,
            later,
        ),
{
}

/// A request for a positive amount in a currency that is not on the
/// allow-list is refused as an unsupported currency, and changes nothing.
pub proof fn law_create_refuses_unsupported_currency(
    ledger: LedgerModel,
    request: CreatePayment,
    user: Seq<char>,
    now: int,
)
    requires
        request.amount > 0,
        !is_supported(request.currency),
    ensures
        ledger.create(request, user, now) == (ledger, unsupported_currency(request.currency)),
        !unsupported_currency(request.currency).success,
{
}

/// Settling is refused the second time. The first signature settles the
/// payment; a second one, the same or another, is refused as already
/// completed, the answer carries the first signature, and the ledger keeps it.
pub proof fn law_verify_rejects_second_signature(
    ledger: LedgerModel,
    id: Seq<char>,
    first: Seq<char>,
    second: Seq<char>,
)
    requires
        ledger.wf(),
        ledger.get(id) matches Some(r) && r.status != PaymentStatus::Completed,
    ensures
        ({
            let (once, accepted) = ledger.verify(id, first);
            let (twice, refused) = once.verify(id, second);
            &&& accepted == verified(id, first)
            &&& once.wf()
            &&& once.get(id) == Some(settled(ledger.get(id)->0, first))
            &&& refused == already_completed(id, Some(first))
            &&& !refused.success
            &&& twice == once
        }),
{
    lemma_get(ledger, id);
    let i = ledger.index_of(id);
    let r = ledger.records[i];
    lemma_replace(ledger, i, settled(r, first));
}

/// A completed payment cannot be cancelled: the request is refused and the
/// ledger, with the payment's status, stays as it is. The refusal names the
/// payment and carries an error of its own kind, not that of a second
/// settlement.
pub proof fn law_cancel_refuses_completed(ledger: LedgerModel, id: Seq<char>)
    requires
        ledger.wf(),
        ledger.get(id) matches Some(r) && r.status == PaymentStatus::Completed,
    ensures
        ledger.cancel(id) == (ledger, cannot_cancel_completed(id)),
        !cannot_cancel_completed(id).success,
        cannot_cancel_completed(id).payment_id == Some(id),
        forall|hash: Option<Seq<char>>|
            cannot_cancel_completed(id).error != (#[trigger] already_completed(id, hash)).error,
{
    assert forall|hash: Option<Seq<char>>|
        cannot_cancel_completed(id).error != (#[trigger] already_completed(id, hash)).error by {
        law_refusals_differ_in_error(Seq::empty(), id, hash);
    }
}

/// Cancelling a payment that is not completed succeeds and makes it failed,
/// with nothing else changed. Cancelling it again is accepted again and
/// changes nothing more.
pub proof fn law_cancel_fails_payment(ledger: LedgerModel, id: Seq<char>)
    requires
        ledger.wf(),
        ledger.get(id) matches Some(r) && r.status != PaymentStatus::Completed,
    ensures
        ({
            let (once, accepted) = ledger.cancel(id);
            let (twice, again) = once.cancel(id);
            &&& accepted == cancelled(id)
            &&& accepted.success
            &&& once.wf()
            &&& once.get(id) == Some(failed(ledger.get(id)->0))
            &&& again == cancelled(id)
            &&& twice == once
        }),
{
    lemma_get(ledger, id);
    let i = ledger.index_of(id);
    let r = ledger.records[i];
    lemma_replace(ledger, i, failed(r));
    let once = ledger.cancel(id).0;
    assert(once.index_of(id) == i) by {
        once.lemma_index_of(id, i);
    }
    assert(once.with_record(i, failed(failed(r))).records =~= once.records);
}

/// No membership is activated for a payment that is not completed: the
/// request is refused and no call of the membership service is asked for.
pub proof fn law_activation_needs_completed(ledger: LedgerModel, id: Seq<char>)
    requires
        ledger.get(id) matches Some(r) && r.status != PaymentStatus::Completed,
    ensures
        activation_step(ledger, id) == Step::Rejected(payment_not_completed()),
        !(activation_step(ledger, id) is Call),
{
}

/// The statistics of the empty ledger are all zero.
pub proof fn law_stats_of_empty()
    ensures
        stats_of(LedgerModel::empty()) == (Stats {
            total_payments: 0,
            completed_payments: 0,
            total_volume: 0,
            success_rate: Rate { numerator: 0, denominator: 0 },
        }),
{
    reveal(Seq::filter);
}

/// With `n` payments of which `k` are completed, the statistics count `n` and
/// `k`, and the success rate is exactly `100 * k / n` percent: the fraction
/// of `100 * k` over `n`, not rounded, between 0 and 100.
pub proof fn law_success_rate(ledger: LedgerModel)
    requires
        ledger.records.len() > 0,
    ensures
        ({
            let n = ledger.records.len();
            let k = completed(ledger.records).len();
            let rate = stats_of(ledger).success_rate;
            &&& stats_of(ledger).total_payments == n
            &&& stats_of(ledger).completed_payments == k
            &&& k <= n
            &&& rate.numerator == 100 * k
            &&& rate.denominator == n
            &&& rate.numerator <= 100 * rate.denominator
        }),
{
    ledger.records.lemma_filter_len(|r: PaymentRecord| r.status == PaymentStatus::Completed);
}

/// What one operation does to the records that were there: each stays, with
/// what was fixed at its creation, and a completed one stays as it is.
proof fn lemma_apply(ledger: LedgerModel, op: Operation)
    requires
        ledger.wf(),
    ensures
        apply(ledger, op).wf(),
        forall|id: Seq<char>|
            ledger.has(id) ==> {
                &&& #[trigger] apply(ledger, op).get(id) matches Some(after)
                &&& same_intent(ledger.get(id)->0, after)
                &&& ledger.get(id)->0.status == PaymentStatus::Completed ==> after == ledger.get(
                    id,
                )->0
            },
{
    assert forall|id: Seq<char>| ledger.has(id) implies ledger.get(id) is Some by {
        lemma_get(ledger, id);
    }
    match op {
        Operation::Create(request, user, now) => {
            if request.amount > 0 && is_supported(request.currency) {
                law_create_accepts_valid(ledger, request, user, now);
            }
        },
        Operation::Verify(target, signature) => {
            if ledger.has(target) {
                lemma_get(ledger, target);
                let r = ledger.records[ledger.index_of(target)];
                if r.status != PaymentStatus::Completed {
                    lemma_replace(ledger, ledger.index_of(target), settled(r, signature));
                }
            }
        },
        Operation::Cancel(target) => {
            if ledger.has(target) {
                lemma_get(ledger, target);
                let r = ledger.records[ledger.index_of(target)];
                if r.status != PaymentStatus::Completed {
                    lemma_replace(ledger, ledger.index_of(target), failed(r));
                }
            }
        },
    }
}

/// Every operation keeps the ledger's invariant: identifiers stay unique and
/// without gap, amounts positive, currencies supported, and a settlement hash
/// is held by the completed payments and by no other.
pub proof fn law_invariant_kept(ledger: LedgerModel, op: Operation)
    requires
        ledger.wf(),
    ensures
        apply(ledger, op).wf(),
{
    lemma_apply(ledger, op);
}

/// No operation deletes a record or rewrites what was fixed at its creation:
/// a payment that is in the ledger stays there, with the same identifier,
/// amount, currency, recipient, description, times, metadata and owner.
pub proof fn law_records_persist(ledger: LedgerModel, op: Operation, id: Seq<char>)
    requires
        ledger.wf(),
        ledger.has(id),
    ensures
        apply(ledger, op).get(id) matches Some(after) && same_intent(ledger.get(id)->0, after),
{
    lemma_apply(ledger, op);
}

/// Completed is terminal: no operation changes a completed payment in any
/// way, so its status stays and its settlement hash is never replaced.
pub proof fn law_completed_is_terminal(ledger: LedgerModel, op: Operation, id: Seq<char>)
    requires
        ledger.wf(),
        ledger.get(id) matches Some(r) && r.status == PaymentStatus::Completed,
    ensures
        apply(ledger, op).get(id) == ledger.get(id),
{
    lemma_apply(ledger, op);
}

/// Along any run of operations, whatever is refused in between, the
/// identifiers given out count up from the counter without gap, so no
/// identifier is given out twice, and the counter moves on by their number.
pub proof fn law_issued_identifiers(ledger: LedgerModel, ops: Seq<Operation>)
    ensures
        run(ledger, ops).counter == ledger.counter + issued(ledger, ops).len(),
        forall|k: int|
            0 <= k < issued(ledger, ops).len() ==> #[trigger] issued(ledger, ops)[k] == payment_id(
                (ledger.counter + k + 1) as nat,
            ),
        forall|j: int, k: int|
            0 <= j < k < issued(ledger, ops).len() ==> #[trigger] issued(ledger, ops)[j]
                != #[trigger] issued(ledger, ops)[k],
    decreases ops.len(),
{
    if ops.len() > 0 {
        law_issued_identifiers(ledger, ops.drop_last());
    }
    let ids = issued(ledger, ops);
    assert forall|j: int, k: int| 0 <= j < k < ids.len() implies #[trigger] ids[j] != #[trigger] ids[k] by {
        if ids[j] == ids[k] {
            lemma_payment_id_injective(
                (ledger.counter + j + 1) as nat,
                (ledger.counter + k + 1) as nat,
            );
        }
    }
}

/// After any run of operations a valid request is given an identifier that
/// none of the creations of the run was given, and that no record carries.
pub proof fn law_create_never_reissues(
    ledger: LedgerModel,
    ops: Seq<Operation>,
    request: CreatePayment,
    user: Seq<char>,
    now: int,
)
    requires
        ledger.wf(),
        request.amount > 0,
        is_supported(request.currency),
    ensures
        ({
            let before = run(ledger, ops);
            let response = before.create(request, user, now).1;
            &&& response.success
            &&& response.payment_id matches Some(id)
            &&& id.len() > 0
            &&& !before.has(id)
            &&& !issued(ledger, ops).contains(id)
            &&& id == payment_id(before.counter + 1)
        }),
{
    let before = run(ledger, ops);
    let id = payment_id(before.counter + 1);
    law_invariant_kept_along(ledger, ops);
    law_issued_identifiers(ledger, ops);
    law_create_accepts_valid(before, request, user, now);
    let ids = issued(ledger, ops);
    assert forall|k: int| 0 <= k < ids.len() implies ids[k] != id by {
        if ids[k] == id {
            lemma_payment_id_injective((ledger.counter + k + 1) as nat, before.counter + 1);
        }
    }
}

/// Along any run of operations the ledger's invariant is kept.
pub proof fn law_invariant_kept_along(ledger: LedgerModel, ops: Seq<Operation>)
    requires
        ledger.wf(),
    ensures
        run(ledger, ops).wf(),
    decreases ops.len(),
{
    if ops.len() > 0 {
        law_invariant_kept_along(ledger, ops.drop_last());
        law_invariant_kept(run(ledger, ops.drop_last()), ops.last());
    }
}

/// Along any run of operations a payment that is in the ledger stays there,
/// with what was fixed at its creation unchanged.
pub proof fn law_records_persist_along(ledger: LedgerModel, ops: Seq<Operation>, id: Seq<char>)
    requires
        ledger.wf(),
        ledger.has(id),
    ensures
        run(ledger, ops).get(id) matches Some(after) && same_intent(ledger.get(id)->0, after),
    decreases ops.len(),
{
    if ops.len() > 0 {
        let before = run(ledger, ops.drop_last());
        law_records_persist_along(ledger, ops.drop_last(), id);
        law_invariant_kept_along(ledger, ops.drop_last());
        law_records_persist(before, ops.last(), id);
    }
}

/// Along any run of operations a completed payment stays as it is: completed,
/// and with the hash it was settled with.
pub proof fn law_completed_is_terminal_along(
    ledger: LedgerModel,
    ops: Seq<Operation>,
    id: Seq<char>,
)
    requires
        ledger.wf(),
        ledger.get(id) matches Some(r) && r.status == PaymentStatus::Completed,
    ensures
        run(ledger, ops).get(id) == ledger.get(id),
    decreases ops.len(),
{
    if ops.len() > 0 {
        let before = run(ledger, ops.drop_last());
        law_completed_is_terminal_along(ledger, ops.drop_last(), id);
        law_invariant_kept_along(ledger, ops.drop_last());
        law_completed_is_terminal(before, ops.last(), id);
    }
}

} // verus!
