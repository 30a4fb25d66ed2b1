use candid::Principal;
use solana_pay::activation::{conclude_activation, ActivationStep};
use solana_pay::ledger::{get_solana_status, timestamp_seconds, PaymentLedger};
use solana_pay::payment::{CreatePaymentRequest, PaymentStatus, VerifyPaymentRequest};
use solana_pay::response::PaymentResponse;

fn request(amount: i64, currency: &str, description: &str) -> CreatePaymentRequest {
    CreatePaymentRequest {
        amount,
        currency: currency.to_string(),
        description: description.to_string(),
        expires_in_minutes: None,
        metadata: None,
    }
}

fn settle(ledger: &mut PaymentLedger, id: &str, signature: &str) -> PaymentResponse {
    ledger.verify_payment(VerifyPaymentRequest {
        payment_id: id.to_string(),
        transaction_signature: signature.to_string(),
    })
}

fn some(text: &str) -> Option<String> {
    Some(text.to_string())
}

#[test]
fn valid_request_is_stored_as_pending() {
    let mut ledger = PaymentLedger::new();
    let caller = Principal::anonymous();
    let response = ledger.create_payment(
        CreatePaymentRequest {
            amount: 2_500_000,
            currency: "SOL".to_string(),
            description: "Street Team pass".to_string(),
            expires_in_minutes: Some(45),
            metadata: some("ref-7"),
        },
        &caller,
        1_700_000_000,
    );
    assert!(response.success);
    assert_eq!(response.message, "Payment request created successfully");
    assert_eq!(response.payment_id, some("payment_1"));
    assert_eq!(response.transaction_hash, None);
    assert_eq!(response.error, None);

    let stored = ledger.get_payment("payment_1").unwrap();
    assert_eq!(stored.id, "payment_1");
    assert_eq!(stored.amount, 2_500_000);
    assert_eq!(stored.currency, "SOL");
    assert_eq!(stored.recipient_address, "IC_SPICY_TREASURY");
    assert_eq!(stored.description, "Street Team pass");
    assert_eq!(stored.created_at, 1_700_000_000);
    assert_eq!(stored.expires_at, 1_700_000_000 + 45 * 60);
    assert_eq!(stored.status, PaymentStatus::Pending);
    assert_eq!(stored.transaction_hash, None);
    assert_eq!(stored.metadata, some("ref-7"));
    assert_eq!(stored.user_principal, "2vxsx-fae");
}

#[test]
fn owner_is_the_callers_principal_as_text() {
    let mut ledger = PaymentLedger::new();
    ledger.create_payment(request(1, "RAY", ""), &Principal::management_canister(), 0);
    ledger.create_payment(request(1, "RAY", ""), &Principal::from_slice(&[0xef, 0xcd, 0xab, 0, 0, 0, 0, 0, 1]), 0);
    assert_eq!(ledger.get_payment("payment_1").unwrap().user_principal, "aaaaa-aa");
    assert_eq!(
        ledger.get_payment("payment_2").unwrap().user_principal,
        "2chl6-4hpzw-vqaaa-aaaaa-c"
    );
}

#[test]
fn default_expiry_is_thirty_minutes() {
    let mut ledger = PaymentLedger::new();
    ledger.create_payment_for(request(7, "SUI", "x"), "alice".to_string(), 1_000);
    let stored = ledger.get_payment("payment_1").unwrap();
    assert_eq!(stored.created_at, 1_000);
    assert_eq!(stored.expires_at, 1_000 + 30 * 60);
}

#[test]
fn negative_expiry_is_taken_as_given() {
    let mut ledger = PaymentLedger::new();
    let mut req = request(7, "SUI", "x");
    req.expires_in_minutes = Some(-2);
    ledger.create_payment_for(req, "alice".to_string(), 1_000);
    assert_eq!(ledger.get_payment("payment_1").unwrap().expires_at, 880);
}

#[test]
fn identifiers_count_up_without_gap() {
    let mut ledger = PaymentLedger::new();
    let mut seen: Vec<String> = Vec::new();
    for n in 1..=12u32 {
        let response = ledger.create_payment_for(request(5, "USDT", "x"), "alice".to_string(), 0);
        assert!(response.success);
        let id = response.payment_id.unwrap();
        assert_eq!(id, format!("payment_{}", n));
        assert!(!seen.contains(&id));
        seen.push(id);
    }
}

#[test]
fn every_supported_currency_is_accepted() {
    let mut ledger = PaymentLedger::new();
    for code in ["SOL", "SUI", "USDC", "USDT", "RAY"] {
        let response = ledger.create_payment_for(request(1, code, "x"), "alice".to_string(), 0);
        assert!(response.success, "{}", code);
    }
    assert_eq!(ledger.get_payment_stats().total_payments, 5);
}

#[test]
fn zero_amount_is_invalid() {
    let mut ledger = PaymentLedger::new();
    let response = ledger.create_payment_for(request(0, "SOL", "x"), "alice".to_string(), 0);
    assert!(!response.success);
    assert_eq!(response.message, "Amount must be greater than 0");
    assert_eq!(response.error, some("Invalid amount"));
    assert_eq!(response.payment_id, None);
    assert_eq!(response.transaction_hash, None);
}

#[test]
fn refused_request_takes_no_identifier() {
    let mut ledger = PaymentLedger::new();
    assert!(ledger.create_payment_for(request(3, "SOL", "a"), "alice".to_string(), 0).success);
    assert!(!ledger.create_payment_for(request(-1, "SOL", "b"), "alice".to_string(), 0).success);
    assert!(!ledger.create_payment_for(request(3, "BTC", "c"), "alice".to_string(), 0).success);
    let next = ledger.create_payment_for(request(3, "SOL", "d"), "alice".to_string(), 0);
    assert_eq!(next.payment_id, some("payment_2"));
    assert_eq!(ledger.get_payment_stats().total_payments, 2);
}

#[test]
fn amount_is_looked_at_before_currency() {
    let mut ledger = PaymentLedger::new();
    let response = ledger.create_payment_for(request(-5, "DOGE", "x"), "alice".to_string(), 0);
    assert_eq!(response.error, some("Invalid amount"));
}

#[test]
fn currency_codes_are_matched_letter_for_letter() {
    let mut ledger = PaymentLedger::new();
    for code in ["sol", "SOL ", "", "USD", "USDCX"] {
        let response = ledger.create_payment_for(request(1, code, "x"), "alice".to_string(), 0);
        assert!(!response.success, "{:?}", code);
        assert_eq!(response.message, format!("Unsupported currency: {}", code));
        assert_eq!(response.error, some("Unsupported currency"));
    }
    assert_eq!(ledger.get_payment_stats().total_payments, 0);
}

#[test]
fn second_signature_is_refused_and_first_stays() {
    let mut ledger = PaymentLedger::new();
    ledger.create_payment_for(request(10, "USDC", "x"), "alice".to_string(), 0);

    let first = settle(&mut ledger, "payment_1", "sig-one");
    assert!(first.success);
    assert_eq!(first.message, "Payment verified successfully");
    assert_eq!(first.payment_id, some("payment_1"));
    assert_eq!(first.transaction_hash, some("sig-one"));
    assert_eq!(first.error, None);

    let second = settle(&mut ledger, "payment_1", "sig-two");
    assert!(!second.success);
    assert_eq!(second.message, "Payment already completed");
    assert_eq!(second.error, some("Payment already completed"));
    assert_eq!(second.payment_id, some("payment_1"));
    assert_eq!(second.transaction_hash, some("sig-one"));

    let stored = ledger.get_payment("payment_1").unwrap();
    assert_eq!(stored.status, PaymentStatus::Completed);
    assert_eq!(stored.transaction_hash, some("sig-one"));
}

#[test]
fn verify_changes_only_status_and_hash() {
    let mut ledger = PaymentLedger::new();
    let mut req = request(10, "USDC", "Ghosties");
    req.metadata = some("m");
    ledger.create_payment_for(req, "alice".to_string(), 50);
    let before = ledger.get_payment("payment_1").unwrap();
    settle(&mut ledger, "payment_1", "sig");
    let after = ledger.get_payment("payment_1").unwrap();
    let mut expected = before.clone();
    expected.status = PaymentStatus::Completed;
    expected.transaction_hash = some("sig");
    assert_eq!(after, expected);
}

#[test]
fn verify_of_unknown_payment_is_not_found() {
    let mut ledger = PaymentLedger::new();
    ledger.create_payment_for(request(10, "USDC", "x"), "alice".to_string(), 0);
    for id in ["payment_2", "payment_0", "payment_01", "payment_", "", "PAYMENT_1"] {
        let response = settle(&mut ledger, id, "sig");
        assert!(!response.success, "{:?}", id);
        assert_eq!(response.message, "Payment not found");
        assert_eq!(response.error, some("Payment not found"));
        assert_eq!(response.payment_id, None);
        assert_eq!(response.transaction_hash, None);
    }
    assert_eq!(ledger.get_payment_status("payment_1"), Some(PaymentStatus::Pending));
}

#[test]
fn verify_settles_a_cancelled_payment() {
    let mut ledger = PaymentLedger::new();
    ledger.create_payment_for(request(10, "USDC", "x"), "alice".to_string(), 0);
    assert!(ledger.cancel_payment("payment_1").success);
    let response = settle(&mut ledger, "payment_1", "late");
    assert!(response.success);
    let stored = ledger.get_payment("payment_1").unwrap();
    assert_eq!(stored.status, PaymentStatus::Completed);
    assert_eq!(stored.transaction_hash, some("late"));
}

#[test]
fn completed_payment_cannot_be_cancelled() {
    let mut ledger = PaymentLedger::new();
    ledger.create_payment_for(request(10, "USDC", "x"), "alice".to_string(), 0);
    settle(&mut ledger, "payment_1", "sig");
    let response = ledger.cancel_payment("payment_1");
    assert!(!response.success);
    assert_eq!(response.message, "Cannot cancel completed payment");
    assert_eq!(response.error, some("Cannot cancel completed payment"));
    assert_eq!(response.payment_id, some("payment_1"));
    assert_eq!(response.transaction_hash, None);
    let stored = ledger.get_payment("payment_1").unwrap();
    assert_eq!(stored.status, PaymentStatus::Completed);
    assert_eq!(stored.transaction_hash, some("sig"));
}

#[test]
fn refused_cancellation_and_refused_settlement_differ_in_error() {
    let mut ledger = PaymentLedger::new();
    ledger.create_payment_for(request(10, "USDC", "x"), "alice".to_string(), 0);
    settle(&mut ledger, "payment_1", "sig");
    let cancel = ledger.cancel_payment("payment_1");
    let verify = settle(&mut ledger, "payment_1", "sig");
    assert!(!cancel.success && !verify.success);
    assert_ne!(cancel.error, verify.error);
    assert_ne!(cancel.message, verify.message);
}

#[test]
fn every_kind_of_refusal_has_an_error_of_its_own() {
    let mut ledger = PaymentLedger::new();
    ledger.create_payment_for(request(10, "USDC", "x"), "alice".to_string(), 0);
    ledger.create_payment_for(request(10, "USDC", "x"), "alice".to_string(), 0);
    settle(&mut ledger, "payment_1", "sig");
    let rejected = match ledger.activate_membership("payment_2") {
        ActivationStep::Rejected(response) => response,
        ActivationStep::Call(_) => panic!("a call was asked for"),
    };
    let errors = vec![
        ledger.create_payment_for(request(0, "USDC", "x"), "alice".to_string(), 0).error,
        ledger.create_payment_for(request(1, "DOGE", "x"), "alice".to_string(), 0).error,
        ledger.cancel_payment("payment_9").error,
        settle(&mut ledger, "payment_1", "other").error,
        ledger.cancel_payment("payment_1").error,
        rejected.error,
    ];
    assert_eq!(
        errors,
        vec![
            some("Invalid amount"),
            some("Unsupported currency"),
            some("Payment not found"),
            some("Payment already completed"),
            some("Cannot cancel completed payment"),
            some("Payment not completed"),
        ]
    );
    for i in 0..errors.len() {
        for j in 0..i {
            assert_ne!(errors[i], errors[j]);
        }
    }
}

#[test]
fn pending_payment_is_cancelled_and_cancelling_again_is_accepted() {
    let mut ledger = PaymentLedger::new();
    ledger.create_payment_for(request(10, "USDC", "x"), "alice".to_string(), 0);
    let before = ledger.get_payment("payment_1").unwrap();

    let first = ledger.cancel_payment("payment_1");
    assert!(first.success);
    assert_eq!(first.message, "Payment cancelled successfully");
    assert_eq!(first.payment_id, some("payment_1"));
    assert_eq!(first.transaction_hash, None);
    assert_eq!(first.error, None);
    let mut expected = before.clone();
    expected.status = PaymentStatus::Failed;
    assert_eq!(ledger.get_payment("payment_1").unwrap(), expected);

    let second = ledger.cancel_payment("payment_1");
    assert_eq!(second, first);
    assert_eq!(ledger.get_payment("payment_1").unwrap(), expected);
}

#[test]
fn cancel_of_unknown_payment_is_not_found() {
    let mut ledger = PaymentLedger::new();
    let response = ledger.cancel_payment("payment_1");
    assert!(!response.success);
    assert_eq!(response.message, "Payment not found");
    assert_eq!(response.error, some("Payment not found"));
    assert_eq!(response.payment_id, None);
}

#[test]
fn activation_of_pending_payment_asks_for_no_call() {
    let mut ledger = PaymentLedger::new();
    ledger.create_payment_for(request(10, "USDC", "Ghosties"), "alice".to_string(), 0);
    match ledger.activate_membership("payment_1") {
        ActivationStep::Rejected(response) => {
            assert!(!response.success);
            assert_eq!(response.message, "Payment not completed");
            assert_eq!(response.error, some("Payment not completed"));
            assert_eq!(response.payment_id, None);
            assert_eq!(response.transaction_hash, None);
        }
        ActivationStep::Call(_) => panic!("a call was asked for"),
    }
    ledger.cancel_payment("payment_1");
    assert!(matches!(ledger.activate_membership("payment_1"), ActivationStep::Rejected(_)));
    assert_eq!(ledger.get_payment_status("payment_1"), Some(PaymentStatus::Failed));
}

#[test]
fn activation_of_unknown_payment_is_not_found() {
    let ledger = PaymentLedger::new();
    match ledger.activate_membership("payment_9") {
        ActivationStep::Rejected(response) => {
            assert_eq!(response.message, "Payment not found");
            assert_eq!(response.error, some("Payment not found"));
        }
        ActivationStep::Call(_) => panic!("a call was asked for"),
    }
}

#[test]
fn membership_canister_is_a_principal() {
    let mut ledger = PaymentLedger::new();
    ledger.create_payment_for(request(10, "USDC", "x"), "alice".to_string(), 0);
    settle(&mut ledger, "payment_1", "sig");
    match ledger.activate_membership("payment_1") {
        ActivationStep::Call(call) => {
            assert_eq!(Principal::from_text(&call.canister).unwrap().to_text(), call.canister);
            assert_eq!(call.membership_tier, "Basic");
        }
        ActivationStep::Rejected(_) => panic!("refused"),
    }
}

#[test]
fn activation_may_be_asked_for_again() {
    let mut ledger = PaymentLedger::new();
    ledger.create_payment_for(request(10, "USDC", "Ghosties"), "alice".to_string(), 0);
    settle(&mut ledger, "payment_1", "sig");
    let first = ledger.activate_membership("payment_1");
    let second = ledger.activate_membership("payment_1");
    assert!(matches!(first, ActivationStep::Call(_)));
    assert_eq!(first, second);
    assert_eq!(ledger.get_payment_status("payment_1"), Some(PaymentStatus::Completed));
}

#[test]
fn scenario_usdc_payment_settles_and_activates_spicy_chads() {
    let mut ledger = PaymentLedger::new();
    let caller = Principal::anonymous();
    let opened =
        ledger.create_payment(request(10_000_000, "USDC", "Spicy Chads tier"), &caller, 1_000);
    assert!(opened.success);
    let id = opened.payment_id.unwrap();
    assert_eq!(id, "payment_1");

    let settled = settle(&mut ledger, &id, "sig123");
    assert!(settled.success);
    assert_eq!(ledger.get_payment_status(&id), Some(PaymentStatus::Completed));
    assert_eq!(ledger.get_payment(&id).unwrap().transaction_hash, some("sig123"));

    let call = match ledger.activate_membership(&id) {
        ActivationStep::Call(call) => call,
        ActivationStep::Rejected(_) => panic!("refused"),
    };
    assert_eq!(call.canister, "laci2-ryaaa-aaaap-qp5oa-cai");
    assert_eq!(call.method, "complete_cross_chain_payment");
    assert_eq!(call.payment_id, "payment_1");
    assert_eq!(call.transaction_hash, some("sig123"));
    assert_eq!(call.user_principal, "2vxsx-fae");
    assert_eq!(call.membership_tier, "Spicy Chads");
    assert_eq!(call.amount, 10_000_000);
    assert_eq!(call.currency, "USDC");

    let done = conclude_activation(&call, Ok(()));
    assert!(done.success);
    assert_eq!(done.message, "Membership activated successfully");
    assert_eq!(done.payment_id, some("payment_1"));
    assert_eq!(done.transaction_hash, some("sig123"));
    assert_eq!(done.error, None);

    let failed = conclude_activation(&call, Err("membership service timed out".to_string()));
    assert!(!failed.success);
    assert_eq!(failed.message, "Failed to activate membership");
    assert_eq!(failed.payment_id, some("payment_1"));
    assert_eq!(failed.transaction_hash, some("sig123"));
    assert_eq!(failed.error, some("membership service timed out"));

    assert_eq!(ledger.get_payment_status(&id), Some(PaymentStatus::Completed));
}

#[test]
fn scenario_negative_amount_in_sol_is_invalid() {
    let mut ledger = PaymentLedger::new();
    let response =
        ledger.create_payment(request(-5_000_000, "SOL", "x"), &Principal::anonymous(), 0);
    assert!(!response.success);
    assert_eq!(response.error, some("Invalid amount"));
    assert_eq!(ledger.get_payment_stats().total_payments, 0);
    assert_eq!(ledger.get_payment("payment_1"), None);
}

#[test]
fn scenario_doge_is_unsupported() {
    let mut ledger = PaymentLedger::new();
    let response =
        ledger.create_payment(request(1_000_000, "DOGE", "x"), &Principal::anonymous(), 0);
    assert!(!response.success);
    assert_eq!(response.message, "Unsupported currency: DOGE");
    assert_eq!(response.error, some("Unsupported currency"));
    assert_eq!(ledger.get_payment_stats().total_payments, 0);
}

#[test]
fn stats_of_empty_ledger_are_zero() {
    let stats = PaymentLedger::new().get_payment_stats();
    assert_eq!(stats.total_payments, 0);
    assert_eq!(stats.completed_payments, 0);
    assert_eq!(stats.total_volume, 0);
    assert_eq!(stats.success_rate.numerator, 0);
    assert_eq!(stats.success_rate.denominator, 0);
}

#[test]
fn stats_count_every_record_whatever_its_status() {
    let mut ledger = PaymentLedger::new();
    ledger.create_payment_for(request(10, "USDC", "x"), "alice".to_string(), 0);
    ledger.create_payment_for(request(20, "SOL", "x"), "bob".to_string(), 0);
    ledger.create_payment_for(request(5, "RAY", "x"), "alice".to_string(), 0);
    settle(&mut ledger, "payment_2", "sig");
    ledger.cancel_payment("payment_3");
    let stats = ledger.get_payment_stats();
    assert_eq!(stats.total_payments, 3);
    assert_eq!(stats.completed_payments, 1);
    assert_eq!(stats.total_volume, 35);
    assert_eq!(stats.success_rate.numerator, 100);
    assert_eq!(stats.success_rate.denominator, 3);
    let rate = stats.success_rate.numerator as f64 / stats.success_rate.denominator as f64;
    assert!((rate - 100.0 * 1.0 / 3.0).abs() <= 1e-9);
    assert!((rate - 33.333333333333336).abs() <= 1e-9);
}

#[test]
fn success_rate_is_exact_for_every_count_of_completed() {
    let mut ledger = PaymentLedger::new();
    for n in 1..=7u64 {
        ledger.create_payment_for(request(1, "SOL", "x"), "alice".to_string(), 0);
        assert_eq!(ledger.get_payment_stats().success_rate.denominator, n);
    }
    for k in 0..=7u64 {
        if k > 0 {
            settle(&mut ledger, &format!("payment_{}", k), "sig");
        }
        let stats = ledger.get_payment_stats();
        assert_eq!(stats.total_payments, 7);
        assert_eq!(stats.completed_payments, k);
        assert_eq!(stats.success_rate.numerator, 100 * k as u128);
        assert_eq!(stats.success_rate.denominator, 7);
        let rate = stats.success_rate.numerator as f64 / stats.success_rate.denominator as f64;
        assert!((rate - 100.0 * k as f64 / 7.0).abs() <= 1e-9);
        assert!((0.0..=100.0).contains(&rate));
    }
}

#[test]
fn success_rate_is_a_hundred_when_all_are_completed() {
    let mut ledger = PaymentLedger::new();
    ledger.create_payment_for(request(i64::MAX, "USDC", "x"), "alice".to_string(), 0);
    ledger.create_payment_for(request(i64::MAX, "USDC", "x"), "alice".to_string(), 0);
    settle(&mut ledger, "payment_1", "a");
    settle(&mut ledger, "payment_2", "b");
    let stats = ledger.get_payment_stats();
    assert_eq!(stats.success_rate.numerator, 200);
    assert_eq!(stats.success_rate.denominator, 2);
    assert_eq!(stats.total_volume, 2 * (i64::MAX as u128));
}

#[test]
fn list_gives_the_callers_payments_in_order() {
    let mut ledger = PaymentLedger::new();
    ledger.create_payment_for(request(1, "USDC", "a"), "alice".to_string(), 0);
    ledger.create_payment_for(request(2, "USDC", "b"), "bob".to_string(), 0);
    ledger.create_payment_for(request(3, "USDC", "c"), "alice".to_string(), 0);
    let mine = ledger.list_user_payments("alice");
    assert_eq!(mine.len(), 2);
    assert_eq!(mine[0], ledger.get_payment("payment_1").unwrap());
    assert_eq!(mine[1], ledger.get_payment("payment_3").unwrap());
    assert_eq!(ledger.list_user_payments("bob").len(), 1);
    assert!(ledger.list_user_payments("Alice").is_empty());
    assert!(ledger.list_user_payments("").is_empty());
}

#[test]
fn status_of_unknown_payment_is_absent() {
    let ledger = PaymentLedger::new();
    assert_eq!(ledger.get_payment_status("payment_1"), None);
    assert_eq!(ledger.get_payment("payment_1"), None);
}

#[test]
fn seconds_are_whole_seconds_of_nanoseconds() {
    assert_eq!(timestamp_seconds(0), 0);
    assert_eq!(timestamp_seconds(999_999_999), 0);
    assert_eq!(timestamp_seconds(1_700_000_000_123_456_789), 1_700_000_000);
    assert_eq!(timestamp_seconds(u64::MAX), 18_446_744_073);
}

#[test]
fn solana_status_is_the_fixed_text() {
    assert_eq!(get_solana_status(), "Solana network is accessible through IC RPC canister");
}
