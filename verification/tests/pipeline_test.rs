use payment_router::audit::AuditSink;
use payment_router::enums::{
    AttemptStatus, Currency, IntentStatus, MerchantStorageScheme,
};
use payment_router::errors::ErrorKind;
use payment_router::guard::check_transition;
use payment_router::ids::{AttemptId, MerchantId, PaymentId, ProfileId};
use payment_router::lock::{LockAction, LockTable};
use payment_router::payments::PaymentsCancelRequest;
use payment_router::pipeline::run_payment_reject;
use payment_router::records::{
    BusinessProfile, FraudCheck, MerchantAccount, MerchantContext, PaymentAttempt, PaymentIntent,
};
use payment_router::store::Store;

fn seeded_store(payment_id: &str, merchant_id: &str, status: IntentStatus) -> Store {
    let mut store = Store::new();
    store
        .insert_business_profile(BusinessProfile {
            profile_id: ProfileId(String::from("prof_1")),
            merchant_id: MerchantId(String::from(merchant_id)),
            use_billing_as_payment_method_billing: Some(true),
        })
        .unwrap();
    store
        .insert_payment_intent(PaymentIntent {
            payment_id: PaymentId(String::from(payment_id)),
            merchant_id: MerchantId(String::from(merchant_id)),
            status,
            currency: Some(Currency::Usd),
            profile_id: Some(ProfileId(String::from("prof_1"))),
            active_attempt_id: AttemptId(String::from("att_1")),
            shipping_address_id: None,
            billing_address_id: None,
            merchant_decision: None,
            updated_by: String::from("postgres_only"),
        })
        .unwrap();
    store
        .insert_payment_attempt(PaymentAttempt {
            attempt_id: AttemptId(String::from("att_1")),
            payment_id: PaymentId(String::from(payment_id)),
            merchant_id: MerchantId(String::from(merchant_id)),
            status: AttemptStatus::Authorized,
            amount: 1000,
            surcharge_amount: None,
            tax_amount: None,
            currency: Some(Currency::Usd),
            error_code: None,
            error_message: None,
            payment_method_billing_address_id: None,
            updated_by: String::from("postgres_only"),
        })
        .unwrap();
    store
}

fn merchant_context(merchant_id: &str) -> MerchantContext {
    MerchantContext {
        merchant_account: MerchantAccount {
            merchant_id: MerchantId(String::from(merchant_id)),
            storage_scheme: MerchantStorageScheme::PostgresOnly,
        },
    }
}

#[test]
fn reject_requires_capture_transitions_to_failed() {
    let mut store = seeded_store("pay_1", "m_1", IntentStatus::RequiresCapture);
    let mut locks = LockTable::new();
    let mut audit = AuditSink::new();
    let ctx = merchant_context("m_1");
    let request = PaymentsCancelRequest {
        payment_id: PaymentId(String::from("pay_1")),
        cancellation_reason: None,
    };

    let response = run_payment_reject(
        &mut store,
        &mut locks,
        &mut audit,
        &ctx,
        &request,
        LockAction::HoldForDuration,
    )
    .unwrap();

    assert_eq!(response.payment_id.0, "pay_1");
    assert_eq!(response.status, IntentStatus::Failed);
    assert!(response.customer_id.is_none());

    let intent = store
        .find_payment_intent_by_payment_id_merchant_id(
            &PaymentId(String::from("pay_1")),
            &MerchantId(String::from("m_1")),
        )
        .unwrap();
    assert_eq!(intent.status, IntentStatus::Failed);
    assert_eq!(intent.merchant_decision, Some(String::from("rejected")));

    let attempt = store
        .find_payment_attempt_by_payment_id_merchant_id_attempt_id(
            &PaymentId(String::from("pay_1")),
            &MerchantId(String::from("m_1")),
            &AttemptId(String::from("att_1")),
        )
        .unwrap();
    assert_eq!(attempt.status, AttemptStatus::Failure);

    // exactly one audit event for the invocation
    assert_eq!(audit.events.len(), 1);
    assert_eq!(audit.events[0].intent_status, IntentStatus::Failed);
    assert_eq!(audit.events[0].attempt_status, AttemptStatus::Failure);
    assert_eq!(audit.events[0].payment_id.0, "pay_1");

    // the lock was released on the way out
    assert!(locks.held.is_empty());
}

#[test]
fn reject_succeeded_payment_fails_guard_without_writes() {
    let mut store = seeded_store("pay_2", "m_1", IntentStatus::Succeeded);
    let mut locks = LockTable::new();
    let mut audit = AuditSink::new();
    let ctx = merchant_context("m_1");
    let request = PaymentsCancelRequest {
        payment_id: PaymentId(String::from("pay_2")),
        cancellation_reason: None,
    };

    let err = run_payment_reject(
        &mut store,
        &mut locks,
        &mut audit,
        &ctx,
        &request,
        LockAction::HoldForDuration,
    )
    .unwrap_err();

    assert_eq!(err.kind(), ErrorKind::InvalidStatusTransition);

    // no storage writes, no audit event
    let intent = store
        .find_payment_intent_by_payment_id_merchant_id(
            &PaymentId(String::from("pay_2")),
            &MerchantId(String::from("m_1")),
        )
        .unwrap();
    assert_eq!(intent.status, IntentStatus::Succeeded);
    assert!(intent.merchant_decision.is_none());
    assert!(audit.events.is_empty());
}

#[test]
fn reject_guard_refuses_each_forbidden_status() {
    for status in [
        IntentStatus::Cancelled,
        IntentStatus::Failed,
        IntentStatus::Succeeded,
        IntentStatus::Processing,
    ] {
        let mut store = seeded_store("pay_3", "m_1", status);
        let mut locks = LockTable::new();
        let mut audit = AuditSink::new();
        let ctx = merchant_context("m_1");
        let request = PaymentsCancelRequest {
            payment_id: PaymentId(String::from("pay_3")),
            cancellation_reason: None,
        };
        let err = run_payment_reject(
            &mut store,
            &mut locks,
            &mut audit,
            &ctx,
            &request,
            LockAction::HoldForDuration,
        )
        .unwrap_err();
        assert_eq!(err.kind(), ErrorKind::InvalidStatusTransition);
    }
}

#[test]
fn reject_missing_payment_reports_not_found() {
    let mut store = Store::new();
    let mut locks = LockTable::new();
    let mut audit = AuditSink::new();
    let ctx = merchant_context("m_1");
    let request = PaymentsCancelRequest {
        payment_id: PaymentId(String::from("pay_none")),
        cancellation_reason: None,
    };
    let err = run_payment_reject(
        &mut store,
        &mut locks,
        &mut audit,
        &ctx,
        &request,
        LockAction::HoldForDuration,
    )
    .unwrap_err();
    assert_eq!(err.kind(), ErrorKind::NotFound);
}

#[test]
fn concurrent_reject_conflicts_while_lock_is_held() {
    let mut store = seeded_store("pay_4", "m_1", IntentStatus::RequiresCapture);
    let mut locks = LockTable::new();
    let mut audit = AuditSink::new();
    let ctx = merchant_context("m_1");
    let request = PaymentsCancelRequest {
        payment_id: PaymentId(String::from("pay_4")),
        cancellation_reason: None,
    };

    // another in-flight invocation holds the lock for this payment
    locks.acquire(&String::from("pay_4")).unwrap();

    let err = run_payment_reject(
        &mut store,
        &mut locks,
        &mut audit,
        &ctx,
        &request,
        LockAction::HoldForDuration,
    )
    .unwrap_err();
    assert_eq!(err.kind(), ErrorKind::Conflict);

    // nothing ran: no writes, no audit event
    let intent = store
        .find_payment_intent_by_payment_id_merchant_id(
            &PaymentId(String::from("pay_4")),
            &MerchantId(String::from("m_1")),
        )
        .unwrap();
    assert_eq!(intent.status, IntentStatus::RequiresCapture);
    assert!(audit.events.is_empty());
}

#[test]
fn second_reject_after_first_completes_fails_guard() {
    let mut store = seeded_store("pay_5", "m_1", IntentStatus::RequiresCapture);
    let mut locks = LockTable::new();
    let mut audit = AuditSink::new();
    let ctx = merchant_context("m_1");
    let request = PaymentsCancelRequest {
        payment_id: PaymentId(String::from("pay_5")),
        cancellation_reason: None,
    };

    let first = run_payment_reject(
        &mut store,
        &mut locks,
        &mut audit,
        &ctx,
        &request,
        LockAction::HoldForDuration,
    );
    assert!(first.is_ok());

    let request_again = PaymentsCancelRequest {
        payment_id: PaymentId(String::from("pay_5")),
        cancellation_reason: None,
    };
    let second = run_payment_reject(
        &mut store,
        &mut locks,
        &mut audit,
        &ctx,
        &request_again,
        LockAction::HoldForDuration,
    )
    .unwrap_err();
    assert_eq!(second.kind(), ErrorKind::InvalidStatusTransition);

    // the stored outcome is the first invocation's, and only one event
    // was emitted
    let intent = store
        .find_payment_intent_by_payment_id_merchant_id(
            &PaymentId(String::from("pay_5")),
            &MerchantId(String::from("m_1")),
        )
        .unwrap();
    assert_eq!(intent.status, IntentStatus::Failed);
    assert_eq!(audit.events.len(), 1);
}

#[test]
fn reject_copies_error_fields_from_fraud_check() {
    let mut store = seeded_store("pay_6", "m_1", IntentStatus::RequiresCapture);
    store
        .insert_fraud_check(FraudCheck {
            payment_id: PaymentId(String::from("pay_6")),
            merchant_id: MerchantId(String::from("m_1")),
            frm_status: String::from("fraud"),
            frm_reason: Some(String::from("velocity limit hit")),
        })
        .unwrap();
    let mut locks = LockTable::new();
    let mut audit = AuditSink::new();
    let ctx = merchant_context("m_1");
    let request = PaymentsCancelRequest {
        payment_id: PaymentId(String::from("pay_6")),
        cancellation_reason: None,
    };

    let response = run_payment_reject(
        &mut store,
        &mut locks,
        &mut audit,
        &ctx,
        &request,
        LockAction::HoldForDuration,
    )
    .unwrap();
    assert_eq!(response.error_code, Some(String::from("fraud")));
    assert_eq!(response.error_message, Some(String::from("velocity limit hit")));

    let attempt = store
        .find_payment_attempt_by_payment_id_merchant_id_attempt_id(
            &PaymentId(String::from("pay_6")),
            &MerchantId(String::from("m_1")),
            &AttemptId(String::from("att_1")),
        )
        .unwrap();
    assert_eq!(attempt.error_code, Some(String::from("fraud")));
    assert_eq!(attempt.error_message, Some(String::from("velocity limit hit")));
}

#[test]
fn reloaded_records_match_what_update_tracker_persisted() {
    let mut store = seeded_store("pay_7", "m_1", IntentStatus::RequiresConfirmation);
    let mut locks = LockTable::new();
    let mut audit = AuditSink::new();
    let ctx = merchant_context("m_1");
    let request = PaymentsCancelRequest {
        payment_id: PaymentId(String::from("pay_7")),
        cancellation_reason: None,
    };

    let response = run_payment_reject(
        &mut store,
        &mut locks,
        &mut audit,
        &ctx,
        &request,
        LockAction::NotApplicable,
    )
    .unwrap();

    // re-loading through the storage interface yields exactly the persisted
    // transition
    let intent = store
        .find_payment_intent_by_payment_id_merchant_id(
            &PaymentId(String::from("pay_7")),
            &MerchantId(String::from("m_1")),
        )
        .unwrap();
    let attempt = store
        .find_payment_attempt_by_payment_id_merchant_id_attempt_id(
            &PaymentId(String::from("pay_7")),
            &MerchantId(String::from("m_1")),
            &AttemptId(String::from("att_1")),
        )
        .unwrap();
    assert_eq!(intent.status, response.status);
    assert_eq!(attempt.error_code, response.error_code);
    assert_eq!(attempt.error_message, response.error_message);
    assert_eq!(intent.updated_by, "postgres_only");
    assert_eq!(attempt.updated_by, "postgres_only");
}

#[test]
fn guard_accepts_status_outside_forbidden_set() {
    let disallowed = vec![
        IntentStatus::Cancelled,
        IntentStatus::Failed,
        IntentStatus::Succeeded,
        IntentStatus::Processing,
    ];
    assert!(check_transition(IntentStatus::RequiresCapture, &disallowed, "reject").is_ok());
    assert!(check_transition(IntentStatus::RequiresConfirmation, &disallowed, "reject").is_ok());
}

#[test]
fn guard_reports_operation_and_status() {
    let disallowed = vec![IntentStatus::Succeeded];
    let err = check_transition(IntentStatus::Succeeded, &disallowed, "reject").unwrap_err();
    match err {
        payment_router::errors::ApiErrorResponse::InvalidStatusTransition { operation, status } => {
            assert_eq!(operation, "reject");
            assert_eq!(status, IntentStatus::Succeeded);
        }
        other => panic!("unexpected error {:?}", other),
    }
}

#[test]
fn reject_with_missing_profile_reports_profile_not_found() {
    let mut store = Store::new();
    store
        .insert_payment_intent(PaymentIntent {
            payment_id: PaymentId(String::from("pay_8")),
            merchant_id: MerchantId(String::from("m_1")),
            status: IntentStatus::RequiresCapture,
            currency: Some(Currency::Usd),
            profile_id: Some(ProfileId(String::from("prof_missing"))),
            active_attempt_id: AttemptId(String::from("att_1")),
            shipping_address_id: None,
            billing_address_id: None,
            merchant_decision: None,
            updated_by: String::from("postgres_only"),
        })
        .unwrap();
    store
        .insert_payment_attempt(PaymentAttempt {
            attempt_id: AttemptId(String::from("att_1")),
            payment_id: PaymentId(String::from("pay_8")),
            merchant_id: MerchantId(String::from("m_1")),
            status: AttemptStatus::Authorized,
            amount: 1000,
            surcharge_amount: None,
            tax_amount: None,
            currency: Some(Currency::Usd),
            error_code: None,
            error_message: None,
            payment_method_billing_address_id: None,
            updated_by: String::from("postgres_only"),
        })
        .unwrap();
    let mut locks = LockTable::new();
    let mut audit = AuditSink::new();
    let ctx = merchant_context("m_1");
    let request = PaymentsCancelRequest {
        payment_id: PaymentId(String::from("pay_8")),
        cancellation_reason: None,
    };
    let err = run_payment_reject(
        &mut store,
        &mut locks,
        &mut audit,
        &ctx,
        &request,
        LockAction::HoldForDuration,
    )
    .unwrap_err();
    match err {
        payment_router::errors::ApiErrorResponse::ProfileNotFound { id } => {
            assert_eq!(id, "prof_missing");
        }
        other => panic!("unexpected error {:?}", other),
    }
}

#[test]
fn reject_without_attempt_currency_reports_missing_field() {
    let mut store = seeded_store("pay_9", "m_1", IntentStatus::RequiresCapture);
    // strip the currency off the attempt
    store.attempts[0].currency = None;
    let mut locks = LockTable::new();
    let mut audit = AuditSink::new();
    let ctx = merchant_context("m_1");
    let request = PaymentsCancelRequest {
        payment_id: PaymentId(String::from("pay_9")),
        cancellation_reason: None,
    };
    let err = run_payment_reject(
        &mut store,
        &mut locks,
        &mut audit,
        &ctx,
        &request,
        LockAction::HoldForDuration,
    )
    .unwrap_err();
    match err {
        payment_router::errors::ApiErrorResponse::MissingRequiredField { field } => {
            assert_eq!(field, "currency");
        }
        other => panic!("unexpected error {:?}", other),
    }
    assert!(audit.events.is_empty());
}

#[test]
fn reject_for_another_merchant_reports_not_found() {
    let mut store = seeded_store("pay_10", "m_1", IntentStatus::RequiresCapture);
    let mut locks = LockTable::new();
    let mut audit = AuditSink::new();
    let ctx = merchant_context("m_2");
    let request = PaymentsCancelRequest {
        payment_id: PaymentId(String::from("pay_10")),
        cancellation_reason: None,
    };
    let err = run_payment_reject(
        &mut store,
        &mut locks,
        &mut audit,
        &ctx,
        &request,
        LockAction::HoldForDuration,
    )
    .unwrap_err();
    assert_eq!(err.kind(), ErrorKind::NotFound);
}

#[test]
fn reject_with_absent_profile_reference_reports_profile_not_found() {
    let mut store = seeded_store("pay_11", "m_1", IntentStatus::RequiresCapture);
    // drop the intent's profile reference
    store.intents[0].profile_id = None;
    let mut locks = LockTable::new();
    let mut audit = AuditSink::new();
    let ctx = merchant_context("m_1");
    let request = PaymentsCancelRequest {
        payment_id: PaymentId(String::from("pay_11")),
        cancellation_reason: None,
    };
    let err = run_payment_reject(
        &mut store,
        &mut locks,
        &mut audit,
        &ctx,
        &request,
        LockAction::HoldForDuration,
    )
    .unwrap_err();
    match err {
        payment_router::errors::ApiErrorResponse::ProfileNotFound { id } => {
            assert_eq!(id, "");
        }
        other => panic!("unexpected error {:?}", other),
    }
    assert!(audit.events.is_empty());
}
