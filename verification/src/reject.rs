//! The Cancel/Reject operation: its four phases and their exact semantics.
//!
//! The operation's behaviour is defined once, by spec functions over the
//! store's view, and each executable phase is proved to follow it. The
//! pipeline runner in [`crate::pipeline`] sequences the phases under the
//! locking coordinator.

use vstd::prelude::*;

use crate::audit::{AuditEvent, AuditEventType, AuditSink, SpecAuditEvent, SpecAuditEventType};
use crate::enums::{AttemptStatus, IntentStatus, MerchantDecision, MerchantStorageScheme};
use crate::errors::{ApiErrorResponse, SpecApiError};
use crate::guard::check_transition;
use crate::payments::{
    FlowKind, GetTrackerResponse, PaymentAddress, PaymentData, PaymentIdType,
    PaymentsCancelRequest, SpecGetTrackerResponse, SpecPaymentAddress, SpecPaymentData,
    SpecPaymentIdType, SpecValidateResult, ValidateResult, spec_payment_address_new,
};
use crate::records::{MerchantContext, SpecAddress, SpecMerchantAccount};
use crate::store::{SpecStore, Store};
use crate::updates::{
    PaymentAttemptUpdate, PaymentIntentUpdate, SpecPaymentAttemptUpdate, SpecPaymentIntentUpdate,
    spec_apply_attempt_update, spec_apply_intent_update,
};

verus! {

/// The Cancel/Reject operation variant: a local reject with no connector
/// call in its Domain phase.
#[derive(Clone, Copy, Debug)]
pub struct PaymentReject;

/// The statuses in which the Reject operation is forbidden.
pub open spec fn spec_reject_forbidden(status: IntentStatus) -> bool {
    ||| status == IntentStatus::Cancelled
    ||| status == IntentStatus::Failed
    ||| status == IntentStatus::Succeeded
    ||| status == IntentStatus::Processing
}

/// What ValidateRequest resolves for the Reject operation.
pub open spec fn spec_validate_reject(
    request: crate::payments::SpecPaymentsCancelRequest,
    merchant: SpecMerchantAccount,
) -> SpecValidateResult {
    SpecValidateResult {
        merchant_id: merchant.merchant_id,
        payment_id: SpecPaymentIdType::PaymentIntentId(request.payment_id),
        storage_scheme: merchant.storage_scheme,
        requeue: false,
    }
}

/// An address reference resolved against the store: an absent reference, or
/// one pointing at no row, resolves to no address.
pub open spec fn spec_resolve_address(store: SpecStore, aid: Option<Seq<char>>) -> Option<
    SpecAddress,
> {
    match aid {
        Some(a) => if store.has_address(a) {
            Some(store.address_at(a))
        } else {
            None
        },
        None => None,
    }
}

/// What GetTracker yields for the Reject operation: the assembled working
/// set, or the first error of the loading sequence.
pub open spec fn spec_get_trackers_reject(
    store: SpecStore,
    payment_id: SpecPaymentIdType,
    merchant: SpecMerchantAccount,
) -> Result<SpecGetTrackerResponse, SpecApiError> {
    let mid = merchant.merchant_id;
    if !(payment_id is PaymentIntentId) {
        Err(SpecApiError::PaymentNotFound)
    } else {
        let pid = payment_id->PaymentIntentId_0;
        if !store.has_intent(pid, mid) {
            Err(SpecApiError::PaymentNotFound)
        } else {
            let intent = store.intent_at(pid, mid);
            if spec_reject_forbidden(intent.status) {
                Err(
                    SpecApiError::InvalidStatusTransition {
                        operation: "reject"@,
                        status: intent.status,
                    },
                )
            } else {
                let aid = intent.active_attempt_id;
                if !store.has_attempt(pid, mid, aid) {
                    Err(SpecApiError::PaymentNotFound)
                } else {
                    let attempt = store.attempt_at(pid, mid, aid);
                    if attempt.currency is None {
                        Err(SpecApiError::MissingRequiredField { field: "currency"@ })
                    } else if intent.profile_id is None {
                        // an absent reference is a profile that cannot be
                        // found; there is no identifier to name
                        Err(SpecApiError::ProfileNotFound { id: Seq::empty() })
                    } else if !store.has_profile(intent.profile_id->0) {
                        Err(SpecApiError::ProfileNotFound { id: intent.profile_id->0 })
                    } else {
                        let profile = store.profile_at(intent.profile_id->0);
                        Ok(
                            SpecGetTrackerResponse {
                                payment_data: SpecPaymentData {
                                    flow: FlowKind::Cancel,
                                    payment_intent: intent,
                                    payment_attempt: attempt,
                                    currency: attempt.currency->0,
                                    amount: attempt.spec_total_amount() as u64,
                                    email: None,
                                    mandate_id: None,
                                    token: None,
                                    confirm: None,
                                    card_cvc: None,
                                    address: spec_payment_address_new(
                                        spec_resolve_address(store, intent.shipping_address_id),
                                        spec_resolve_address(store, intent.billing_address_id),
                                        spec_resolve_address(
                                            store,
                                            attempt.payment_method_billing_address_id,
                                        ),
                                        profile.use_billing_as_payment_method_billing,
                                    ),
                                    frm_message: if store.has_fraud_check(pid, mid) {
                                        Some(store.fraud_check_at(pid, mid))
                                    } else {
                                        None
                                    },
                                },
                                business_profile: profile,
                                customer_details: None,
                            },
                        )
                    }
                }
            }
        }
    }
}

/// The intent update statement the Reject operation builds.
pub open spec fn spec_reject_intent_update(scheme: MerchantStorageScheme) -> SpecPaymentIntentUpdate {
    SpecPaymentIntentUpdate::RejectUpdate {
        status: IntentStatus::Failed,
        merchant_decision: Some("rejected"@),
        updated_by: scheme.spec_text(),
    }
}

/// The attempt update statement the Reject operation builds: the error
/// fields are taken from the fraud-check result when one was loaded, and
/// left untouched otherwise.
pub open spec fn spec_reject_attempt_update(
    frm: Option<crate::records::SpecFraudCheck>,
    scheme: MerchantStorageScheme,
) -> SpecPaymentAttemptUpdate {
    SpecPaymentAttemptUpdate::RejectUpdate {
        status: AttemptStatus::Failure,
        error_code: match frm {
            Some(f) => Some(Some(f.frm_status)),
            None => None,
        },
        error_message: match frm {
            Some(f) => Some(f.frm_reason),
            None => None,
        },
        updated_by: scheme.spec_text(),
    }
}

/// Outcome of the UpdateTracker phase: the store as it is left, the audit
/// event emitted (if the phase got that far), and the result.
pub struct SpecRejectUpdateOutcome {
    pub store: SpecStore,
    pub emitted: Option<SpecAuditEvent>,
    pub result: Result<SpecPaymentData, SpecApiError>,
}

/// What UpdateTracker does for the Reject operation.
///
/// The intent row is updated before the attempt row; when the attempt row
/// has vanished in between, the intent update stays persisted and the phase
/// reports the failure — the known, documented gap of the two-statement
/// ordering.
pub open spec fn spec_update_trackers_reject(
    store: SpecStore,
    pd: SpecPaymentData,
    scheme: MerchantStorageScheme,
) -> SpecRejectUpdateOutcome {
    let pid = pd.payment_intent.payment_id;
    let mid = pd.payment_intent.merchant_id;
    if !store.has_intent(pid, mid) {
        SpecRejectUpdateOutcome { store, emitted: None, result: Err(SpecApiError::PaymentNotFound) }
    } else {
        let new_intent = spec_apply_intent_update(
            store.intent_at(pid, mid),
            spec_reject_intent_update(scheme),
        );
        let store1 = SpecStore {
            intents: store.intents.update(store.intent_index(pid, mid), new_intent),
            ..store
        };
        let apid = pd.payment_attempt.payment_id;
        let amid = pd.payment_attempt.merchant_id;
        let aaid = pd.payment_attempt.attempt_id;
        if !store1.has_attempt(apid, amid, aaid) {
            SpecRejectUpdateOutcome {
                store: store1,
                emitted: None,
                result: Err(SpecApiError::PaymentNotFound),
            }
        } else {
            let new_attempt = spec_apply_attempt_update(
                store1.attempt_at(apid, amid, aaid),
                spec_reject_attempt_update(pd.frm_message, scheme),
            );
            let store2 = SpecStore {
                attempts: store1.attempts.update(store1.attempt_index(apid, amid, aaid), new_attempt),
                ..store1
            };
            let event = SpecAuditEvent {
                event_type: SpecAuditEventType::PaymentReject {
                    error_code: new_attempt.error_code,
                    error_message: new_attempt.error_message,
                },
                payment_id: pid,
                merchant_id: mid,
                intent_status: new_intent.status,
                attempt_status: new_attempt.status,
            };
            SpecRejectUpdateOutcome {
                store: store2,
                emitted: Some(event),
                result: Ok(
                    SpecPaymentData {
                        payment_intent: new_intent,
                        payment_attempt: new_attempt,
                        ..pd
                    },
                ),
            }
        }
    }
}

impl PaymentReject {
    /// ValidateRequest: resolve the merchant, the payment identifier and the
    /// storage scheme from the request and the merchant context. Pure; never
    /// touches storage, and always permits the request.
    pub fn validate_request(
        &self,
        request: &PaymentsCancelRequest,
        merchant_context: &MerchantContext,
    ) -> (r: Result<ValidateResult, ApiErrorResponse>)
        ensures
            r is Ok,
            r->Ok_0@ == spec_validate_reject(request@, merchant_context@),
    {
        Ok(
            ValidateResult {
                merchant_id: merchant_context.get_merchant_account().get_id().clone(),
                payment_id: PaymentIdType::PaymentIntentId(request.payment_id.clone()),
                storage_scheme: merchant_context.get_merchant_account().storage_scheme,
                requeue: false,
            },
        )
    }

    /// GetTracker: load the intent, run the state guard, load the active
    /// attempt, resolve the addresses, the fraud-check result and the
    /// business profile, and assemble the working set. Read-only.
    pub fn get_trackers(
        &self,
        store: &Store,
        payment_id: &PaymentIdType,
        _request: &PaymentsCancelRequest,
        merchant_context: &MerchantContext,
    ) -> (r: Result<GetTrackerResponse, ApiErrorResponse>)
        requires
            store@.wf(),
        ensures
            ({
                let s = spec_get_trackers_reject(store@, payment_id@, merchant_context@);
                &&& r is Ok <==> s is Ok
                &&& r is Ok ==> r->Ok_0@ == s->Ok_0
                &&& r is Err ==> r->Err_0@ == s->Err_0
            }),
    {
        let merchant_id = merchant_context.get_merchant_account().get_id();

        let payment_id = match payment_id.get_payment_intent_id() {
            Ok(p) => p,
            Err(e) => { return Err(e); },
        };

        let payment_intent = match store.find_payment_intent_by_payment_id_merchant_id(
            &payment_id,
            merchant_id,
        ) {
            Some(pi) => pi,
            None => { return Err(ApiErrorResponse::PaymentNotFound); },
        };

        let mut disallowed: Vec<IntentStatus> = Vec::new();
        disallowed.push(IntentStatus::Cancelled);
        disallowed.push(IntentStatus::Failed);
        disallowed.push(IntentStatus::Succeeded);
        disallowed.push(IntentStatus::Processing);
        assert(forall|s: IntentStatus| disallowed@.contains(s) ==> spec_reject_forbidden(s));
        assert(spec_reject_forbidden(payment_intent@.status) ==> disallowed@.contains(
            payment_intent@.status,
        )) by {
            if payment_intent@.status == IntentStatus::Cancelled {
                assert(disallowed@[0] == IntentStatus::Cancelled);
            } else if payment_intent@.status == IntentStatus::Failed {
                assert(disallowed@[1] == IntentStatus::Failed);
            } else if payment_intent@.status == IntentStatus::Succeeded {
                assert(disallowed@[2] == IntentStatus::Succeeded);
            } else if payment_intent@.status == IntentStatus::Processing {
                assert(disallowed@[3] == IntentStatus::Processing);
            }
        }
        match check_transition(payment_intent.status, disallowed.as_slice(), "reject") {
            Ok(()) => {},
            Err(e) => { return Err(e); },
        }

        let attempt_id = payment_intent.active_attempt_id.clone();
        let payment_attempt = match store.find_payment_attempt_by_payment_id_merchant_id_attempt_id(
            &payment_intent.payment_id,
            merchant_id,
            &attempt_id,
        ) {
            Some(pa) => pa,
            None => { return Err(ApiErrorResponse::PaymentNotFound); },
        };

        let shipping_address = store.find_address_by_id(payment_intent.shipping_address_id.clone());
        let billing_address = store.find_address_by_id(payment_intent.billing_address_id.clone());
        let payment_method_billing = store.find_address_by_id(
            payment_attempt.payment_method_billing_address_id.clone(),
        );

        let currency = match payment_attempt.currency {
            Some(c) => c,
            None => {
                return Err(ApiErrorResponse::MissingRequiredField { field: "currency".to_owned() });
            },
        };
        let amount = payment_attempt.get_total_amount();

        let frm_response = store.find_fraud_check_by_payment_id(
            &payment_intent.payment_id,
            merchant_id,
        );

        let profile_id = match &payment_intent.profile_id {
            Some(p) => p.clone(),
            None => {
                // an absent reference is a profile that cannot be found;
                // there is no identifier to name
                return Err(ApiErrorResponse::ProfileNotFound { id: String::new() });
            },
        };
        let business_profile = match store.find_business_profile_by_profile_id(&profile_id) {
            Some(bp) => bp,
            None => {
                return Err(
                    ApiErrorResponse::ProfileNotFound {
                        id: profile_id.get_string_repr().to_owned(),
                    },
                );
            },
        };

        let payment_data = PaymentData {
            flow: FlowKind::Cancel,
            payment_intent,
            payment_attempt,
            currency,
            amount,
            email: None,
            mandate_id: None,
            token: None,
            confirm: None,
            card_cvc: None,
            address: PaymentAddress::new(
                shipping_address,
                billing_address,
                payment_method_billing,
                business_profile.use_billing_as_payment_method_billing,
            ),
            frm_message: frm_response,
        };

        Ok(
            GetTrackerResponse {
                payment_data,
                business_profile,
                customer_details: None,
            },
        )
    }

    /// UpdateTracker: build the typed update statements for the intent and
    /// the attempt, persist them in that order, and emit exactly one audit
    /// event carrying the resulting error fields.
    pub fn update_trackers(
        &self,
        store: &mut Store,
        audit: &mut AuditSink,
        payment_data: PaymentData,
        storage_scheme: MerchantStorageScheme,
    ) -> (r: Result<PaymentData, ApiErrorResponse>)
        requires
            old(store)@.wf(),
        ensures
            final(store)@.wf(),
            ({
                let o = spec_update_trackers_reject(old(store)@, payment_data@, storage_scheme);
                &&& final(store)@ == o.store
                &&& final(audit)@ == (match o.emitted {
                    Some(e) => old(audit)@.push(e),
                    None => old(audit)@,
                })
                &&& r is Ok <==> o.result is Ok
                &&& r is Ok ==> r->Ok_0@ == o.result->Ok_0
                &&& r is Err ==> r->Err_0@ == o.result->Err_0
            }),
    {
        let mut payment_data = payment_data;
        let intent_status_update = PaymentIntentUpdate::RejectUpdate {
            status: IntentStatus::Failed,
            merchant_decision: Some(MerchantDecision::Rejected.to_text()),
            updated_by: storage_scheme.to_text(),
        };
        let (error_code, error_message): (Option<Option<String>>, Option<Option<String>>) =
            match &payment_data.frm_message {
            Some(fraud_check) => (
                Some(Some(fraud_check.frm_status.clone())),
                Some(fraud_check.frm_reason.clone()),
            ),
            None => (None, None),
        };
        let attempt_status_update = PaymentAttemptUpdate::RejectUpdate {
            status: AttemptStatus::Failure,
            error_code,
            error_message,
            updated_by: storage_scheme.to_text(),
        };

        let intent_for_update = payment_data.payment_intent.clone();
        payment_data.payment_intent = match store.update_payment_intent(
            intent_for_update,
            intent_status_update,
        ) {
            Ok(pi) => pi,
            Err(_) => { return Err(ApiErrorResponse::PaymentNotFound); },
        };

        let attempt_for_update = payment_data.payment_attempt.clone();
        payment_data.payment_attempt = match store.update_payment_attempt_with_attempt_id(
            attempt_for_update,
            attempt_status_update,
        ) {
            Ok(pa) => pa,
            Err(_) => { return Err(ApiErrorResponse::PaymentNotFound); },
        };

        let error_code = payment_data.payment_attempt.error_code.clone();
        let error_message = payment_data.payment_attempt.error_message.clone();
        audit.emit(
            AuditEvent {
                event_type: AuditEventType::PaymentReject { error_code, error_message },
                payment_id: payment_data.payment_intent.payment_id.clone(),
                merchant_id: payment_data.payment_intent.merchant_id.clone(),
                intent_status: payment_data.payment_intent.status,
                attempt_status: payment_data.payment_attempt.status,
            },
        );

        Ok(payment_data)
    }
}

} // verus!
