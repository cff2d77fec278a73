//! The operation pipeline: sequences ValidateRequest, GetTracker, Domain
//! and UpdateTracker for the Reject operation under the locking coordinator,
//! and states the guarantees of a whole invocation.
//!
//! The Domain phase of a local reject makes no connector call, so it does
//! not appear as a separate step here: its contribution is the error fields
//! UpdateTracker derives from the fraud-check result.

use vstd::prelude::*;

use crate::audit::{AuditSink, SpecAuditEvent};
use crate::enums::IntentStatus;
use crate::errors::{ApiErrorResponse, SpecApiError};
use crate::lock::{LockAction, LockTable};
use crate::payments::{
    PaymentsCancelRequest, PaymentsCancelResponse, SpecPaymentIdType, SpecPaymentsCancelRequest,
    SpecPaymentsCancelResponse,
};
use crate::records::{MerchantContext, SpecMerchantAccount};
use crate::reject::{
    PaymentReject, spec_get_trackers_reject, spec_update_trackers_reject, spec_validate_reject,
};
use crate::store::{SpecStore, Store};

verus! {

/// Outcome of one whole pipeline invocation: the store as it is left, the
/// audit event emitted (if any), and the result handed to the transport.
pub struct SpecRejectRunOutcome {
    pub store: SpecStore,
    pub emitted: Option<SpecAuditEvent>,
    pub result: Result<SpecPaymentsCancelResponse, SpecApiError>,
}

/// What a whole Reject invocation does.
///
/// When locking is asked for and the key is already held by a concurrent
/// invocation, the run fails fast with a conflict and touches nothing.
/// Otherwise the phases run in order, and the store is left as UpdateTracker
/// leaves it.
pub open spec fn spec_run_reject(
    store: SpecStore,
    locks: Seq<Seq<char>>,
    merchant: SpecMerchantAccount,
    request: SpecPaymentsCancelRequest,
    lock_action: LockAction,
) -> SpecRejectRunOutcome {
    if lock_action == LockAction::HoldForDuration && locks.contains(request.payment_id) {
        SpecRejectRunOutcome {
            store,
            emitted: None,
            result: Err(SpecApiError::LockAcquisitionFailed),
        }
    } else {
        let vr = spec_validate_reject(request, merchant);
        match spec_get_trackers_reject(store, vr.payment_id, merchant) {
            Err(e) => SpecRejectRunOutcome { store, emitted: None, result: Err(e) },
            Ok(gtr) => {
                let o = spec_update_trackers_reject(store, gtr.payment_data, vr.storage_scheme);
                SpecRejectRunOutcome {
                    store: o.store,
                    emitted: o.emitted,
                    result: match o.result {
                        Err(e) => Err(e),
                        Ok(pd) => Ok(
                            SpecPaymentsCancelResponse {
                                payment_id: pd.payment_intent.payment_id,
                                status: pd.payment_intent.status,
                                customer_id: None,
                                error_code: pd.payment_attempt.error_code,
                                error_message: pd.payment_attempt.error_message,
                            },
                        ),
                    },
                }
            },
        }
    }
}

/// Run the phases of the Reject operation, without locking.
fn reject_phases(
    store: &mut Store,
    audit: &mut AuditSink,
    merchant_context: &MerchantContext,
    request: &PaymentsCancelRequest,
) -> (r: Result<PaymentsCancelResponse, ApiErrorResponse>)
    requires
        old(store)@.wf(),
    ensures
        final(store)@.wf(),
        ({
            let o = spec_run_reject(
                old(store)@,
                Seq::empty(),
                merchant_context@,
                request@,
                LockAction::NotApplicable,
            );
            &&& final(store)@ == o.store
            &&& final(audit)@ == (match o.emitted {
                Some(e) => old(audit)@.push(e),
                None => old(audit)@,
            })
            &&& r is Ok <==> o.result is Ok
            &&& r is Ok ==> r->Ok_0@ == o.result->Ok_0
            &&& r is Err ==> r->Err_0@ == o.result->Err_0
        }),
{
    let operation = PaymentReject;

    let validate_result = match operation.validate_request(request, merchant_context) {
        Ok(vr) => vr,
        Err(e) => { return Err(e); },
    };

    let tracker_response = match operation.get_trackers(
        store,
        &validate_result.payment_id,
        request,
        merchant_context,
    ) {
        Ok(t) => t,
        Err(e) => { return Err(e); },
    };

    // Domain phase: a local reject computes its outcome from the loaded
    // fraud-check result; there is no external call to make.

    let payment_data = match operation.update_trackers(
        store,
        audit,
        tracker_response.payment_data,
        validate_result.storage_scheme,
    ) {
        Ok(pd) => pd,
        Err(e) => { return Err(e); },
    };

    Ok(
        PaymentsCancelResponse {
            payment_id: payment_data.payment_intent.payment_id.clone(),
            status: payment_data.payment_intent.status,
            customer_id: None,
            error_code: payment_data.payment_attempt.error_code.clone(),
            error_message: payment_data.payment_attempt.error_message.clone(),
        },
    )
}

/// One whole Reject invocation: acquire the per-payment lock when asked to,
/// run the four phases, and release the lock on every exit path. The lock
/// table is left exactly as it was found.
pub fn run_payment_reject(
    store: &mut Store,
    locks: &mut LockTable,
    audit: &mut AuditSink,
    merchant_context: &MerchantContext,
    request: &PaymentsCancelRequest,
    lock_action: LockAction,
) -> (r: Result<PaymentsCancelResponse, ApiErrorResponse>)
    requires
        old(store)@.wf(),
        old(locks).wf(),
    ensures
        final(store)@.wf(),
        final(locks).wf(),
        final(locks)@ == old(locks)@,
        ({
            let o = spec_run_reject(
                old(store)@,
                old(locks)@,
                merchant_context@,
                request@,
                lock_action,
            );
            &&& final(store)@ == o.store
            &&& final(audit)@ == (match o.emitted {
                Some(e) => old(audit)@.push(e),
                None => old(audit)@,
            })
            &&& r is Ok <==> o.result is Ok
            &&& r is Ok ==> r->Ok_0@ == o.result->Ok_0
            &&& r is Err ==> r->Err_0@ == o.result->Err_0
        }),
{
    let hold = match lock_action {
        LockAction::HoldForDuration => true,
        LockAction::NotApplicable => false,
    };

    let key = request.payment_id.get_string_repr().to_owned();
    if hold {
        match locks.acquire(&key) {
            Ok(()) => {},
            Err(e) => { return Err(e); },
        }
    }
    let ghost held_locks = locks@;

    let result = reject_phases(store, audit, merchant_context, request);

    if hold {
        proof {
            // the key was free before the acquire put it at the end, so the
            // release takes off exactly that copy
            assert(held_locks == old(locks)@.push(key@));
            assert(held_locks[old(locks)@.len() as int] == key@);
            assert(held_locks.contains(key@));
            assert forall|k: int| 0 <= k < held_locks.len() && held_locks[k] == key@ implies k
                == old(locks)@.len() as int by {
                if k < old(locks)@.len() {
                    assert(old(locks)@[k] == key@);
                    assert(old(locks)@.contains(key@));
                }
            }
            assert(held_locks.index_of(key@) == old(locks)@.len() as int);
        }
        locks.release(&key);
        proof {
            assert(locks@ =~= old(locks)@);
        }
    }
    result
}

/// The status guard seen from a whole invocation: a Reject against an
/// intent whose status forbids it fails with an invalid-status-transition
/// error naming that status, emits nothing, and leaves the store exactly as
/// it was.
pub proof fn lemma_reject_forbidden_leaves_store_unmodified(
    store: SpecStore,
    locks: Seq<Seq<char>>,
    merchant: SpecMerchantAccount,
    request: SpecPaymentsCancelRequest,
    lock_action: LockAction,
)
    requires
        store.wf(),
        !(lock_action == LockAction::HoldForDuration && locks.contains(request.payment_id)),
        store.has_intent(request.payment_id, merchant.merchant_id),
        crate::reject::spec_reject_forbidden(
            store.intent_at(request.payment_id, merchant.merchant_id).status,
        ),
    ensures
        ({
            let o = spec_run_reject(store, locks, merchant, request, lock_action);
            &&& o.store == store
            &&& o.emitted is None
            &&& o.result == Err::<SpecPaymentsCancelResponse, _>(
                SpecApiError::InvalidStatusTransition {
                    operation: "reject"@,
                    status: store.intent_at(request.payment_id, merchant.merchant_id).status,
                },
            )
        }),
{
}

/// A permitted Reject seen from a whole invocation: it transitions the
/// intent to `Failed` and the active attempt to `Failure`, emits exactly one
/// audit event carrying the resulting error fields, and succeeds.
pub proof fn lemma_reject_allowed_transitions(
    store: SpecStore,
    locks: Seq<Seq<char>>,
    merchant: SpecMerchantAccount,
    request: SpecPaymentsCancelRequest,
    lock_action: LockAction,
)
    requires
        store.wf(),
        !(lock_action == LockAction::HoldForDuration && locks.contains(request.payment_id)),
        store.has_intent(request.payment_id, merchant.merchant_id),
        ({
            let intent = store.intent_at(request.payment_id, merchant.merchant_id);
            &&& !crate::reject::spec_reject_forbidden(intent.status)
            &&& store.has_attempt(
                request.payment_id,
                merchant.merchant_id,
                intent.active_attempt_id,
            )
            &&& store.attempt_at(
                request.payment_id,
                merchant.merchant_id,
                intent.active_attempt_id,
            ).currency is Some
            &&& intent.profile_id is Some
            &&& store.has_profile(intent.profile_id->0)
        }),
    ensures
        ({
            let o = spec_run_reject(store, locks, merchant, request, lock_action);
            let pid = request.payment_id;
            let mid = merchant.merchant_id;
            &&& o.result is Ok
            &&& o.store.has_intent(pid, mid)
            &&& o.store.intent_at(pid, mid).status == IntentStatus::Failed
            &&& o.store.intent_at(pid, mid).merchant_decision == Some("rejected"@)
            &&& ({
                let aid = store.intent_at(pid, mid).active_attempt_id;
                &&& o.store.has_attempt(pid, mid, aid)
                &&& o.store.attempt_at(pid, mid, aid).status
                    == crate::enums::AttemptStatus::Failure
            })
            &&& o.emitted is Some
            &&& o.emitted->0.payment_id == pid
            &&& o.emitted->0.intent_status == IntentStatus::Failed
            &&& o.emitted->0.attempt_status == crate::enums::AttemptStatus::Failure
            &&& o.emitted->0.event_type == (crate::audit::SpecAuditEventType::PaymentReject {
                error_code: o.result->Ok_0.error_code,
                error_message: o.result->Ok_0.error_message,
            })
            &&& o.result->Ok_0.payment_id == pid
            &&& o.result->Ok_0.status == IntentStatus::Failed
            &&& o.result->Ok_0.customer_id is None
        }),
{
    let pid = request.payment_id;
    let mid = merchant.merchant_id;
    let intent = store.intent_at(pid, mid);
    let aid = intent.active_attempt_id;
    let vr = spec_validate_reject(request, merchant);
    let gtr = spec_get_trackers_reject(store, vr.payment_id, merchant);
    let o = spec_update_trackers_reject(store, gtr->Ok_0.payment_data, vr.storage_scheme);

    let idx = store.intent_index(pid, mid);
    crate::store::lemma_match_index_is(store.intents, SpecStore::intent_pred(pid, mid), idx);
    let new_intent = crate::updates::spec_apply_intent_update(
        intent,
        crate::reject::spec_reject_intent_update(vr.storage_scheme),
    );
    let store1 = SpecStore { intents: store.intents.update(idx, new_intent), ..store };
    crate::store::lemma_match_index_is(store1.intents, SpecStore::intent_pred(pid, mid), idx);

    let a_idx = store.attempt_index(pid, mid, aid);
    crate::store::lemma_match_index_is(
        store.attempts,
        SpecStore::attempt_pred(pid, mid, aid),
        a_idx,
    );
    assert(store1.attempts == store.attempts);
    let new_attempt = crate::updates::spec_apply_attempt_update(
        store1.attempt_at(pid, mid, aid),
        crate::reject::spec_reject_attempt_update(
            gtr->Ok_0.payment_data.frm_message,
            vr.storage_scheme,
        ),
    );
    let store2 = SpecStore {
        attempts: store1.attempts.update(store1.attempt_index(pid, mid, aid), new_attempt),
        ..store1
    };
    assert(store2.intents == store1.intents);
    crate::store::lemma_match_index_is(store2.intents, SpecStore::intent_pred(pid, mid), idx);
    crate::store::lemma_match_index_is(
        store2.attempts,
        SpecStore::attempt_pred(pid, mid, aid),
        a_idx,
    );
    assert(o.store == store2);
}

/// Two overlapping Rejects of the same payment are serialized: while one
/// invocation holds the lock, the other observes a conflict and changes
/// nothing; one that runs after the first completed fails the status guard
/// and changes nothing. Either way the stored state is exactly what the
/// first successful invocation left, so the final status is deterministic.
///
/// The premises are what the property presumes: the first invocation can
/// complete, so the attempt, its currency and the profile are present.
pub proof fn lemma_concurrent_rejects_serialized(
    store: SpecStore,
    merchant: SpecMerchantAccount,
    request: SpecPaymentsCancelRequest,
)
    requires
        store.wf(),
        store.has_intent(request.payment_id, merchant.merchant_id),
        ({
            let intent = store.intent_at(request.payment_id, merchant.merchant_id);
            &&& !crate::reject::spec_reject_forbidden(intent.status)
            &&& store.has_attempt(
                request.payment_id,
                merchant.merchant_id,
                intent.active_attempt_id,
            )
            &&& store.attempt_at(
                request.payment_id,
                merchant.merchant_id,
                intent.active_attempt_id,
            ).currency is Some
            &&& intent.profile_id is Some
            &&& store.has_profile(intent.profile_id->0)
        }),
    ensures
        ({
            // while the first invocation holds the lock, a concurrent one
            // conflicts and touches nothing
            let contended = spec_run_reject(
                store,
                Seq::empty().push(request.payment_id),
                merchant,
                request,
                LockAction::HoldForDuration,
            );
            &&& contended.result == Err::<SpecPaymentsCancelResponse, _>(
                SpecApiError::LockAcquisitionFailed,
            )
            &&& contended.store == store
            &&& contended.emitted is None
        }),
        ({
            // one that runs after the first completed fails the guard and
            // leaves the first invocation's outcome in place
            let first = spec_run_reject(
                store,
                Seq::empty(),
                merchant,
                request,
                LockAction::HoldForDuration,
            );
            let second = spec_run_reject(
                first.store,
                Seq::empty(),
                merchant,
                request,
                LockAction::HoldForDuration,
            );
            &&& first.result is Ok
            &&& second.result == Err::<SpecPaymentsCancelResponse, _>(
                SpecApiError::InvalidStatusTransition {
                    operation: "reject"@,
                    status: IntentStatus::Failed,
                },
            )
            &&& second.store == first.store
            &&& second.emitted is None
            &&& second.store.intent_at(request.payment_id, merchant.merchant_id).status
                == IntentStatus::Failed
        }),
{
    let pid = request.payment_id;
    let mid = merchant.merchant_id;
    assert(Seq::<Seq<char>>::empty().push(pid).contains(pid)) by {
        assert(Seq::<Seq<char>>::empty().push(pid)[0] == pid);
    }
    assert(!Seq::<Seq<char>>::empty().contains(pid));
    lemma_reject_allowed_transitions(
        store,
        Seq::empty(),
        merchant,
        request,
        LockAction::HoldForDuration,
    );
    let first = spec_run_reject(store, Seq::empty(), merchant, request, LockAction::HoldForDuration);
    assert(first.store.wf()) by {
        lemma_run_reject_preserves_wf(store, Seq::empty(), merchant, request,
            LockAction::HoldForDuration);
    }
    lemma_reject_forbidden_leaves_store_unmodified(
        first.store,
        Seq::empty(),
        merchant,
        request,
        LockAction::HoldForDuration,
    );
}

/// A whole invocation leaves the store well formed.
pub proof fn lemma_run_reject_preserves_wf(
    store: SpecStore,
    locks: Seq<Seq<char>>,
    merchant: SpecMerchantAccount,
    request: SpecPaymentsCancelRequest,
    lock_action: LockAction,
)
    requires
        store.wf(),
    ensures
        spec_run_reject(store, locks, merchant, request, lock_action).store.wf(),
{
    let pid = request.payment_id;
    let mid = merchant.merchant_id;
    let o = spec_run_reject(store, locks, merchant, request, lock_action);
    if o.store != store {
        let vr = spec_validate_reject(request, merchant);
        let gtr = spec_get_trackers_reject(store, vr.payment_id, merchant);
        if gtr is Ok {
            let pd = gtr->Ok_0.payment_data;
            let u = spec_update_trackers_reject(store, pd, vr.storage_scheme);
            if store.has_intent(pid, mid) {
                let idx = store.intent_index(pid, mid);
                crate::store::lemma_match_index_is(
                    store.intents,
                    SpecStore::intent_pred(pid, mid),
                    idx,
                );
                let new_intent = crate::updates::spec_apply_intent_update(
                    store.intent_at(pid, mid),
                    crate::reject::spec_reject_intent_update(vr.storage_scheme),
                );
                let store1 = SpecStore {
                    intents: store.intents.update(idx, new_intent),
                    ..store
                };
                assert forall|i: int, j: int| 0 <= i < j < store1.intents.len() implies
                    crate::store::intent_key(store1.intents[i]) != crate::store::intent_key(
                        store1.intents[j],
                    ) by {
                    assert(crate::store::intent_key(store1.intents[i]) == crate::store::intent_key(
                        store.intents[i],
                    ));
                    assert(crate::store::intent_key(store1.intents[j]) == crate::store::intent_key(
                        store.intents[j],
                    ));
                }
                assert(store1.wf());
                let apid = pd.payment_attempt.payment_id;
                let amid = pd.payment_attempt.merchant_id;
                let aaid = pd.payment_attempt.attempt_id;
                if store1.has_attempt(apid, amid, aaid) {
                    let a_idx = store1.attempt_index(apid, amid, aaid);
                    crate::store::lemma_match_index_is(
                        store1.attempts,
                        SpecStore::attempt_pred(apid, amid, aaid),
                        a_idx,
                    );
                    let new_attempt = crate::updates::spec_apply_attempt_update(
                        store1.attempt_at(apid, amid, aaid),
                        crate::reject::spec_reject_attempt_update(
                            pd.frm_message,
                            vr.storage_scheme,
                        ),
                    );
                    let store2 = SpecStore {
                        attempts: store1.attempts.update(a_idx, new_attempt),
                        ..store1
                    };
                    assert forall|i: int, j: int| 0 <= i < j < store2.attempts.len() implies
                        crate::store::attempt_key(store2.attempts[i]) != crate::store::attempt_key(
                            store2.attempts[j],
                        ) by {
                        assert(crate::store::attempt_key(store2.attempts[i])
                            == crate::store::attempt_key(store1.attempts[i]));
                        assert(crate::store::attempt_key(store2.attempts[j])
                            == crate::store::attempt_key(store1.attempts[j]));
                    }
                    assert forall|i: int| 0 <= i < store2.attempts.len() implies #[trigger]
                        store2.attempts[i].spec_total_amount() <= u64::MAX by {
                        assert(store2.attempts[i].spec_total_amount()
                            == store1.attempts[i].spec_total_amount());
                    }
                    assert(store2.wf());
                    assert(o.store == store2);
                } else {
                    assert(o.store == store1);
                }
            }
        }
    }
}

/// The persisted transition survives a reload: after a successful
/// UpdateTracker, the intent and attempt rows the store hands back are
/// exactly the updated records the phase returned — same statuses, same
/// error fields. (The reject operation's own GetTracker then refuses the
/// re-loaded intent by its guard, naming the persisted `Failed` status.)
///
/// The premises are what the round trip presumes: the rows the update
/// addresses are present, so the update can complete.
pub proof fn lemma_update_round_trip(
    store: SpecStore,
    pd: crate::payments::SpecPaymentData,
    scheme: crate::enums::MerchantStorageScheme,
)
    requires
        store.wf(),
        store.has_intent(pd.payment_intent.payment_id, pd.payment_intent.merchant_id),
        store.has_attempt(
            pd.payment_attempt.payment_id,
            pd.payment_attempt.merchant_id,
            pd.payment_attempt.attempt_id,
        ),
        // the intent's row and the attempt's row are distinct tables, so no
        // aliasing premise is needed beyond well-formedness
    ensures
        ({
            let o = spec_update_trackers_reject(store, pd, scheme);
            let pid = pd.payment_intent.payment_id;
            let mid = pd.payment_intent.merchant_id;
            &&& o.result is Ok
            &&& o.store.has_intent(pid, mid)
            &&& o.store.intent_at(pid, mid) == o.result->Ok_0.payment_intent
            &&& o.store.has_attempt(
                pd.payment_attempt.payment_id,
                pd.payment_attempt.merchant_id,
                pd.payment_attempt.attempt_id,
            )
            &&& o.store.attempt_at(
                pd.payment_attempt.payment_id,
                pd.payment_attempt.merchant_id,
                pd.payment_attempt.attempt_id,
            ) == o.result->Ok_0.payment_attempt
        }),
{
    let pid = pd.payment_intent.payment_id;
    let mid = pd.payment_intent.merchant_id;
    let apid = pd.payment_attempt.payment_id;
    let amid = pd.payment_attempt.merchant_id;
    let aaid = pd.payment_attempt.attempt_id;
    let idx = store.intent_index(pid, mid);
    crate::store::lemma_match_index_is(store.intents, SpecStore::intent_pred(pid, mid), idx);
    let new_intent = crate::updates::spec_apply_intent_update(
        store.intent_at(pid, mid),
        crate::reject::spec_reject_intent_update(scheme),
    );
    let store1 = SpecStore { intents: store.intents.update(idx, new_intent), ..store };
    crate::store::lemma_match_index_is(store1.intents, SpecStore::intent_pred(pid, mid), idx);
    assert(store1.attempts == store.attempts);
    let a_idx = store.attempt_index(apid, amid, aaid);
    crate::store::lemma_match_index_is(
        store.attempts,
        SpecStore::attempt_pred(apid, amid, aaid),
        a_idx,
    );
    crate::store::lemma_match_index_is(
        store1.attempts,
        SpecStore::attempt_pred(apid, amid, aaid),
        a_idx,
    );
    let new_attempt = crate::updates::spec_apply_attempt_update(
        store1.attempt_at(apid, amid, aaid),
        crate::reject::spec_reject_attempt_update(pd.frm_message, scheme),
    );
    let store2 = SpecStore { attempts: store1.attempts.update(a_idx, new_attempt), ..store1 };
    assert(store2.intents == store1.intents);
    crate::store::lemma_match_index_is(store2.intents, SpecStore::intent_pred(pid, mid), idx);
    crate::store::lemma_match_index_is(
        store2.attempts,
        SpecStore::attempt_pred(apid, amid, aaid),
        a_idx,
    );
}

} // verus!
