//! The creation step of the payment Create operation: a new payment intent
//! in its initial status, inserted through the idempotent insert resolver.

use vstd::prelude::*;

use crate::enums::{Currency, IntentStatus, MerchantStorageScheme};
use crate::errors::{ApiErrorResponse, StorageError};
use crate::ids::{AttemptId, MerchantId, PaymentId, ProfileId};
use crate::records::{MerchantAccount, PaymentIntent, SpecMerchantAccount, SpecPaymentIntent};
use crate::store::{SpecStore, Store};

verus! {

/// View of a [`PaymentsCreateRequest`].
pub struct SpecPaymentsCreateRequest {
    pub payment_id: Seq<char>,
    pub currency: Option<Currency>,
    pub profile_id: Option<Seq<char>>,
    pub active_attempt_id: Seq<char>,
}

/// The fields of an inbound create request that the creation step reads.
#[derive(Debug)]
pub struct PaymentsCreateRequest {
    pub payment_id: PaymentId,
    pub currency: Option<Currency>,
    pub profile_id: Option<ProfileId>,
    pub active_attempt_id: AttemptId,
}

impl View for PaymentsCreateRequest {
    type V = SpecPaymentsCreateRequest;

    open spec fn view(&self) -> SpecPaymentsCreateRequest {
        SpecPaymentsCreateRequest {
            payment_id: self.payment_id@,
            currency: self.currency,
            profile_id: match self.profile_id {
                Some(p) => Some(p@),
                None => None,
            },
            active_attempt_id: self.active_attempt_id@,
        }
    }
}

/// The intent row a create request gives rise to: initial status, no
/// decision recorded yet.
pub open spec fn spec_new_intent(
    req: SpecPaymentsCreateRequest,
    merchant: SpecMerchantAccount,
) -> SpecPaymentIntent {
    SpecPaymentIntent {
        payment_id: req.payment_id,
        merchant_id: merchant.merchant_id,
        status: IntentStatus::RequiresConfirmation,
        currency: req.currency,
        profile_id: req.profile_id,
        active_attempt_id: req.active_attempt_id,
        shipping_address_id: None,
        billing_address_id: None,
        merchant_decision: None,
        updated_by: merchant.storage_scheme.spec_text(),
    }
}

/// What creating a payment intent does: a create against a taken payment
/// identifier returns the pre-existing row unchanged.
pub open spec fn spec_create_payment_intent(
    store: SpecStore,
    merchant: SpecMerchantAccount,
    req: SpecPaymentsCreateRequest,
) -> (SpecStore, SpecPaymentIntent) {
    if store.has_intent(req.payment_id, merchant.merchant_id) {
        (store, store.intent_at(req.payment_id, merchant.merchant_id))
    } else {
        (
            SpecStore {
                intents: store.intents.push(spec_new_intent(req, merchant)),
                ..store
            },
            spec_new_intent(req, merchant),
        )
    }
}

/// Create the payment intent for a new payment in its initial status;
/// idempotent in the payment identifier. On a unique-constraint conflict
/// the pre-existing row is fetched and returned instead of an error.
pub fn create_payment_intent(
    store: &mut Store,
    merchant_account: &MerchantAccount,
    request: &PaymentsCreateRequest,
) -> (r: Result<PaymentIntent, ApiErrorResponse>)
    requires
        old(store)@.wf(),
    ensures
        final(store)@.wf(),
        ({
            let (s, intent) = spec_create_payment_intent(old(store)@, merchant_account@, request@);
            &&& final(store)@ == s
            &&& r is Ok
            &&& r->Ok_0@ == intent
        }),
{
    let new_intent = PaymentIntent {
        payment_id: request.payment_id.clone(),
        merchant_id: merchant_account.merchant_id.clone(),
        status: IntentStatus::RequiresConfirmation,
        currency: request.currency,
        profile_id: request.profile_id.clone(),
        active_attempt_id: request.active_attempt_id.clone(),
        shipping_address_id: None,
        billing_address_id: None,
        merchant_decision: None,
        updated_by: merchant_account.storage_scheme.to_text(),
    };
    match store.insert_payment_intent(new_intent) {
        Ok(intent) => Ok(intent),
        Err(StorageError::UniqueViolation) => {
            match store.find_payment_intent_by_payment_id_merchant_id(
                &request.payment_id,
                &merchant_account.merchant_id,
            ) {
                Some(existing) => Ok(existing),
                None => Err(ApiErrorResponse::InternalServerError),
            }
        },
        Err(_) => Err(ApiErrorResponse::InternalServerError),
    }
}

/// Creation is idempotent: after a successful create exactly one intent
/// with the identifier exists and carries the initial status, and a second
/// create with the same identifier returns that row unchanged and leaves
/// the store exactly as the first left it.
pub proof fn lemma_create_payment_intent_idempotent(
    store: SpecStore,
    merchant: SpecMerchantAccount,
    req: SpecPaymentsCreateRequest,
)
    requires
        store.wf(),
        !store.has_intent(req.payment_id, merchant.merchant_id),
    ensures
        ({
            let (s1, i1) = spec_create_payment_intent(store, merchant, req);
            let (s2, i2) = spec_create_payment_intent(s1, merchant, req);
            &&& s1.has_intent(req.payment_id, merchant.merchant_id)
            &&& i1.status == IntentStatus::RequiresConfirmation
            &&& s1.intent_at(req.payment_id, merchant.merchant_id) == i1
            &&& s2 == s1
            &&& i2 == i1
        }),
{
    let (s1, i1) = spec_create_payment_intent(store, merchant, req);
    crate::store::lemma_match_index_is(
        s1.intents,
        SpecStore::intent_pred(req.payment_id, merchant.merchant_id),
        store.intents.len() as int,
    );
}

} // verus!
