//! The per-request working set and the request/response shapes of the
//! payment operations.

use vstd::prelude::*;

use crate::enums::{Currency, IntentStatus, MerchantStorageScheme};
use crate::errors::ApiErrorResponse;
use crate::ids::{CustomerId, MerchantId, PaymentId};
use crate::records::{
    Address, BusinessProfile, Customer, FraudCheck, PaymentAttempt, PaymentIntent, SpecAddress,
    SpecBusinessProfile, SpecCustomer, SpecFraudCheck, SpecPaymentAttempt, SpecPaymentIntent,
};

verus! {

/// Which lifecycle flow an operation belongs to; carried alongside the
/// working set in place of a compile-time marker.
#[derive(Clone, Copy, Debug, PartialEq, Eq, Structural)]
pub enum FlowKind {
    Authorize,
    Capture,
    Cancel,
    Sync,
}

/// View of a [`PaymentIdType`].
pub enum SpecPaymentIdType {
    PaymentIntentId(Seq<char>),
    ConnectorTransactionId(Seq<char>),
    PaymentAttemptId(Seq<char>),
    PreprocessingId(Seq<char>),
}

/// The ways a request may identify a payment.
#[derive(Debug)]
pub enum PaymentIdType {
    /// The identifier of the payment intent itself.
    PaymentIntentId(PaymentId),
    /// A connector-side transaction identifier.
    ConnectorTransactionId(String),
    /// The identifier of one attempt.
    PaymentAttemptId(String),
    /// An identifier issued during preprocessing.
    PreprocessingId(String),
}

impl View for PaymentIdType {
    type V = SpecPaymentIdType;

    open spec fn view(&self) -> SpecPaymentIdType {
        match self {
            PaymentIdType::PaymentIntentId(p) => SpecPaymentIdType::PaymentIntentId(p@),
            PaymentIdType::ConnectorTransactionId(s) => SpecPaymentIdType::ConnectorTransactionId(
                s@,
            ),
            PaymentIdType::PaymentAttemptId(s) => SpecPaymentIdType::PaymentAttemptId(s@),
            PaymentIdType::PreprocessingId(s) => SpecPaymentIdType::PreprocessingId(s@),
        }
    }
}

impl Clone for PaymentIdType {
    fn clone(&self) -> (r: Self)
        ensures
            r@ == self@,
    {
        match self {
            PaymentIdType::PaymentIntentId(p) => PaymentIdType::PaymentIntentId(p.clone()),
            PaymentIdType::ConnectorTransactionId(s) => PaymentIdType::ConnectorTransactionId(
                s.clone(),
            ),
            PaymentIdType::PaymentAttemptId(s) => PaymentIdType::PaymentAttemptId(s.clone()),
            PaymentIdType::PreprocessingId(s) => PaymentIdType::PreprocessingId(s.clone()),
        }
    }
}

impl PaymentIdType {
    /// The payment-intent identifier, owed only when the request identified
    /// the payment by it.
    pub fn get_payment_intent_id(&self) -> (r: Result<PaymentId, ApiErrorResponse>)
        ensures
            r is Ok <==> self@ is PaymentIntentId,
            r is Ok ==> r->Ok_0@ == self@->PaymentIntentId_0,
            r is Err ==> r->Err_0 is PaymentNotFound,
    {
        match self {
            PaymentIdType::PaymentIntentId(p) => Ok(p.clone()),
            _ => Err(ApiErrorResponse::PaymentNotFound),
        }
    }
}

/// View of a [`PaymentsCancelRequest`].
pub struct SpecPaymentsCancelRequest {
    pub payment_id: Seq<char>,
    pub cancellation_reason: Option<Seq<char>>,
}

/// Inbound request of the Cancel/Reject operation.
#[derive(Debug)]
pub struct PaymentsCancelRequest {
    pub payment_id: PaymentId,
    pub cancellation_reason: Option<String>,
}

impl View for PaymentsCancelRequest {
    type V = SpecPaymentsCancelRequest;

    open spec fn view(&self) -> SpecPaymentsCancelRequest {
        SpecPaymentsCancelRequest {
            payment_id: self.payment_id@,
            cancellation_reason: self.cancellation_reason.deep_view(),
        }
    }
}

/// View of a [`ValidateResult`].
pub struct SpecValidateResult {
    pub merchant_id: Seq<char>,
    pub payment_id: SpecPaymentIdType,
    pub storage_scheme: MerchantStorageScheme,
    pub requeue: bool,
}

/// What the ValidateRequest phase resolves: the authorized merchant, how the
/// payment is identified, the storage scheme, and whether the caller may
/// re-enqueue the operation.
#[derive(Debug)]
pub struct ValidateResult {
    pub merchant_id: MerchantId,
    pub payment_id: PaymentIdType,
    pub storage_scheme: MerchantStorageScheme,
    pub requeue: bool,
}

impl View for ValidateResult {
    type V = SpecValidateResult;

    open spec fn view(&self) -> SpecValidateResult {
        SpecValidateResult {
            merchant_id: self.merchant_id@,
            payment_id: self.payment_id@,
            storage_scheme: self.storage_scheme,
            requeue: self.requeue,
        }
    }
}

/// View of a [`PaymentAddress`].
pub struct SpecPaymentAddress {
    pub shipping: Option<SpecAddress>,
    pub billing: Option<SpecAddress>,
    pub payment_method_billing: Option<SpecAddress>,
}

/// The addresses resolved for one operation. When the business profile says
/// to use the billing address as the payment-method billing address, an
/// absent payment-method billing address falls back to the billing address.
#[derive(Debug)]
pub struct PaymentAddress {
    pub shipping: Option<Address>,
    pub billing: Option<Address>,
    pub payment_method_billing: Option<Address>,
}

impl View for PaymentAddress {
    type V = SpecPaymentAddress;

    open spec fn view(&self) -> SpecPaymentAddress {
        SpecPaymentAddress {
            shipping: self.shipping.deep_view(),
            billing: self.billing.deep_view(),
            payment_method_billing: self.payment_method_billing.deep_view(),
        }
    }
}

/// What [`PaymentAddress::new`] yields, at the view level.
pub open spec fn spec_payment_address_new(
    shipping: Option<SpecAddress>,
    billing: Option<SpecAddress>,
    payment_method_billing: Option<SpecAddress>,
    use_billing_as_payment_method_billing: Option<bool>,
) -> SpecPaymentAddress {
    SpecPaymentAddress {
        shipping,
        billing,
        payment_method_billing: if use_billing_as_payment_method_billing == Some(true)
            && payment_method_billing is None {
            billing
        } else {
            payment_method_billing
        },
    }
}

impl PaymentAddress {
    /// Combine the resolved addresses, applying the profile's
    /// billing-as-payment-method-billing policy.
    pub fn new(
        shipping: Option<Address>,
        billing: Option<Address>,
        payment_method_billing: Option<Address>,
        use_billing_as_payment_method_billing: Option<bool>,
    ) -> (r: PaymentAddress)
        ensures
            r@ == spec_payment_address_new(
                shipping.deep_view(),
                billing.deep_view(),
                payment_method_billing.deep_view(),
                use_billing_as_payment_method_billing,
            ),
    {
        let unify = match use_billing_as_payment_method_billing {
            Some(b) => b,
            None => false,
        };
        let payment_method_billing = if unify && payment_method_billing.is_none() {
            billing.clone()
        } else {
            payment_method_billing
        };
        PaymentAddress { shipping, billing, payment_method_billing }
    }
}

/// View of a [`PaymentData`].
pub struct SpecPaymentData {
    pub flow: FlowKind,
    pub payment_intent: SpecPaymentIntent,
    pub payment_attempt: SpecPaymentAttempt,
    pub currency: Currency,
    pub amount: u64,
    pub email: Option<Seq<char>>,
    pub mandate_id: Option<Seq<char>>,
    pub token: Option<Seq<char>>,
    pub confirm: Option<bool>,
    pub card_cvc: Option<Seq<char>>,
    pub address: SpecPaymentAddress,
    pub frm_message: Option<SpecFraudCheck>,
}

/// The payment working set: the transient aggregate of everything one
/// operation needs, assembled by GetTracker, threaded through the phases and
/// discarded at the end of the invocation.
#[derive(Debug)]
pub struct PaymentData {
    pub flow: FlowKind,
    pub payment_intent: PaymentIntent,
    pub payment_attempt: PaymentAttempt,
    pub currency: Currency,
    pub amount: u64,
    pub email: Option<String>,
    pub mandate_id: Option<String>,
    pub token: Option<String>,
    pub confirm: Option<bool>,
    pub card_cvc: Option<String>,
    pub address: PaymentAddress,
    pub frm_message: Option<FraudCheck>,
}

impl View for PaymentData {
    type V = SpecPaymentData;

    open spec fn view(&self) -> SpecPaymentData {
        SpecPaymentData {
            flow: self.flow,
            payment_intent: self.payment_intent@,
            payment_attempt: self.payment_attempt@,
            currency: self.currency,
            amount: self.amount,
            email: self.email.deep_view(),
            mandate_id: self.mandate_id.deep_view(),
            token: self.token.deep_view(),
            confirm: self.confirm,
            card_cvc: self.card_cvc.deep_view(),
            address: self.address@,
            frm_message: match self.frm_message {
                Some(f) => Some(f@),
                None => None,
            },
        }
    }
}

/// View of a [`GetTrackerResponse`].
pub struct SpecGetTrackerResponse {
    pub payment_data: SpecPaymentData,
    pub business_profile: SpecBusinessProfile,
    pub customer_details: Option<SpecCustomer>,
}

/// What the GetTracker phase hands to the rest of the pipeline.
#[derive(Debug)]
pub struct GetTrackerResponse {
    pub payment_data: PaymentData,
    pub business_profile: BusinessProfile,
    pub customer_details: Option<Customer>,
}

impl View for GetTrackerResponse {
    type V = SpecGetTrackerResponse;

    open spec fn view(&self) -> SpecGetTrackerResponse {
        SpecGetTrackerResponse {
            payment_data: self.payment_data@,
            business_profile: self.business_profile@,
            customer_details: match self.customer_details {
                Some(c) => Some(c@),
                None => None,
            },
        }
    }
}

/// View of a [`PaymentsCancelResponse`].
pub struct SpecPaymentsCancelResponse {
    pub payment_id: Seq<char>,
    pub status: IntentStatus,
    pub customer_id: Option<Seq<char>>,
    pub error_code: Option<Seq<char>>,
    pub error_message: Option<Seq<char>>,
}

/// The typed response of the Cancel/Reject operation; the transport layer
/// serializes it.
#[derive(Debug)]
pub struct PaymentsCancelResponse {
    pub payment_id: PaymentId,
    pub status: IntentStatus,
    pub customer_id: Option<CustomerId>,
    pub error_code: Option<String>,
    pub error_message: Option<String>,
}

impl View for PaymentsCancelResponse {
    type V = SpecPaymentsCancelResponse;

    open spec fn view(&self) -> SpecPaymentsCancelResponse {
        SpecPaymentsCancelResponse {
            payment_id: self.payment_id@,
            status: self.status,
            customer_id: match self.customer_id {
                Some(c) => Some(c@),
                None => None,
            },
            error_code: self.error_code.deep_view(),
            error_message: self.error_message.deep_view(),
        }
    }
}

} // verus!
