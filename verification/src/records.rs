//! Persistent records of the data model: payment intent, payment attempt,
//! address, customer, business profile, fraud-check result, mandate and
//! stored payment method, together with the merchant context.
//!
//! Each record has a view (`Spec*`) over character sequences, which the
//! storage model and the pipeline contracts speak of.

use vstd::prelude::*;

use crate::enums::{
    AttemptStatus, Currency, IntentStatus, MandateStatus, MerchantStorageScheme, PaymentMethodType,
};
use crate::ids::{AttemptId, CustomerId, MerchantId, PaymentId, ProfileId};

verus! {

/// View of a [`PaymentIntent`].
pub struct SpecPaymentIntent {
    pub payment_id: Seq<char>,
    pub merchant_id: Seq<char>,
    pub status: IntentStatus,
    pub currency: Option<Currency>,
    pub profile_id: Option<Seq<char>>,
    pub active_attempt_id: Seq<char>,
    pub shipping_address_id: Option<Seq<char>>,
    pub billing_address_id: Option<Seq<char>>,
    pub merchant_decision: Option<Seq<char>>,
    pub updated_by: Seq<char>,
}

/// The logical payment: exactly one per payment identifier and merchant,
/// never deleted, only status-transitioned.
#[derive(Debug)]
pub struct PaymentIntent {
    pub payment_id: PaymentId,
    pub merchant_id: MerchantId,
    pub status: IntentStatus,
    pub currency: Option<Currency>,
    pub profile_id: Option<ProfileId>,
    pub active_attempt_id: AttemptId,
    pub shipping_address_id: Option<String>,
    pub billing_address_id: Option<String>,
    pub merchant_decision: Option<String>,
    pub updated_by: String,
}

impl View for PaymentIntent {
    type V = SpecPaymentIntent;

    open spec fn view(&self) -> SpecPaymentIntent {
        SpecPaymentIntent {
            payment_id: self.payment_id@,
            merchant_id: self.merchant_id@,
            status: self.status,
            currency: self.currency,
            profile_id: match self.profile_id {
                Some(p) => Some(p@),
                None => None,
            },
            active_attempt_id: self.active_attempt_id@,
            shipping_address_id: self.shipping_address_id.deep_view(),
            billing_address_id: self.billing_address_id.deep_view(),
            merchant_decision: self.merchant_decision.deep_view(),
            updated_by: self.updated_by@,
        }
    }
}

/// View of a [`PaymentAttempt`].
pub struct SpecPaymentAttempt {
    pub attempt_id: Seq<char>,
    pub payment_id: Seq<char>,
    pub merchant_id: Seq<char>,
    pub status: AttemptStatus,
    pub amount: u64,
    pub surcharge_amount: Option<u64>,
    pub tax_amount: Option<u64>,
    pub currency: Option<Currency>,
    pub error_code: Option<Seq<char>>,
    pub error_message: Option<Seq<char>>,
    pub payment_method_billing_address_id: Option<Seq<char>>,
    pub updated_by: Seq<char>,
}

impl SpecPaymentAttempt {
    /// Net amount of the attempt: base amount plus surcharge and tax.
    pub open spec fn spec_total_amount(&self) -> int {
        self.amount + (match self.surcharge_amount {
            Some(s) => s as int,
            None => 0,
        }) + (match self.tax_amount {
            Some(t) => t as int,
            None => 0,
        })
    }
}

/// One attempt to charge a connector for a payment intent.
#[derive(Debug)]
pub struct PaymentAttempt {
    pub attempt_id: AttemptId,
    pub payment_id: PaymentId,
    pub merchant_id: MerchantId,
    pub status: AttemptStatus,
    pub amount: u64,
    pub surcharge_amount: Option<u64>,
    pub tax_amount: Option<u64>,
    pub currency: Option<Currency>,
    pub error_code: Option<String>,
    pub error_message: Option<String>,
    pub payment_method_billing_address_id: Option<String>,
    pub updated_by: String,
}

impl View for PaymentAttempt {
    type V = SpecPaymentAttempt;

    open spec fn view(&self) -> SpecPaymentAttempt {
        SpecPaymentAttempt {
            attempt_id: self.attempt_id@,
            payment_id: self.payment_id@,
            merchant_id: self.merchant_id@,
            status: self.status,
            amount: self.amount,
            surcharge_amount: self.surcharge_amount,
            tax_amount: self.tax_amount,
            currency: self.currency,
            error_code: self.error_code.deep_view(),
            error_message: self.error_message.deep_view(),
            payment_method_billing_address_id: self.payment_method_billing_address_id.deep_view(),
            updated_by: self.updated_by@,
        }
    }
}

impl PaymentAttempt {
    /// Net amount of the attempt: base amount plus surcharge and tax.
    pub fn get_total_amount(&self) -> (r: u64)
        requires
            self@.spec_total_amount() <= u64::MAX,
        ensures
            r == self@.spec_total_amount(),
    {
        let surcharge: u64 = match self.surcharge_amount {
            Some(s) => s,
            None => 0,
        };
        let tax: u64 = match self.tax_amount {
            Some(t) => t,
            None => 0,
        };
        self.amount + surcharge + tax
    }
}

/// View of an [`Address`].
pub struct SpecAddress {
    pub address_id: Seq<char>,
    pub customer_id: Option<Seq<char>>,
    pub merchant_id: Seq<char>,
    pub city: Option<Seq<char>>,
    pub country: Option<Seq<char>>,
    pub line1: Option<Seq<char>>,
    pub line2: Option<Seq<char>>,
    pub line3: Option<Seq<char>>,
    pub state: Option<Seq<char>>,
    pub zip: Option<Seq<char>>,
    pub first_name: Option<Seq<char>>,
    pub last_name: Option<Seq<char>>,
    pub phone_number: Option<Seq<char>>,
    pub country_code: Option<Seq<char>>,
}

/// A shipping, billing or payment-method-billing address; mutated only
/// through an explicit update statement.
#[derive(Debug)]
pub struct Address {
    pub address_id: String,
    pub customer_id: Option<CustomerId>,
    pub merchant_id: MerchantId,
    pub city: Option<String>,
    pub country: Option<String>,
    pub line1: Option<String>,
    pub line2: Option<String>,
    pub line3: Option<String>,
    pub state: Option<String>,
    pub zip: Option<String>,
    pub first_name: Option<String>,
    pub last_name: Option<String>,
    pub phone_number: Option<String>,
    pub country_code: Option<String>,
}

impl View for Address {
    type V = SpecAddress;

    open spec fn view(&self) -> SpecAddress {
        SpecAddress {
            address_id: self.address_id@,
            customer_id: match self.customer_id {
                Some(c) => Some(c@),
                None => None,
            },
            merchant_id: self.merchant_id@,
            city: self.city.deep_view(),
            country: self.country.deep_view(),
            line1: self.line1.deep_view(),
            line2: self.line2.deep_view(),
            line3: self.line3.deep_view(),
            state: self.state.deep_view(),
            zip: self.zip.deep_view(),
            first_name: self.first_name.deep_view(),
            last_name: self.last_name.deep_view(),
            phone_number: self.phone_number.deep_view(),
            country_code: self.country_code.deep_view(),
        }
    }
}

/// View of a [`Customer`] (and of a [`CustomerNew`]).
pub struct SpecCustomer {
    pub customer_id: Seq<char>,
    pub merchant_id: Seq<char>,
    pub name: Option<Seq<char>>,
    pub email: Option<Seq<char>>,
    pub phone: Option<Seq<char>>,
    pub description: Option<Seq<char>>,
    pub phone_country_code: Option<Seq<char>>,
    pub metadata: Option<Seq<char>>,
}

/// A stored customer row; natural key is `(customer_id, merchant_id)`.
#[derive(Debug)]
pub struct Customer {
    pub customer_id: CustomerId,
    pub merchant_id: MerchantId,
    pub name: Option<String>,
    pub email: Option<String>,
    pub phone: Option<String>,
    pub description: Option<String>,
    pub phone_country_code: Option<String>,
    pub metadata: Option<String>,
}

impl View for Customer {
    type V = SpecCustomer;

    open spec fn view(&self) -> SpecCustomer {
        SpecCustomer {
            customer_id: self.customer_id@,
            merchant_id: self.merchant_id@,
            name: self.name.deep_view(),
            email: self.email.deep_view(),
            phone: self.phone.deep_view(),
            description: self.description.deep_view(),
            phone_country_code: self.phone_country_code.deep_view(),
            metadata: self.metadata.deep_view(),
        }
    }
}

/// A customer row to be inserted.
#[derive(Debug)]
pub struct CustomerNew {
    pub customer_id: CustomerId,
    pub merchant_id: MerchantId,
    pub name: Option<String>,
    pub email: Option<String>,
    pub phone: Option<String>,
    pub description: Option<String>,
    pub phone_country_code: Option<String>,
    pub metadata: Option<String>,
}

impl View for CustomerNew {
    type V = SpecCustomer;

    open spec fn view(&self) -> SpecCustomer {
        SpecCustomer {
            customer_id: self.customer_id@,
            merchant_id: self.merchant_id@,
            name: self.name.deep_view(),
            email: self.email.deep_view(),
            phone: self.phone.deep_view(),
            description: self.description.deep_view(),
            phone_country_code: self.phone_country_code.deep_view(),
            metadata: self.metadata.deep_view(),
        }
    }
}

/// View of a [`BusinessProfile`].
pub struct SpecBusinessProfile {
    pub profile_id: Seq<char>,
    pub merchant_id: Seq<char>,
    pub use_billing_as_payment_method_billing: Option<bool>,
}

/// Merchant-configured policy bag, read-only within the pipeline.
#[derive(Debug)]
pub struct BusinessProfile {
    pub profile_id: ProfileId,
    pub merchant_id: MerchantId,
    pub use_billing_as_payment_method_billing: Option<bool>,
}

impl View for BusinessProfile {
    type V = SpecBusinessProfile;

    open spec fn view(&self) -> SpecBusinessProfile {
        SpecBusinessProfile {
            profile_id: self.profile_id@,
            merchant_id: self.merchant_id@,
            use_billing_as_payment_method_billing: self.use_billing_as_payment_method_billing,
        }
    }
}

/// View of a [`FraudCheck`].
pub struct SpecFraudCheck {
    pub payment_id: Seq<char>,
    pub merchant_id: Seq<char>,
    pub frm_status: Seq<char>,
    pub frm_reason: Option<Seq<char>>,
}

/// Result of a prior fraud check on a payment.
#[derive(Debug)]
pub struct FraudCheck {
    pub payment_id: PaymentId,
    pub merchant_id: MerchantId,
    pub frm_status: String,
    pub frm_reason: Option<String>,
}

impl View for FraudCheck {
    type V = SpecFraudCheck;

    open spec fn view(&self) -> SpecFraudCheck {
        SpecFraudCheck {
            payment_id: self.payment_id@,
            merchant_id: self.merchant_id@,
            frm_status: self.frm_status@,
            frm_reason: self.frm_reason.deep_view(),
        }
    }
}

/// View of a [`Mandate`].
pub struct SpecMandate {
    pub mandate_id: Seq<char>,
    pub customer_id: Seq<char>,
    pub merchant_id: Seq<char>,
    pub mandate_status: MandateStatus,
}

/// A mandate a customer granted to a merchant.
#[derive(Debug)]
pub struct Mandate {
    pub mandate_id: String,
    pub customer_id: CustomerId,
    pub merchant_id: MerchantId,
    pub mandate_status: MandateStatus,
}

impl View for Mandate {
    type V = SpecMandate;

    open spec fn view(&self) -> SpecMandate {
        SpecMandate {
            mandate_id: self.mandate_id@,
            customer_id: self.customer_id@,
            merchant_id: self.merchant_id@,
            mandate_status: self.mandate_status,
        }
    }
}

/// View of a [`PaymentMethod`].
pub struct SpecPaymentMethod {
    pub payment_method_id: Seq<char>,
    pub customer_id: Seq<char>,
    pub merchant_id: Seq<char>,
    pub payment_method: PaymentMethodType,
}

/// A stored payment method of a customer.
#[derive(Debug)]
pub struct PaymentMethod {
    pub payment_method_id: String,
    pub customer_id: CustomerId,
    pub merchant_id: MerchantId,
    pub payment_method: PaymentMethodType,
}

impl View for PaymentMethod {
    type V = SpecPaymentMethod;

    open spec fn view(&self) -> SpecPaymentMethod {
        SpecPaymentMethod {
            payment_method_id: self.payment_method_id@,
            customer_id: self.customer_id@,
            merchant_id: self.merchant_id@,
            payment_method: self.payment_method,
        }
    }
}

/// View of a [`MerchantAccount`].
pub struct SpecMerchantAccount {
    pub merchant_id: Seq<char>,
    pub storage_scheme: MerchantStorageScheme,
}

/// The merchant account a request is authorized for.
#[derive(Debug)]
pub struct MerchantAccount {
    pub merchant_id: MerchantId,
    pub storage_scheme: MerchantStorageScheme,
}

impl View for MerchantAccount {
    type V = SpecMerchantAccount;

    open spec fn view(&self) -> SpecMerchantAccount {
        SpecMerchantAccount {
            merchant_id: self.merchant_id@,
            storage_scheme: self.storage_scheme,
        }
    }
}

impl MerchantAccount {
    pub fn get_id(&self) -> (r: &MerchantId)
        ensures
            r@ == self.merchant_id@,
    {
        &self.merchant_id
    }
}

/// Authentication result supplied by the transport layer; read-only input
/// to every phase.
#[derive(Debug)]
pub struct MerchantContext {
    pub merchant_account: MerchantAccount,
}

impl View for MerchantContext {
    type V = SpecMerchantAccount;

    open spec fn view(&self) -> SpecMerchantAccount {
        self.merchant_account@
    }
}

impl MerchantContext {
    pub fn get_merchant_account(&self) -> (r: &MerchantAccount)
        ensures
            r@ == self@,
    {
        &self.merchant_account
    }
}


impl Clone for PaymentIntent {
    fn clone(&self) -> (r: Self)
        ensures
            r == *self,
    {
        PaymentIntent {
            payment_id: self.payment_id.clone(),
            merchant_id: self.merchant_id.clone(),
            status: self.status,
            currency: self.currency,
            profile_id: self.profile_id.clone(),
            active_attempt_id: self.active_attempt_id.clone(),
            shipping_address_id: self.shipping_address_id.clone(),
            billing_address_id: self.billing_address_id.clone(),
            merchant_decision: self.merchant_decision.clone(),
            updated_by: self.updated_by.clone(),
        }
    }
}


impl Clone for PaymentAttempt {
    fn clone(&self) -> (r: Self)
        ensures
            r == *self,
    {
        PaymentAttempt {
            attempt_id: self.attempt_id.clone(),
            payment_id: self.payment_id.clone(),
            merchant_id: self.merchant_id.clone(),
            status: self.status,
            amount: self.amount,
            surcharge_amount: self.surcharge_amount,
            tax_amount: self.tax_amount,
            currency: self.currency,
            error_code: self.error_code.clone(),
            error_message: self.error_message.clone(),
            payment_method_billing_address_id: self.payment_method_billing_address_id.clone(),
            updated_by: self.updated_by.clone(),
        }
    }
}


impl Clone for Address {
    fn clone(&self) -> (r: Self)
        ensures
            r == *self,
    {
        Address {
            address_id: self.address_id.clone(),
            customer_id: self.customer_id.clone(),
            merchant_id: self.merchant_id.clone(),
            city: self.city.clone(),
            country: self.country.clone(),
            line1: self.line1.clone(),
            line2: self.line2.clone(),
            line3: self.line3.clone(),
            state: self.state.clone(),
            zip: self.zip.clone(),
            first_name: self.first_name.clone(),
            last_name: self.last_name.clone(),
            phone_number: self.phone_number.clone(),
            country_code: self.country_code.clone(),
        }
    }
}


impl Clone for Customer {
    fn clone(&self) -> (r: Self)
        ensures
            r == *self,
    {
        Customer {
            customer_id: self.customer_id.clone(),
            merchant_id: self.merchant_id.clone(),
            name: self.name.clone(),
            email: self.email.clone(),
            phone: self.phone.clone(),
            description: self.description.clone(),
            phone_country_code: self.phone_country_code.clone(),
            metadata: self.metadata.clone(),
        }
    }
}


impl Clone for CustomerNew {
    fn clone(&self) -> (r: Self)
        ensures
            r == *self,
    {
        CustomerNew {
            customer_id: self.customer_id.clone(),
            merchant_id: self.merchant_id.clone(),
            name: self.name.clone(),
            email: self.email.clone(),
            phone: self.phone.clone(),
            description: self.description.clone(),
            phone_country_code: self.phone_country_code.clone(),
            metadata: self.metadata.clone(),
        }
    }
}


impl Clone for BusinessProfile {
    fn clone(&self) -> (r: Self)
        ensures
            r == *self,
    {
        BusinessProfile {
            profile_id: self.profile_id.clone(),
            merchant_id: self.merchant_id.clone(),
            use_billing_as_payment_method_billing: self.use_billing_as_payment_method_billing,
        }
    }
}


impl Clone for FraudCheck {
    fn clone(&self) -> (r: Self)
        ensures
            r == *self,
    {
        FraudCheck {
            payment_id: self.payment_id.clone(),
            merchant_id: self.merchant_id.clone(),
            frm_status: self.frm_status.clone(),
            frm_reason: self.frm_reason.clone(),
        }
    }
}


impl Clone for Mandate {
    fn clone(&self) -> (r: Self)
        ensures
            r == *self,
    {
        Mandate {
            mandate_id: self.mandate_id.clone(),
            customer_id: self.customer_id.clone(),
            merchant_id: self.merchant_id.clone(),
            mandate_status: self.mandate_status,
        }
    }
}


impl Clone for PaymentMethod {
    fn clone(&self) -> (r: Self)
        ensures
            r == *self,
    {
        PaymentMethod {
            payment_method_id: self.payment_method_id.clone(),
            customer_id: self.customer_id.clone(),
            merchant_id: self.merchant_id.clone(),
            payment_method: self.payment_method,
        }
    }
}


impl Clone for MerchantAccount {
    fn clone(&self) -> (r: Self)
        ensures
            r == *self,
    {
        MerchantAccount {
            merchant_id: self.merchant_id.clone(),
            storage_scheme: self.storage_scheme,
        }
    }
}


impl Clone for MerchantContext {
    fn clone(&self) -> (r: Self)
        ensures
            r == *self,
    {
        MerchantContext {
            merchant_account: self.merchant_account.clone(),
        }
    }
}


impl DeepView for PaymentIntent {
    type V = SpecPaymentIntent;

    open spec fn deep_view(&self) -> SpecPaymentIntent {
        self.view()
    }
}


impl DeepView for PaymentAttempt {
    type V = SpecPaymentAttempt;

    open spec fn deep_view(&self) -> SpecPaymentAttempt {
        self.view()
    }
}


impl DeepView for Address {
    type V = SpecAddress;

    open spec fn deep_view(&self) -> SpecAddress {
        self.view()
    }
}


impl DeepView for Customer {
    type V = SpecCustomer;

    open spec fn deep_view(&self) -> SpecCustomer {
        self.view()
    }
}


impl DeepView for CustomerNew {
    type V = SpecCustomer;

    open spec fn deep_view(&self) -> SpecCustomer {
        self.view()
    }
}


impl DeepView for BusinessProfile {
    type V = SpecBusinessProfile;

    open spec fn deep_view(&self) -> SpecBusinessProfile {
        self.view()
    }
}


impl DeepView for FraudCheck {
    type V = SpecFraudCheck;

    open spec fn deep_view(&self) -> SpecFraudCheck {
        self.view()
    }
}


impl DeepView for Mandate {
    type V = SpecMandate;

    open spec fn deep_view(&self) -> SpecMandate {
        self.view()
    }
}


impl DeepView for PaymentMethod {
    type V = SpecPaymentMethod;

    open spec fn deep_view(&self) -> SpecPaymentMethod {
        self.view()
    }
}

} // verus!
