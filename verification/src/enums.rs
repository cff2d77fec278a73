//! Enumerated lifecycle states and merchant-level configuration values.

use vstd::prelude::*;

verus! {

/// Lifecycle status of a payment intent.
#[derive(Clone, Copy, Debug, PartialEq, Eq, Structural)]
pub enum IntentStatus {
    RequiresConfirmation,
    RequiresPaymentMethod,
    RequiresCapture,
    Processing,
    Succeeded,
    Failed,
    Cancelled,
}

/// Lifecycle status of a payment attempt; independent of the intent's status.
#[derive(Clone, Copy, Debug, PartialEq, Eq, Structural)]
pub enum AttemptStatus {
    Started,
    Pending,
    Authorized,
    Charged,
    Failure,
    Voided,
}

/// Decision recorded on the intent when the merchant rejects a payment.
#[derive(Clone, Copy, Debug, PartialEq, Eq, Structural)]
pub enum MerchantDecision {
    Rejected,
    Approved,
}

/// Consistency/backing strategy the merchant account selects for persistence.
#[derive(Clone, Copy, Debug, PartialEq, Eq, Structural)]
pub enum MerchantStorageScheme {
    PostgresOnly,
    RedisKv,
}

/// Status of a mandate held for a customer.
#[derive(Clone, Copy, Debug, PartialEq, Eq, Structural)]
pub enum MandateStatus {
    Active,
    Inactive,
    Revoked,
}

/// Kind of a stored payment method.
#[derive(Clone, Copy, Debug, PartialEq, Eq, Structural)]
pub enum PaymentMethodType {
    Card,
    BankTransfer,
    Wallet,
}

/// Transaction currency; only the currencies the tests exercise are listed.
#[derive(Clone, Copy, Debug, PartialEq, Eq, Structural)]
pub enum Currency {
    Usd,
    Eur,
    Gbp,
}

/// Which card vault service a request is addressed to.
#[derive(Clone, Copy, Debug, PartialEq, Eq, Structural)]
pub enum LockerChoice {
    HyperswitchCardVault,
}

/// Asymmetric scheme used to decrypt a vault response envelope.
#[derive(Clone, Copy, Debug, PartialEq, Eq, Structural)]
pub enum DecryptionScheme {
    RsaOaep,
    RsaOaep256,
}

impl MerchantDecision {
    /// Stable text form recorded on update statements.
    pub fn to_text(&self) -> (r: String)
        ensures
            r@ == self.spec_text(),
    {
        match self {
            MerchantDecision::Rejected => "rejected".to_owned(),
            MerchantDecision::Approved => "approved".to_owned(),
        }
    }

    pub open spec fn spec_text(&self) -> Seq<char> {
        match self {
            MerchantDecision::Rejected => "rejected"@,
            MerchantDecision::Approved => "approved"@,
        }
    }
}

impl MerchantStorageScheme {
    /// Stable text form recorded in the `updated_by` field of update statements.
    pub fn to_text(&self) -> (r: String)
        ensures
            r@ == self.spec_text(),
    {
        match self {
            MerchantStorageScheme::PostgresOnly => "postgres_only".to_owned(),
            MerchantStorageScheme::RedisKv => "redis_kv".to_owned(),
        }
    }

    pub open spec fn spec_text(&self) -> Seq<char> {
        match self {
            MerchantStorageScheme::PostgresOnly => "postgres_only"@,
            MerchantStorageScheme::RedisKv => "redis_kv"@,
        }
    }
}

} // verus!
