//! Stored payment methods and the response shapes built from them.

use vstd::prelude::*;

use crate::card::CardDetailFromLocker;
use crate::enums::{Currency, PaymentMethodType};
use crate::errors::ApiErrorResponse;
use crate::ids::{CustomerId, MerchantId};
use crate::records::Address;

verus! {

/// Whether a connector-held token is usable.
#[derive(Clone, Copy, Debug, PartialEq, Eq, Structural)]
pub enum ConnectorTokenStatus {
    Active,
    Inactive,
}

/// Whether a token may be charged once or many times.
#[derive(Clone, Copy, Debug, PartialEq, Eq, Structural)]
pub enum TokenizationType {
    SingleUse,
    MultiUse,
}

/// Card details as the payment-method store keeps them.
#[derive(Debug)]
pub struct CardDetailsPaymentMethod {
    pub last4_digits: Option<String>,
    pub issuer_country: Option<String>,
    pub expiry_month: Option<String>,
    pub expiry_year: Option<String>,
    pub card_holder_name: Option<String>,
    pub nick_name: Option<String>,
    pub card_isin: Option<String>,
    pub card_issuer: Option<String>,
    pub card_network: Option<String>,
    pub card_type: Option<String>,
    pub saved_to_locker: bool,
}

impl Clone for CardDetailsPaymentMethod {
    fn clone(&self) -> (r: Self)
        ensures
            r == *self,
    {
        CardDetailsPaymentMethod {
            last4_digits: self.last4_digits.clone(),
            issuer_country: self.issuer_country.clone(),
            expiry_month: self.expiry_month.clone(),
            expiry_year: self.expiry_year.clone(),
            card_holder_name: self.card_holder_name.clone(),
            nick_name: self.nick_name.clone(),
            card_isin: self.card_isin.clone(),
            card_issuer: self.card_issuer.clone(),
            card_network: self.card_network.clone(),
            card_type: self.card_type.clone(),
            saved_to_locker: self.saved_to_locker,
        }
    }
}

/// Network-token details as the payment-method store keeps them.
#[derive(Debug)]
pub struct NetworkTokenDetailsPaymentMethod {
    pub last4_digits: Option<String>,
    pub card_holder_name: Option<String>,
}

impl Clone for NetworkTokenDetailsPaymentMethod {
    fn clone(&self) -> (r: Self)
        ensures
            r == *self,
    {
        NetworkTokenDetailsPaymentMethod {
            last4_digits: self.last4_digits.clone(),
            card_holder_name: self.card_holder_name.clone(),
        }
    }
}

/// The payload a stored payment method carries.
#[derive(Debug)]
pub enum PaymentMethodsData {
    Card(CardDetailsPaymentMethod),
    BankDetails,
    WalletDetails,
    NetworkToken(NetworkTokenDetailsPaymentMethod),
}

impl Clone for PaymentMethodsData {
    fn clone(&self) -> (r: Self)
        ensures
            r == *self,
    {
        match self {
            PaymentMethodsData::Card(c) => PaymentMethodsData::Card(c.clone()),
            PaymentMethodsData::BankDetails => PaymentMethodsData::BankDetails,
            PaymentMethodsData::WalletDetails => PaymentMethodsData::WalletDetails,
            PaymentMethodsData::NetworkToken(t) => PaymentMethodsData::NetworkToken(t.clone()),
        }
    }
}

/// One connector's record of a token it holds for a mandate.
#[derive(Debug)]
pub struct ConnectorTokenReferenceRecord {
    pub connector_token: String,
    pub payment_method_subtype: Option<String>,
    pub original_payment_authorized_amount: Option<u64>,
    pub original_payment_authorized_currency: Option<Currency>,
    pub metadata: Option<String>,
    pub connector_token_status: ConnectorTokenStatus,
    pub connector_token_request_reference_id: Option<String>,
}

impl Clone for ConnectorTokenReferenceRecord {
    fn clone(&self) -> (r: Self)
        ensures
            r == *self,
    {
        ConnectorTokenReferenceRecord {
            connector_token: self.connector_token.clone(),
            payment_method_subtype: self.payment_method_subtype.clone(),
            original_payment_authorized_amount: self.original_payment_authorized_amount,
            original_payment_authorized_currency: self.original_payment_authorized_currency,
            metadata: self.metadata.clone(),
            connector_token_status: self.connector_token_status,
            connector_token_request_reference_id: self.connector_token_request_reference_id.clone(),
        }
    }
}

/// The per-connector mandate references of a payment method, keyed by the
/// connector account.
#[derive(Debug)]
pub struct CommonMandateReference {
    pub payments: Option<Vec<(String, ConnectorTokenReferenceRecord)>>,
}

/// A token minted for exactly one payment.
#[derive(Debug)]
pub struct SingleUsePaymentMethodToken {
    pub merchant_connector_id: String,
    pub token: String,
}

impl Clone for SingleUsePaymentMethodToken {
    fn clone(&self) -> (r: Self)
        ensures
            r == *self,
    {
        SingleUsePaymentMethodToken {
            merchant_connector_id: self.merchant_connector_id.clone(),
            token: self.token.clone(),
        }
    }
}

/// A stored payment method with everything the response builders read.
#[derive(Debug)]
pub struct PaymentMethodRecord {
    pub id: String,
    pub customer_id: CustomerId,
    pub merchant_id: MerchantId,
    pub payment_method_type: Option<PaymentMethodType>,
    pub payment_method_subtype: Option<String>,
    pub scheme: Option<String>,
    pub issuer_country: Option<String>,
    pub payment_method_data: Option<PaymentMethodsData>,
    pub network_token_payment_method_data: Option<PaymentMethodsData>,
    pub connector_mandate_details: Option<CommonMandateReference>,
    pub payment_method_billing_address: Option<Address>,
    pub created_at: u64,
    pub last_used_at: u64,
}

impl PaymentMethodRecord {
    pub fn get_payment_method_type(&self) -> (r: Option<PaymentMethodType>)
        ensures
            r == self.payment_method_type,
    {
        self.payment_method_type
    }

    pub fn get_payment_method_subtype(&self) -> (r: Option<String>)
        ensures
            r == self.payment_method_subtype,
    {
        self.payment_method_subtype.clone()
    }
}

impl CardDetailFromLocker {
    /// Reshape stored card details into the locker's response shape.
    pub fn from_stored(card: CardDetailsPaymentMethod) -> (r: Self)
        ensures
            r == spec_card_from_stored(card),
    {
        CardDetailFromLocker {
            scheme: None,
            issuer_country: card.issuer_country,
            last4_digits: card.last4_digits,
            card_number: None,
            expiry_month: card.expiry_month,
            expiry_year: card.expiry_year,
            card_token: None,
            card_fingerprint: None,
            card_holder_name: card.card_holder_name,
            nick_name: card.nick_name,
            card_isin: card.card_isin,
            card_issuer: card.card_issuer,
            card_network: card.card_network,
            card_type: card.card_type,
            saved_to_locker: card.saved_to_locker,
        }
    }
}

/// Stored card details reshaped into the locker's response shape.
pub open spec fn spec_card_from_stored(card: CardDetailsPaymentMethod) -> CardDetailFromLocker {
    CardDetailFromLocker {
        scheme: None,
        issuer_country: card.issuer_country,
        last4_digits: card.last4_digits,
        card_number: None,
        expiry_month: card.expiry_month,
        expiry_year: card.expiry_year,
        card_token: None,
        card_fingerprint: None,
        card_holder_name: card.card_holder_name,
        nick_name: card.nick_name,
        card_isin: card.card_isin,
        card_issuer: card.card_issuer,
        card_network: card.card_network,
        card_type: card.card_type,
        saved_to_locker: card.saved_to_locker,
    }
}

/// Card data in a payment-method listing.
#[derive(Debug)]
pub enum PaymentMethodListData {
    Card(CardDetailFromLocker),
}

/// Network-token data in a payment-method response.
#[derive(Debug)]
pub struct NetworkTokenResponse {
    pub payment_method_data: NetworkTokenDetailsPaymentMethod,
}

/// Card data in a payment-method response.
#[derive(Debug)]
pub enum PaymentMethodResponseData {
    Card(CardDetailFromLocker),
}

/// One connector token as a response carries it.
#[derive(Debug)]
pub struct ConnectorTokenDetails {
    pub connector_id: String,
    pub status: ConnectorTokenStatus,
    pub connector_token_request_reference_id: Option<String>,
    pub original_payment_authorized_amount: Option<u64>,
    pub original_payment_authorized_currency: Option<Currency>,
    pub metadata: Option<String>,
    pub token: String,
    pub token_type: TokenizationType,
}

impl ConnectorTokenDetails {
    /// Reshape a stored connector token record, keyed by its connector,
    /// into the response shape; a token derived from a payments mandate
    /// reference is always multi-use.
    pub fn foreign_from(connector_id: String, record: ConnectorTokenReferenceRecord) -> (r: Self)
        ensures
            r == spec_connector_token_details(connector_id, record),
    {
        let ConnectorTokenReferenceRecord {
            connector_token_request_reference_id,
            original_payment_authorized_amount,
            original_payment_authorized_currency,
            metadata,
            connector_token,
            connector_token_status,
            ..
        } = record;

        ConnectorTokenDetails {
            connector_id,
            status: connector_token_status,
            connector_token_request_reference_id,
            original_payment_authorized_amount,
            original_payment_authorized_currency,
            metadata,
            token: connector_token,
            token_type: TokenizationType::MultiUse,
        }
    }

    /// Reshape a single-use token into the response shape: always active,
    /// single-use, with nothing recorded of a prior payment.
    pub fn foreign_from_single_use_token(token: &SingleUsePaymentMethodToken) -> (r: Self)
        ensures
            r == spec_connector_token_details_single_use(*token),
    {
        ConnectorTokenDetails {
            connector_id: token.merchant_connector_id.clone(),
            token_type: TokenizationType::SingleUse,
            status: ConnectorTokenStatus::Active,
            connector_token_request_reference_id: None,
            original_payment_authorized_amount: None,
            original_payment_authorized_currency: None,
            metadata: None,
            token: token.token.clone(),
        }
    }
}

impl ConnectorTokenReferenceRecord {
    /// Reshape a response-side connector token back into the stored record
    /// shape; the response does not carry the record's payment-method
    /// subtype, so none is recorded.
    pub fn foreign_from(item: ConnectorTokenDetails) -> (r: Self)
        ensures
            r == (ConnectorTokenReferenceRecord {
                connector_token: item.token,
                payment_method_subtype: None,
                original_payment_authorized_amount: item.original_payment_authorized_amount,
                original_payment_authorized_currency: item.original_payment_authorized_currency,
                metadata: item.metadata,
                connector_token_status: item.status,
                connector_token_request_reference_id: item.connector_token_request_reference_id,
            }),
    {
        let ConnectorTokenDetails {
            status,
            connector_token_request_reference_id,
            original_payment_authorized_amount,
            original_payment_authorized_currency,
            metadata,
            token,
            ..
        } = item;

        ConnectorTokenReferenceRecord {
            connector_token: token,
            payment_method_subtype: None,
            original_payment_authorized_amount,
            original_payment_authorized_currency,
            metadata,
            connector_token_status: status,
            connector_token_request_reference_id,
        }
    }
}

/// A stored connector token record in the response shape.
pub open spec fn spec_connector_token_details(
    connector_id: String,
    record: ConnectorTokenReferenceRecord,
) -> ConnectorTokenDetails {
    ConnectorTokenDetails {
        connector_id,
        status: record.connector_token_status,
        connector_token_request_reference_id: record.connector_token_request_reference_id,
        original_payment_authorized_amount: record.original_payment_authorized_amount,
        original_payment_authorized_currency: record.original_payment_authorized_currency,
        metadata: record.metadata,
        token: record.connector_token,
        token_type: TokenizationType::MultiUse,
    }
}

/// A single-use token in the response shape.
pub open spec fn spec_connector_token_details_single_use(
    token: SingleUsePaymentMethodToken,
) -> ConnectorTokenDetails {
    ConnectorTokenDetails {
        connector_id: token.merchant_connector_id,
        token_type: TokenizationType::SingleUse,
        status: ConnectorTokenStatus::Active,
        connector_token_request_reference_id: None,
        original_payment_authorized_amount: None,
        original_payment_authorized_currency: None,
        metadata: None,
        token: token.token,
    }
}

/// The full payment-method response.
#[derive(Debug)]
pub struct PaymentMethodResponse {
    pub merchant_id: MerchantId,
    pub customer_id: CustomerId,
    pub id: String,
    pub payment_method_type: Option<PaymentMethodType>,
    pub payment_method_subtype: Option<String>,
    pub created: Option<u64>,
    pub recurring_enabled: Option<bool>,
    pub last_used_at: Option<u64>,
    pub payment_method_data: Option<PaymentMethodResponseData>,
    pub connector_tokens: Option<Vec<ConnectorTokenDetails>>,
    pub network_token: Option<NetworkTokenResponse>,
}

/// The card payload of a response, when the stored data is card data.
pub open spec fn spec_response_card_data(data: Option<PaymentMethodsData>) -> Option<
    PaymentMethodResponseData,
> {
    match data {
        Some(PaymentMethodsData::Card(card)) => Some(
            PaymentMethodResponseData::Card(spec_card_from_stored(card)),
        ),
        _ => None,
    }
}

/// The network-token payload of a response, when one is stored.
pub open spec fn spec_response_network_token(data: Option<PaymentMethodsData>) -> Option<
    NetworkTokenResponse,
> {
    match data {
        Some(PaymentMethodsData::NetworkToken(token)) => Some(
            NetworkTokenResponse { payment_method_data: token },
        ),
        _ => None,
    }
}

/// The stored mandate references of a record, in order, in the response
/// shape.
pub open spec fn spec_stored_tokens(details: Option<CommonMandateReference>) -> Seq<
    ConnectorTokenDetails,
> {
    match details {
        Some(d) => match d.payments {
            Some(v) => v@.map_values(
                |p: (String, ConnectorTokenReferenceRecord)| spec_connector_token_details(
                    p.0,
                    p.1,
                ),
            ),
            None => Seq::empty(),
        },
        None => Seq::empty(),
    }
}

/// The connector tokens of a response: the stored mandate references in
/// order, then the single-use token if one was minted; absent when there
/// are none at all.
pub open spec fn spec_response_connector_tokens(
    details: Option<CommonMandateReference>,
    single_use: Option<SingleUsePaymentMethodToken>,
) -> Option<Seq<ConnectorTokenDetails>> {
    let stored: Seq<ConnectorTokenDetails> = spec_stored_tokens(details);
    let with_single: Seq<ConnectorTokenDetails> = match single_use {
        Some(t) => stored.push(spec_connector_token_details_single_use(t)),
        None => stored,
    };
    if with_single.len() == 0 {
        None
    } else {
        Some(with_single)
    }
}

/// Build the payment-method response from a stored record and an optional
/// just-minted single-use token.
pub fn generate_payment_method_response(
    payment_method: &PaymentMethodRecord,
    single_use_token: &Option<SingleUsePaymentMethodToken>,
) -> (r: Result<PaymentMethodResponse, ApiErrorResponse>)
    ensures
        r is Ok,
        ({
            let resp = r->Ok_0;
            &&& resp.merchant_id == payment_method.merchant_id
            &&& resp.customer_id == payment_method.customer_id
            &&& resp.id == payment_method.id
            &&& resp.payment_method_type == payment_method.payment_method_type
            &&& resp.payment_method_subtype == payment_method.payment_method_subtype
            &&& resp.created == Some(payment_method.created_at)
            &&& resp.recurring_enabled == Some(false)
            &&& resp.last_used_at == Some(payment_method.last_used_at)
            &&& resp.payment_method_data == spec_response_card_data(
                payment_method.payment_method_data,
            )
            &&& (match resp.connector_tokens {
                Some(v) => spec_response_connector_tokens(
                    payment_method.connector_mandate_details,
                    *single_use_token,
                ) == Some(v@),
                None => spec_response_connector_tokens(
                    payment_method.connector_mandate_details,
                    *single_use_token,
                ) is None,
            })
            &&& resp.network_token == (match spec_response_network_token(
                payment_method.network_token_payment_method_data,
            ) {
                Some(t) => Some(t),
                None => None,
            })
        }),
{
    let pmd = match &payment_method.payment_method_data {
        Some(PaymentMethodsData::Card(card)) => Some(
            PaymentMethodResponseData::Card(CardDetailFromLocker::from_stored(card.clone())),
        ),
        _ => None,
    };

    let mut connector_tokens: Vec<ConnectorTokenDetails> = Vec::new();
    let ghost expected_stored = spec_stored_tokens(payment_method.connector_mandate_details);
    match &payment_method.connector_mandate_details {
        Some(details) => {
            match &details.payments {
                Some(payment_token_details) => {
                    let n = payment_token_details.len();
                    for i in 0..n
                        invariant
                            n == payment_token_details@.len(),
                            payment_method.connector_mandate_details matches Some(d)
                                && d.payments matches Some(v) && v@ == payment_token_details@,
                            expected_stored == payment_token_details@.map_values(
                                |p: (String, ConnectorTokenReferenceRecord)|
                                    spec_connector_token_details(p.0, p.1),
                            ),
                            connector_tokens@.len() == i,
                            forall|j: int|
                                0 <= j < i ==> connector_tokens@[j] == expected_stored[j],
                    {
                        let entry = &payment_token_details[i];
                        connector_tokens.push(
                            ConnectorTokenDetails::foreign_from(entry.0.clone(), entry.1.clone()),
                        );
                    }
                },
                None => {},
            }
        },
        None => {},
    }
    proof {
        assert(connector_tokens@ =~= expected_stored);
    }

    match single_use_token {
        Some(token) => {
            let connector_token_single_use = ConnectorTokenDetails::foreign_from_single_use_token(
                token,
            );
            connector_tokens.push(connector_token_single_use);
        },
        None => {},
    }
    let connector_tokens = if connector_tokens.is_empty() {
        None
    } else {
        Some(connector_tokens)
    };

    let network_token = match &payment_method.network_token_payment_method_data {
        Some(PaymentMethodsData::NetworkToken(token)) => Some(
            NetworkTokenResponse { payment_method_data: token.clone() },
        ),
        _ => None,
    };

    let resp = PaymentMethodResponse {
        merchant_id: payment_method.merchant_id.clone(),
        customer_id: payment_method.customer_id.clone(),
        id: payment_method.id.clone(),
        payment_method_type: payment_method.get_payment_method_type(),
        payment_method_subtype: payment_method.get_payment_method_subtype(),
        created: Some(payment_method.created_at),
        recurring_enabled: Some(false),
        last_used_at: Some(payment_method.last_used_at),
        payment_method_data: pmd,
        connector_tokens,
        network_token,
    };

    Ok(resp)
}

/// One entry of a customer's payment-method listing.
#[derive(Debug)]
pub struct CustomerPaymentMethodResponseItem {
    pub id: String,
    pub customer_id: CustomerId,
    pub payment_method_type: PaymentMethodType,
    pub payment_method_subtype: String,
    pub created: u64,
    pub last_used_at: u64,
    pub recurring_enabled: bool,
    pub payment_method_data: Option<PaymentMethodListData>,
    pub bank: Option<String>,
    pub requires_cvv: bool,
    pub is_default: bool,
    pub billing: Option<Address>,
    pub payment_token: String,
}

impl CustomerPaymentMethodResponseItem {
    /// Build a listing entry from a stored record and the token handed to
    /// the customer. An active record is owed its type and subtype; bank
    /// and wallet payloads are not carried here.
    pub fn foreign_try_from(item: PaymentMethodRecord, payment_token: String) -> (r: Result<
        Self,
        ApiErrorResponse,
    >)
        requires
            !(item.payment_method_data matches Some(PaymentMethodsData::BankDetails)),
            !(item.payment_method_data matches Some(PaymentMethodsData::WalletDetails)),
        ensures
            r is Ok <==> item.payment_method_subtype is Some && item.payment_method_type is Some,
            item.payment_method_subtype is None ==> r is Err && r->Err_0@
                == (crate::errors::SpecApiError::MissingRequiredField {
                field: "payment_method_subtype"@,
            }),
            item.payment_method_subtype is Some && item.payment_method_type is None ==> r is Err
                && r->Err_0@ == (crate::errors::SpecApiError::MissingRequiredField {
                field: "payment_method_type"@,
            }),
            r is Ok ==> ({
                let resp = r->Ok_0;
                &&& resp.id == item.id
                &&& resp.customer_id == item.customer_id
                &&& resp.payment_method_type == item.payment_method_type->0
                &&& resp.payment_method_subtype == item.payment_method_subtype->0
                &&& resp.created == item.created_at
                &&& resp.last_used_at == item.last_used_at
                &&& resp.recurring_enabled
                &&& resp.payment_method_data == (match item.payment_method_data {
                    Some(PaymentMethodsData::Card(card)) => Some(
                        PaymentMethodListData::Card(spec_card_from_stored(card)),
                    ),
                    _ => None,
                })
                &&& resp.bank is None
                &&& resp.requires_cvv
                &&& !resp.is_default
                &&& resp.billing == item.payment_method_billing_address
                &&& resp.payment_token == payment_token
            }),
    {
        let payment_method_subtype = match item.payment_method_subtype {
            Some(s) => s,
            None => {
                return Err(
                    ApiErrorResponse::MissingRequiredField {
                        field: "payment_method_subtype".to_owned(),
                    },
                );
            },
        };

        let payment_method_type = match item.payment_method_type {
            Some(t) => t,
            None => {
                return Err(
                    ApiErrorResponse::MissingRequiredField {
                        field: "payment_method_type".to_owned(),
                    },
                );
            },
        };

        let payment_method_data = match item.payment_method_data {
            Some(PaymentMethodsData::Card(card)) => Some(
                PaymentMethodListData::Card(CardDetailFromLocker::from_stored(card)),
            ),
            _ => None,
        };

        let payment_method_billing = item.payment_method_billing_address;

        let recurring_enabled = true;

        Ok(
            Self {
                id: item.id,
                customer_id: item.customer_id,
                payment_method_type,
                payment_method_subtype,
                created: item.created_at,
                last_used_at: item.last_used_at,
                recurring_enabled,
                payment_method_data,
                bank: None,
                requires_cvv: true,
                is_default: false,
                billing: payment_method_billing,
                payment_token,
            },
        )
    }
}

/// One entry of a merchant's payment-method listing.
#[derive(Debug)]
pub struct PaymentMethodResponseItem {
    pub id: String,
    pub customer_id: CustomerId,
    pub payment_method_type: PaymentMethodType,
    pub payment_method_subtype: String,
    pub created: u64,
    pub last_used_at: u64,
    pub recurring_enabled: Option<bool>,
    pub payment_method_data: Option<PaymentMethodListData>,
    pub bank: Option<String>,
    pub requires_cvv: bool,
    pub is_default: bool,
    pub billing: Option<Address>,
    pub network_tokenization: Option<NetworkTokenResponse>,
    pub psp_tokenization_enabled: bool,
}

/// Some stored connector token of the record is active.
pub open spec fn spec_any_active_token(details: Option<CommonMandateReference>) -> bool {
    match details {
        Some(d) => match d.payments {
            Some(v) => exists|j: int|
                0 <= j < v@.len() && (#[trigger] v@[j].1).connector_token_status
                    == ConnectorTokenStatus::Active,
            None => false,
        },
        None => false,
    }
}

impl PaymentMethodResponseItem {
    /// Build a listing entry from a stored record. An active record is
    /// owed its type and subtype; bank and wallet payloads are not carried
    /// here.
    pub fn foreign_try_from(item: PaymentMethodRecord) -> (r: Result<Self, ApiErrorResponse>)
        requires
            !(item.payment_method_data matches Some(PaymentMethodsData::BankDetails)),
            !(item.payment_method_data matches Some(PaymentMethodsData::WalletDetails)),
        ensures
            r is Ok <==> item.payment_method_subtype is Some && item.payment_method_type is Some,
            item.payment_method_subtype is None ==> r is Err && r->Err_0@
                == (crate::errors::SpecApiError::MissingRequiredField {
                field: "payment_method_subtype"@,
            }),
            item.payment_method_subtype is Some && item.payment_method_type is None ==> r is Err
                && r->Err_0@ == (crate::errors::SpecApiError::MissingRequiredField {
                field: "payment_method_type"@,
            }),
            r is Ok ==> ({
                let resp = r->Ok_0;
                &&& resp.id == item.id
                &&& resp.customer_id == item.customer_id
                &&& resp.payment_method_type == item.payment_method_type->0
                &&& resp.payment_method_subtype == item.payment_method_subtype->0
                &&& resp.created == item.created_at
                &&& resp.last_used_at == item.last_used_at
                &&& resp.recurring_enabled == Some(true)
                &&& resp.payment_method_data == (match item.payment_method_data {
                    Some(PaymentMethodsData::Card(card)) => Some(
                        PaymentMethodListData::Card(spec_card_from_stored(card)),
                    ),
                    _ => None,
                })
                &&& resp.bank is None
                &&& resp.requires_cvv
                &&& !resp.is_default
                &&& resp.billing == item.payment_method_billing_address
                &&& resp.network_tokenization == (match item.network_token_payment_method_data {
                    Some(PaymentMethodsData::NetworkToken(token)) => Some(
                        NetworkTokenResponse { payment_method_data: token },
                    ),
                    _ => None,
                })
                &&& resp.psp_tokenization_enabled == spec_any_active_token(
                    item.connector_mandate_details,
                )
            }),
    {
        let payment_method_subtype = match item.payment_method_subtype {
            Some(s) => s,
            None => {
                return Err(
                    ApiErrorResponse::MissingRequiredField {
                        field: "payment_method_subtype".to_owned(),
                    },
                );
            },
        };

        let payment_method_type = match item.payment_method_type {
            Some(t) => t,
            None => {
                return Err(
                    ApiErrorResponse::MissingRequiredField {
                        field: "payment_method_type".to_owned(),
                    },
                );
            },
        };

        let payment_method_data = match item.payment_method_data {
            Some(PaymentMethodsData::Card(card)) => Some(
                PaymentMethodListData::Card(CardDetailFromLocker::from_stored(card)),
            ),
            _ => None,
        };

        let payment_method_billing = item.payment_method_billing_address;

        let network_token_resp = match item.network_token_payment_method_data {
            Some(PaymentMethodsData::NetworkToken(token)) => Some(
                NetworkTokenResponse { payment_method_data: token },
            ),
            _ => None,
        };

        let recurring_enabled = Some(true);

        let mut psp_tokenization_enabled = false;
        match &item.connector_mandate_details {
            Some(details) => {
                match &details.payments {
                    Some(payments_map) => {
                        let n = payments_map.len();
                        for i in 0..n
                            invariant
                                n == payments_map@.len(),
                                psp_tokenization_enabled <==> (exists|j: int|
                                    0 <= j < i && (#[trigger] payments_map@[j].1).connector_token_status
                                        == ConnectorTokenStatus::Active),
                        {
                            if matches!(
                                payments_map[i].1.connector_token_status,
                                ConnectorTokenStatus::Active
                            ) {
                                psp_tokenization_enabled = true;
                            }
                        }
                    },
                    None => {},
                }
            },
            None => {},
        }

        Ok(
            Self {
                id: item.id,
                customer_id: item.customer_id,
                payment_method_type,
                payment_method_subtype,
                created: item.created_at,
                last_used_at: item.last_used_at,
                recurring_enabled,
                payment_method_data,
                bank: None,
                requires_cvv: true,
                is_default: false,
                billing: payment_method_billing,
                network_tokenization: network_token_resp,
                psp_tokenization_enabled,
            },
        )
    }
}


/// One payment-method session as the session store keeps it.
#[derive(Debug)]
pub struct PaymentMethodSession {
    pub id: String,
    pub customer_id: CustomerId,
    pub billing: Option<Address>,
    pub psp_tokenization: Option<String>,
    pub network_tokenization: Option<String>,
    pub tokenization_data: Option<String>,
    pub expires_at: u64,
    pub return_url: Option<String>,
    pub associated_payment_methods: Option<Vec<String>>,
}

/// The slice of a payment's response the session response reads.
#[derive(Debug)]
pub struct AssociatedPaymentResponse {
    pub status: crate::enums::IntentStatus,
    pub error: Option<String>,
    pub next_action: Option<String>,
}

impl Clone for AssociatedPaymentResponse {
    fn clone(&self) -> (r: Self)
        ensures
            r == *self,
    {
        AssociatedPaymentResponse {
            status: self.status,
            error: self.error.clone(),
            next_action: self.next_action.clone(),
        }
    }
}

/// What the tokenization service answered, when it was called.
#[derive(Debug)]
pub struct GenericTokenizationResponse {
    pub id: String,
}

/// The authentication outcome of the payment a session drove.
#[derive(Debug, PartialEq)]
pub struct AuthenticationDetails {
    pub status: crate::enums::IntentStatus,
    pub error: Option<String>,
}

/// The response of a payment-method session.
#[derive(Debug)]
pub struct PaymentMethodSessionResponse {
    pub id: String,
    pub customer_id: CustomerId,
    pub billing: Option<Address>,
    pub psp_tokenization: Option<String>,
    pub network_tokenization: Option<String>,
    pub tokenization_data: Option<String>,
    pub expires_at: u64,
    pub client_secret: String,
    pub next_action: Option<String>,
    pub return_url: Option<String>,
    pub associated_payment_methods: Option<Vec<String>>,
    pub authentication_details: Option<AuthenticationDetails>,
    pub associated_token_id: Option<String>,
}

/// Build the session response: the session's own fields, the associated
/// payment's next action and authentication outcome when one ran, and the
/// token the tokenization service minted when it was called.
pub fn generate_payment_method_session_response(
    payment_method_session: PaymentMethodSession,
    client_secret: String,
    associated_payment: Option<AssociatedPaymentResponse>,
    tokenization_service_response: Option<GenericTokenizationResponse>,
) -> (r: PaymentMethodSessionResponse)
    ensures
        r.id == payment_method_session.id,
        r.customer_id == payment_method_session.customer_id,
        r.billing == payment_method_session.billing,
        r.psp_tokenization == payment_method_session.psp_tokenization,
        r.network_tokenization == payment_method_session.network_tokenization,
        r.tokenization_data == payment_method_session.tokenization_data,
        r.expires_at == payment_method_session.expires_at,
        r.client_secret == client_secret,
        r.next_action == (match associated_payment {
            Some(p) => p.next_action,
            None => None,
        }),
        r.return_url == payment_method_session.return_url,
        r.associated_payment_methods == payment_method_session.associated_payment_methods,
        r.authentication_details == (match associated_payment {
            Some(p) => Some(AuthenticationDetails { status: p.status, error: p.error }),
            None => None,
        }),
        r.associated_token_id == (match tokenization_service_response {
            Some(t) => Some(t.id),
            None => None,
        }),
{
    let next_action = match &associated_payment {
        Some(payment) => payment.next_action.clone(),
        None => None,
    };

    let authentication_details = match associated_payment {
        Some(payment) => Some(
            AuthenticationDetails { status: payment.status, error: payment.error },
        ),
        None => None,
    };

    let token_id = match tokenization_service_response {
        Some(resp) => Some(resp.id),
        None => None,
    };

    PaymentMethodSessionResponse {
        id: payment_method_session.id,
        customer_id: payment_method_session.customer_id,
        billing: payment_method_session.billing,
        psp_tokenization: payment_method_session.psp_tokenization,
        network_tokenization: payment_method_session.network_tokenization,
        tokenization_data: payment_method_session.tokenization_data,
        expires_at: payment_method_session.expires_at,
        client_secret,
        next_action,
        return_url: payment_method_session.return_url,
        associated_payment_methods: payment_method_session.associated_payment_methods,
        authentication_details,
        associated_token_id: token_id,
    }
}

} // verus!
