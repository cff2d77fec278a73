use payment_router::card::{Card, CardDetail, CardNumber};
use payment_router::create::{create_payment_intent, PaymentsCreateRequest};
use payment_router::enums::{Currency, IntentStatus, MerchantStorageScheme, PaymentMethodType};
use payment_router::ids::{AttemptId, CustomerId, MerchantId, PaymentId, ProfileId};
use payment_router::payment_methods::{
    generate_payment_method_response, generate_payment_method_session_response,
    AssociatedPaymentResponse, CardDetailsPaymentMethod, CommonMandateReference,
    ConnectorTokenDetails, ConnectorTokenReferenceRecord, ConnectorTokenStatus,
    CustomerPaymentMethodResponseItem, GenericTokenizationResponse, PaymentMethodListData,
    PaymentMethodRecord, PaymentMethodResponseItem, PaymentMethodSession, PaymentMethodsData,
    SingleUsePaymentMethodToken, TokenizationType,
};
use payment_router::records::MerchantAccount;
use payment_router::store::Store;
use payment_router::transformers::{
    generate_pm_vaulting_req_from_update_request, get_card_detail, mk_add_card_response_hs,
    mk_card_value1, mk_card_value2, mk_delete_card_response, mk_get_card_response,
    AddCardResponse, CardDetailUpdate, DeleteCardResponse, GetCardResponse, PaymentMethodCreate,
    PaymentMethodUpdateData, PaymentMethodVaultingData, StoreCardReq, StoreLockerReq,
};

fn valid_card_number() -> CardNumber {
    CardNumber::try_new(String::from("4111111111111111")).unwrap()
}

fn base_record(subtype: Option<&str>, kind: Option<PaymentMethodType>) -> PaymentMethodRecord {
    PaymentMethodRecord {
        id: String::from("pm_1"),
        customer_id: CustomerId(String::from("cust_1")),
        merchant_id: MerchantId(String::from("m_1")),
        payment_method_type: kind,
        payment_method_subtype: subtype.map(String::from),
        scheme: Some(String::from("visa")),
        issuer_country: Some(String::from("US")),
        payment_method_data: Some(PaymentMethodsData::Card(CardDetailsPaymentMethod {
            last4_digits: Some(String::from("1111")),
            issuer_country: Some(String::from("US")),
            expiry_month: Some(String::from("03")),
            expiry_year: Some(String::from("2030")),
            card_holder_name: Some(String::from("Ada")),
            nick_name: None,
            card_isin: Some(String::from("411111")),
            card_issuer: None,
            card_network: Some(String::from("Visa")),
            card_type: Some(String::from("credit")),
            saved_to_locker: true,
        })),
        network_token_payment_method_data: None,
        connector_mandate_details: None,
        payment_method_billing_address: None,
        created_at: 1700000000,
        last_used_at: 1700000100,
    }
}

#[test]
fn card_number_validation_accepts_a_valid_number() {
    let number = valid_card_number();
    assert_eq!(number.peek(), "4111111111111111");
    assert_eq!(number.get_last4(), "1111");
    assert_eq!(number.get_card_isin(), "411111");
}

#[test]
fn card_number_validation_rejects_bad_checksum_and_shape() {
    assert!(CardNumber::try_new(String::from("4111111111111112")).is_err());
    assert!(CardNumber::try_new(String::from("41111111111")).is_err());
    assert!(CardNumber::try_new(String::from("41111111x1111111")).is_err());
    assert!(CardNumber::try_new(String::from("4293189100000008")).is_ok());
    assert!(CardNumber::try_new(String::from("370000000000002")).is_ok());
}

#[test]
fn delete_card_response_drops_error_fields() {
    let response = mk_delete_card_response(DeleteCardResponse {
        card_id: Some(String::from("card_1")),
        external_id: Some(String::from("ext_1")),
        card_isin: None,
        status: String::from("Ok"),
    })
    .unwrap();
    assert_eq!(response.status, "Ok");
    assert!(response.error_code.is_none());
    assert!(response.error_message.is_none());
}

#[test]
fn get_card_response_requires_number_and_expiry() {
    let card = mk_get_card_response(GetCardResponse {
        card: AddCardResponse {
            card_id: String::from("card_1"),
            external_id: String::from("ext_1"),
            card_fingerprint: String::from("fp"),
            card_global_fingerprint: String::from("gfp"),
            merchant_id: None,
            card_number: Some(valid_card_number()),
            card_exp_year: Some(String::from("2030")),
            card_exp_month: Some(String::from("03")),
            name_on_card: Some(String::from("Ada")),
            nickname: None,
            customer_id: None,
            duplicate: None,
        },
    })
    .unwrap();
    assert_eq!(card.card_number.peek(), "4111111111111111");
    assert_eq!(card.card_exp_month, "03");
    assert_eq!(card.card_exp_year, "2030");
    assert!(card.card_brand.is_none());

    let missing = mk_get_card_response(GetCardResponse {
        card: AddCardResponse {
            card_id: String::from("card_1"),
            external_id: String::from("ext_1"),
            card_fingerprint: String::from("fp"),
            card_global_fingerprint: String::from("gfp"),
            merchant_id: None,
            card_number: None,
            card_exp_year: Some(String::from("2030")),
            card_exp_month: Some(String::from("03")),
            name_on_card: None,
            nickname: None,
            customer_id: None,
            duplicate: None,
        },
    });
    assert!(missing.is_err());
}

#[test]
fn get_card_detail_fills_scheme_from_the_stored_method() {
    let record = base_record(Some("credit"), Some(PaymentMethodType::Card));
    let detail = get_card_detail(
        &record,
        Card {
            card_number: valid_card_number(),
            name_on_card: Some(String::from("Ada")),
            card_exp_month: String::from("03"),
            card_exp_year: String::from("2030"),
            card_brand: None,
            card_isin: None,
            nick_name: None,
        },
    )
    .unwrap();
    assert_eq!(detail.scheme, Some(String::from("visa")));
    assert_eq!(detail.issuer_country, Some(String::from("US")));
    assert_eq!(detail.last4_digits, Some(String::from("1111")));
    assert!(detail.saved_to_locker);
}

#[test]
fn add_card_response_reshapes_the_card() {
    let response = mk_add_card_response_hs(
        CardDetail {
            card_number: valid_card_number(),
            card_exp_month: String::from("03"),
            card_exp_year: String::from("2030"),
            card_holder_name: Some(String::from("Ada")),
            nick_name: None,
            card_issuing_country: Some(String::from("US")),
            card_network: Some(String::from("Visa")),
            card_issuer: None,
            card_type: None,
            card_cvc: Some(String::from("737")),
        },
        String::from("card_ref_1"),
        PaymentMethodCreate {
            customer_id: Some(CustomerId(String::from("cust_1"))),
            payment_method: Some(PaymentMethodType::Card),
            payment_method_type: Some(String::from("credit")),
            metadata: None,
            client_secret: None,
        },
        &MerchantId(String::from("m_1")),
        1700000000,
    );
    assert_eq!(response.payment_method_id, "card_ref_1");
    assert_eq!(response.merchant_id.0, "m_1");
    let card = response.card.unwrap();
    assert_eq!(card.last4_digits, Some(String::from("1111")));
    assert_eq!(card.card_isin, Some(String::from("411111")));
    assert_eq!(card.scheme, Some(String::from("Visa")));
    assert!(card.saved_to_locker);
    assert_eq!(response.recurring_enabled, Some(false));
    assert_eq!(response.installment_payment_enabled, Some(false));
    assert_eq!(response.created, Some(1700000000));
}

#[test]
fn vaulting_update_overwrites_only_given_fields_and_drops_cvc() {
    let merged = generate_pm_vaulting_req_from_update_request(
        PaymentMethodVaultingData::Card(CardDetail {
            card_number: valid_card_number(),
            card_exp_month: String::from("03"),
            card_exp_year: String::from("2030"),
            card_holder_name: Some(String::from("Ada")),
            nick_name: Some(String::from("work card")),
            card_issuing_country: None,
            card_network: None,
            card_issuer: None,
            card_type: None,
            card_cvc: Some(String::from("737")),
        }),
        PaymentMethodUpdateData::Card(CardDetailUpdate {
            card_holder_name: Some(String::from("Grace")),
            nick_name: None,
        }),
    );
    match merged {
        PaymentMethodVaultingData::Card(card) => {
            assert_eq!(card.card_holder_name, Some(String::from("Grace")));
            assert_eq!(card.nick_name, Some(String::from("work card")));
            assert!(card.card_cvc.is_none());
            assert_eq!(card.card_exp_month, "03");
        }
        other => panic!("unexpected variant {:?}", other),
    }
}

#[test]
fn update_requestor_card_reference_touches_only_card_requests() {
    let mut req = StoreLockerReq::LockerCard(StoreCardReq {
        merchant_id: MerchantId(String::from("m_1")),
        merchant_customer_id: CustomerId(String::from("cust_1")),
        requestor_card_reference: None,
        card: Card {
            card_number: valid_card_number(),
            name_on_card: None,
            card_exp_month: String::from("03"),
            card_exp_year: String::from("2030"),
            card_brand: None,
            card_isin: None,
            nick_name: None,
        },
        ttl: 900,
    });
    req.update_requestor_card_reference(Some(String::from("card_ref_9")));
    match req {
        StoreLockerReq::LockerCard(c) => {
            assert_eq!(c.requestor_card_reference, Some(String::from("card_ref_9")));
        }
        other => panic!("unexpected variant {:?}", other),
    }
}

#[test]
fn card_values_encode_their_json() {
    let value1 = mk_card_value1(
        valid_card_number(),
        String::from("2030"),
        String::from("03"),
        Some(String::from("Ada")),
        None,
        Some(String::from("1111")),
        None,
    )
    .unwrap();
    assert_eq!(
        value1,
        "{\"card_number\":\"4111111111111111\",\"exp_year\":\"2030\",\"exp_month\":\"03\",\"name_on_card\":\"Ada\",\"nickname\":null,\"card_last_four\":\"1111\",\"card_token\":null}"
    );

    let value2 = mk_card_value2(
        Some(String::from("737")),
        None,
        None,
        Some(CustomerId(String::from("cust_1"))),
        None,
    )
    .unwrap();
    assert_eq!(
        value2,
        "{\"card_security_code\":\"737\",\"card_fingerprint\":null,\"external_id\":null,\"customer_id\":\"cust_1\",\"payment_method_id\":null}"
    );
}

#[test]
fn payment_method_response_collects_connector_tokens() {
    let mut record = base_record(Some("credit"), Some(PaymentMethodType::Card));
    record.connector_mandate_details = Some(CommonMandateReference {
        payments: Some(vec![(
            String::from("mca_1"),
            ConnectorTokenReferenceRecord {
                connector_token: String::from("tok_1"),
                payment_method_subtype: None,
                original_payment_authorized_amount: Some(1000),
                original_payment_authorized_currency: Some(Currency::Usd),
                metadata: None,
                connector_token_status: ConnectorTokenStatus::Active,
                connector_token_request_reference_id: None,
            },
        )]),
    });
    let single_use = Some(SingleUsePaymentMethodToken {
        merchant_connector_id: String::from("mca_2"),
        token: String::from("tok_single"),
    });

    let response = generate_payment_method_response(&record, &single_use).unwrap();
    assert_eq!(response.id, "pm_1");
    assert_eq!(response.created, Some(1700000000));
    let tokens: Vec<ConnectorTokenDetails> = response.connector_tokens.unwrap();
    assert_eq!(tokens.len(), 2);
    assert_eq!(tokens[0].connector_id, "mca_1");
    assert_eq!(tokens[0].token, "tok_1");
    assert_eq!(tokens[0].token_type, TokenizationType::MultiUse);
    assert_eq!(tokens[1].connector_id, "mca_2");
    assert_eq!(tokens[1].token, "tok_single");
    assert_eq!(tokens[1].token_type, TokenizationType::SingleUse);
    match response.payment_method_data.unwrap() {
        payment_router::payment_methods::PaymentMethodResponseData::Card(card) => {
            assert_eq!(card.last4_digits, Some(String::from("1111")));
        }
    }
}

#[test]
fn listing_item_requires_type_and_subtype() {
    let complete = base_record(Some("credit"), Some(PaymentMethodType::Card));
    let item =
        CustomerPaymentMethodResponseItem::foreign_try_from(complete, String::from("token_1"))
            .unwrap();
    assert_eq!(item.payment_method_subtype, "credit");
    assert_eq!(item.payment_token, "token_1");
    assert!(item.recurring_enabled);
    match item.payment_method_data.unwrap() {
        PaymentMethodListData::Card(card) => {
            assert_eq!(card.expiry_year, Some(String::from("2030")));
        }
    }

    let missing_subtype = base_record(None, Some(PaymentMethodType::Card));
    let err = CustomerPaymentMethodResponseItem::foreign_try_from(
        missing_subtype,
        String::from("token_1"),
    )
    .unwrap_err();
    match err {
        payment_router::errors::ApiErrorResponse::MissingRequiredField { field } => {
            assert_eq!(field, "payment_method_subtype");
        }
        other => panic!("unexpected error {:?}", other),
    }

    let missing_type = base_record(Some("credit"), None);
    assert!(PaymentMethodResponseItem::foreign_try_from(missing_type).is_err());
}

#[test]
fn merchant_listing_item_reports_active_psp_tokenization() {
    let mut record = base_record(Some("credit"), Some(PaymentMethodType::Card));
    record.connector_mandate_details = Some(CommonMandateReference {
        payments: Some(vec![
            (
                String::from("mca_1"),
                ConnectorTokenReferenceRecord {
                    connector_token: String::from("tok_1"),
                    payment_method_subtype: None,
                    original_payment_authorized_amount: None,
                    original_payment_authorized_currency: None,
                    metadata: None,
                    connector_token_status: ConnectorTokenStatus::Inactive,
                    connector_token_request_reference_id: None,
                },
            ),
            (
                String::from("mca_2"),
                ConnectorTokenReferenceRecord {
                    connector_token: String::from("tok_2"),
                    payment_method_subtype: None,
                    original_payment_authorized_amount: None,
                    original_payment_authorized_currency: None,
                    metadata: None,
                    connector_token_status: ConnectorTokenStatus::Active,
                    connector_token_request_reference_id: None,
                },
            ),
        ]),
    });
    let item = PaymentMethodResponseItem::foreign_try_from(record).unwrap();
    assert!(item.psp_tokenization_enabled);
    assert_eq!(item.recurring_enabled, Some(true));
}

#[test]
fn payment_intent_create_is_idempotent() {
    let mut store = Store::new();
    let account = MerchantAccount {
        merchant_id: MerchantId(String::from("m_1")),
        storage_scheme: MerchantStorageScheme::PostgresOnly,
    };
    let request = PaymentsCreateRequest {
        payment_id: PaymentId(String::from("pay_new")),
        currency: Some(Currency::Eur),
        profile_id: Some(ProfileId(String::from("prof_1"))),
        active_attempt_id: AttemptId(String::from("att_1")),
    };
    let first = create_payment_intent(&mut store, &account, &request).unwrap();
    assert_eq!(first.status, IntentStatus::RequiresConfirmation);
    assert_eq!(store.intents.len(), 1);

    let second = create_payment_intent(&mut store, &account, &request).unwrap();
    assert_eq!(second.status, IntentStatus::RequiresConfirmation);
    assert_eq!(second.payment_id.0, "pay_new");
    assert_eq!(second.currency, Some(Currency::Eur));
    // still exactly one intent, and the original row is what came back
    assert_eq!(store.intents.len(), 1);
}

#[test]
fn session_response_carries_payment_outcome_and_token() {
    let session = PaymentMethodSession {
        id: String::from("pms_1"),
        customer_id: CustomerId(String::from("cust_1")),
        billing: None,
        psp_tokenization: None,
        network_tokenization: None,
        tokenization_data: None,
        expires_at: 1700001000,
        return_url: Some(String::from("https://merchant.example.com/done")),
        associated_payment_methods: None,
    };
    let response = generate_payment_method_session_response(
        session,
        String::from("secret_1"),
        Some(AssociatedPaymentResponse {
            status: IntentStatus::Failed,
            error: Some(String::from("declined")),
            next_action: Some(String::from("retry")),
        }),
        Some(GenericTokenizationResponse { id: String::from("tok_9") }),
    );
    assert_eq!(response.id, "pms_1");
    assert_eq!(response.client_secret, "secret_1");
    assert_eq!(response.next_action, Some(String::from("retry")));
    let auth = response.authentication_details.unwrap();
    assert_eq!(auth.status, IntentStatus::Failed);
    assert_eq!(auth.error, Some(String::from("declined")));
    assert_eq!(response.associated_token_id, Some(String::from("tok_9")));
    assert_eq!(response.expires_at, 1700001000);
}

#[test]
fn connector_token_conversions_round_trip_the_shared_fields() {
    let details = ConnectorTokenDetails {
        connector_id: String::from("mca_1"),
        status: ConnectorTokenStatus::Active,
        connector_token_request_reference_id: Some(String::from("ref_1")),
        original_payment_authorized_amount: Some(1000),
        original_payment_authorized_currency: Some(Currency::Usd),
        metadata: None,
        token: String::from("tok_1"),
        token_type: TokenizationType::SingleUse,
    };
    let record = ConnectorTokenReferenceRecord::foreign_from(details);
    assert_eq!(record.connector_token, "tok_1");
    assert_eq!(record.connector_token_status, ConnectorTokenStatus::Active);
    assert_eq!(
        record.connector_token_request_reference_id,
        Some(String::from("ref_1"))
    );
    assert_eq!(record.original_payment_authorized_amount, Some(1000));
    assert!(record.payment_method_subtype.is_none());

    // back to the response shape: a mandate-derived token is multi-use
    let back = ConnectorTokenDetails::foreign_from(String::from("mca_1"), record);
    assert_eq!(back.token, "tok_1");
    assert_eq!(back.connector_id, "mca_1");
    assert_eq!(back.token_type, TokenizationType::MultiUse);
}
