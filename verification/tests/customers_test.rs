use payment_router::customers::{
    create_customer, delete_customer, retrieve_customer, update_customer, CustomerIdRequest,
    CustomerRequest,
};
use payment_router::enums::{
    MandateStatus, MerchantStorageScheme, PaymentMethodType,
};
use payment_router::errors::ErrorKind;
use payment_router::ids::{CustomerId, MerchantId};
use payment_router::records::{Address, Customer, Mandate, MerchantAccount, PaymentMethod};
use payment_router::store::Store;

fn merchant(merchant_id: &str) -> MerchantAccount {
    MerchantAccount {
        merchant_id: MerchantId(String::from(merchant_id)),
        storage_scheme: MerchantStorageScheme::PostgresOnly,
    }
}

fn customer_request(customer_id: &str, name: &str) -> CustomerRequest {
    CustomerRequest {
        customer_id: CustomerId(String::from(customer_id)),
        name: Some(String::from(name)),
        email: Some(String::from("payer@example.com")),
        phone: None,
        description: None,
        phone_country_code: None,
        metadata: None,
    }
}

#[test]
fn create_customer_twice_returns_identical_payload_and_one_row() {
    let mut store = Store::new();
    let account = merchant("m_1");

    let first = create_customer(&mut store, &account, customer_request("cust_1", "Ada")).unwrap();
    let second = create_customer(&mut store, &account, customer_request("cust_1", "Grace"))
        .unwrap();

    // the retried create returns the original record unchanged
    assert_eq!(first.customer_id.0, "cust_1");
    assert_eq!(second.customer_id.0, "cust_1");
    assert_eq!(second.name, Some(String::from("Ada")));
    assert_eq!(first.name, second.name);
    assert_eq!(first.email, second.email);

    // exactly one row exists in storage
    assert_eq!(store.customers.len(), 1);
}

#[test]
fn retrieve_customer_round_trips_the_created_row() {
    let mut store = Store::new();
    let account = merchant("m_1");
    create_customer(&mut store, &account, customer_request("cust_2", "Ada")).unwrap();

    let fetched = retrieve_customer(
        &store,
        &account,
        CustomerIdRequest { customer_id: CustomerId(String::from("cust_2")) },
    )
    .unwrap();
    assert_eq!(fetched.customer_id.0, "cust_2");
    assert_eq!(fetched.name, Some(String::from("Ada")));
}

#[test]
fn retrieve_missing_customer_reports_not_found() {
    let store = Store::new();
    let account = merchant("m_1");
    let err = retrieve_customer(
        &store,
        &account,
        CustomerIdRequest { customer_id: CustomerId(String::from("cust_none")) },
    )
    .unwrap_err();
    assert_eq!(err.kind(), ErrorKind::NotFound);
}

#[test]
fn update_customer_overwrites_only_given_fields() {
    let mut store = Store::new();
    let account = merchant("m_1");
    create_customer(&mut store, &account, customer_request("cust_3", "Ada")).unwrap();

    let updated = update_customer(
        &mut store,
        &account,
        CustomerRequest {
            customer_id: CustomerId(String::from("cust_3")),
            name: Some(String::from("Grace")),
            email: None,
            phone: None,
            description: None,
            phone_country_code: None,
            metadata: None,
        },
    )
    .unwrap();
    assert_eq!(updated.name, Some(String::from("Grace")));
    // the untouched field keeps its stored value
    assert_eq!(updated.email, Some(String::from("payer@example.com")));
}

#[test]
fn update_missing_customer_reports_not_found() {
    let mut store = Store::new();
    let account = merchant("m_1");
    let err = update_customer(&mut store, &account, customer_request("cust_none", "Ada"))
        .unwrap_err();
    assert_eq!(err.kind(), ErrorKind::NotFound);
}

#[test]
fn delete_customer_redacts_and_hands_back_card_references() {
    let mut store = Store::new();
    let account = merchant("m_1");
    create_customer(&mut store, &account, customer_request("cust_4", "Ada")).unwrap();
    store
        .insert_address(Address {
            address_id: String::from("addr_1"),
            customer_id: Some(CustomerId(String::from("cust_4"))),
            merchant_id: MerchantId(String::from("m_1")),
            city: Some(String::from("Lisbon")),
            country: Some(String::from("PT")),
            line1: None,
            line2: None,
            line3: None,
            state: None,
            zip: None,
            first_name: None,
            last_name: None,
            phone_number: None,
            country_code: None,
        })
        .unwrap();
    store
        .insert_payment_method(PaymentMethod {
            payment_method_id: String::from("pm_card_1"),
            customer_id: CustomerId(String::from("cust_4")),
            merchant_id: MerchantId(String::from("m_1")),
            payment_method: PaymentMethodType::Card,
        })
        .unwrap();
    store
        .insert_payment_method(PaymentMethod {
            payment_method_id: String::from("pm_wallet_1"),
            customer_id: CustomerId(String::from("cust_4")),
            merchant_id: MerchantId(String::from("m_1")),
            payment_method: PaymentMethodType::Wallet,
        })
        .unwrap();
    store
        .insert_payment_method(PaymentMethod {
            payment_method_id: String::from("pm_other_customer"),
            customer_id: CustomerId(String::from("cust_other")),
            merchant_id: MerchantId(String::from("m_1")),
            payment_method: PaymentMethodType::Card,
        })
        .unwrap();

    let (response, card_references) = delete_customer(
        &mut store,
        &account,
        CustomerIdRequest { customer_id: CustomerId(String::from("cust_4")) },
    )
    .unwrap();

    assert_eq!(response.customer_id.0, "cust_4");
    assert!(response.customer_deleted);
    assert!(response.address_deleted);
    assert!(response.payment_methods_deleted);

    // only the customer's card needs a vault purge
    assert_eq!(card_references, vec![String::from("pm_card_1")]);

    // the customer's payment methods are gone, the other customer's kept
    assert_eq!(store.payment_methods.len(), 1);
    assert_eq!(store.payment_methods[0].payment_method_id, "pm_other_customer");

    // the address and the customer row carry the redaction marker
    assert_eq!(store.addresses[0].city, Some(String::from("Redacted")));
    assert_eq!(store.addresses[0].country, Some(String::from("Redacted")));
    let row: &Customer = &store.customers[0];
    assert_eq!(row.name, Some(String::from("Redacted")));
    assert_eq!(row.email, Some(String::from("Redacted")));
}

#[test]
fn delete_customer_twice_reports_redacted() {
    let mut store = Store::new();
    let account = merchant("m_1");
    create_customer(&mut store, &account, customer_request("cust_5", "Ada")).unwrap();
    delete_customer(
        &mut store,
        &account,
        CustomerIdRequest { customer_id: CustomerId(String::from("cust_5")) },
    )
    .unwrap();
    let err = delete_customer(
        &mut store,
        &account,
        CustomerIdRequest { customer_id: CustomerId(String::from("cust_5")) },
    )
    .unwrap_err();
    assert_eq!(err.kind(), ErrorKind::ValidationError);
}

#[test]
fn delete_customer_with_active_mandate_is_refused() {
    let mut store = Store::new();
    let account = merchant("m_1");
    create_customer(&mut store, &account, customer_request("cust_6", "Ada")).unwrap();
    store
        .insert_mandate(Mandate {
            mandate_id: String::from("man_1"),
            customer_id: CustomerId(String::from("cust_6")),
            merchant_id: MerchantId(String::from("m_1")),
            mandate_status: MandateStatus::Active,
        })
        .unwrap();
    let err = delete_customer(
        &mut store,
        &account,
        CustomerIdRequest { customer_id: CustomerId(String::from("cust_6")) },
    )
    .unwrap_err();
    assert_eq!(err.kind(), ErrorKind::ValidationError);
    // nothing was redacted
    assert_eq!(store.customers[0].name, Some(String::from("Ada")));
}

#[test]
fn delete_missing_customer_reports_not_found() {
    let mut store = Store::new();
    let account = merchant("m_1");
    let err = delete_customer(
        &mut store,
        &account,
        CustomerIdRequest { customer_id: CustomerId(String::from("cust_none")) },
    )
    .unwrap_err();
    assert_eq!(err.kind(), ErrorKind::NotFound);
}
