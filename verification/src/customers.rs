//! Customer lifecycle operations: idempotent creation, retrieval, redaction
//! ("deletion") and update.
//!
//! Creation goes through the idempotent insert resolver: a unique-constraint
//! conflict is recovered by fetching the row the conflict points at, so a
//! retried create returns the original record instead of an error.

use vstd::prelude::*;

use crate::enums::MandateStatus;
use crate::errors::{ApiErrorResponse, SpecApiError, StorageError};
use crate::ids::{CustomerId, MerchantId};
use crate::records::{Customer, CustomerNew, MerchantAccount, SpecCustomer, SpecMerchantAccount};
use crate::store::{SpecStore, Store};
use crate::updates::{AddressUpdate, CustomerUpdate, spec_apply_customer_update};

verus! {

/// View of a [`CustomerRequest`].
pub struct SpecCustomerRequest {
    pub customer_id: Seq<char>,
    pub name: Option<Seq<char>>,
    pub email: Option<Seq<char>>,
    pub phone: Option<Seq<char>>,
    pub description: Option<Seq<char>>,
    pub phone_country_code: Option<Seq<char>>,
    pub metadata: Option<Seq<char>>,
}

/// Inbound request to create or update a customer.
#[derive(Debug)]
pub struct CustomerRequest {
    pub customer_id: CustomerId,
    pub name: Option<String>,
    pub email: Option<String>,
    pub phone: Option<String>,
    pub description: Option<String>,
    pub phone_country_code: Option<String>,
    pub metadata: Option<String>,
}

impl View for CustomerRequest {
    type V = SpecCustomerRequest;

    open spec fn view(&self) -> SpecCustomerRequest {
        SpecCustomerRequest {
            customer_id: self.customer_id@,
            name: self.name.deep_view(),
            email: self.email.deep_view(),
            phone: self.phone.deep_view(),
            description: self.description.deep_view(),
            phone_country_code: self.phone_country_code.deep_view(),
            metadata: self.metadata.deep_view(),
        }
    }
}

/// View of a [`CustomerResponse`].
pub struct SpecCustomerResponse {
    pub customer_id: Seq<char>,
    pub name: Option<Seq<char>>,
    pub email: Option<Seq<char>>,
    pub phone: Option<Seq<char>>,
    pub description: Option<Seq<char>>,
    pub phone_country_code: Option<Seq<char>>,
    pub metadata: Option<Seq<char>>,
}

/// The customer payload handed back to the caller.
#[derive(Debug)]
pub struct CustomerResponse {
    pub customer_id: CustomerId,
    pub name: Option<String>,
    pub email: Option<String>,
    pub phone: Option<String>,
    pub description: Option<String>,
    pub phone_country_code: Option<String>,
    pub metadata: Option<String>,
}

impl View for CustomerResponse {
    type V = SpecCustomerResponse;

    open spec fn view(&self) -> SpecCustomerResponse {
        SpecCustomerResponse {
            customer_id: self.customer_id@,
            name: self.name.deep_view(),
            email: self.email.deep_view(),
            phone: self.phone.deep_view(),
            description: self.description.deep_view(),
            phone_country_code: self.phone_country_code.deep_view(),
            metadata: self.metadata.deep_view(),
        }
    }
}

/// What a customer row looks like as a response payload.
pub open spec fn spec_customer_response(c: SpecCustomer) -> SpecCustomerResponse {
    SpecCustomerResponse {
        customer_id: c.customer_id,
        name: c.name,
        email: c.email,
        phone: c.phone,
        description: c.description,
        phone_country_code: c.phone_country_code,
        metadata: c.metadata,
    }
}

fn customer_response_of(c: Customer) -> (r: CustomerResponse)
    ensures
        r@ == spec_customer_response(c@),
{
    CustomerResponse {
        customer_id: c.customer_id,
        name: c.name,
        email: c.email,
        phone: c.phone,
        description: c.description,
        phone_country_code: c.phone_country_code,
        metadata: c.metadata,
    }
}

/// Request naming one customer.
#[derive(Debug)]
pub struct CustomerIdRequest {
    pub customer_id: CustomerId,
}

/// View of a [`CustomerDeleteResponse`].
pub struct SpecCustomerDeleteResponse {
    pub customer_id: Seq<char>,
    pub customer_deleted: bool,
    pub address_deleted: bool,
    pub payment_methods_deleted: bool,
}

/// What the redaction flow reports back.
#[derive(Debug)]
pub struct CustomerDeleteResponse {
    pub customer_id: CustomerId,
    pub customer_deleted: bool,
    pub address_deleted: bool,
    pub payment_methods_deleted: bool,
}

impl View for CustomerDeleteResponse {
    type V = SpecCustomerDeleteResponse;

    open spec fn view(&self) -> SpecCustomerDeleteResponse {
        SpecCustomerDeleteResponse {
            customer_id: self.customer_id@,
            customer_deleted: self.customer_deleted,
            address_deleted: self.address_deleted,
            payment_methods_deleted: self.payment_methods_deleted,
        }
    }
}

/// The idempotent insert resolver for customer rows: insert, and on a
/// unique-constraint conflict fetch and return the pre-existing row by its
/// natural key; any other storage outcome is an internal error.
pub fn insert_customer_or_fetch(store: &mut Store, new: CustomerNew) -> (r: Result<
    Customer,
    ApiErrorResponse,
>)
    requires
        old(store)@.wf(),
    ensures
        final(store)@.wf(),
        SpecStore::same_but_customers(old(store)@, final(store)@),
        r is Ok,
        old(store)@.has_customer(new@.customer_id, new@.merchant_id) ==> final(store)@ == old(
            store,
        )@ && r->Ok_0@ == old(store)@.customer_at(new@.customer_id, new@.merchant_id),
        !old(store)@.has_customer(new@.customer_id, new@.merchant_id) ==> final(store)@.customers
            == old(store)@.customers.push(new@) && r->Ok_0@ == new@,
        final(store)@.has_customer(new@.customer_id, new@.merchant_id),
{
    let customer_id = new.customer_id.clone();
    let merchant_id = new.merchant_id.clone();
    match store.insert_customer(new) {
        Ok(customer) => Ok(customer),
        Err(StorageError::UniqueViolation) => {
            match store.find_customer_by_customer_id_merchant_id(&customer_id, &merchant_id) {
                Some(existing) => Ok(existing),
                None => Err(ApiErrorResponse::InternalServerError),
            }
        },
        Err(_) => Err(ApiErrorResponse::InternalServerError),
    }
}

/// What creating a customer does: the store it leaves and the payload it
/// returns. A create against a taken natural key returns the pre-existing
/// row unchanged.
pub open spec fn spec_create_customer(
    store: SpecStore,
    merchant: SpecMerchantAccount,
    req: SpecCustomerRequest,
) -> (SpecStore, Result<SpecCustomerResponse, SpecApiError>) {
    let new = SpecCustomer {
        customer_id: req.customer_id,
        merchant_id: merchant.merchant_id,
        name: req.name,
        email: req.email,
        phone: req.phone,
        description: req.description,
        phone_country_code: req.phone_country_code,
        metadata: req.metadata,
    };
    if store.has_customer(req.customer_id, merchant.merchant_id) {
        (store, Ok(spec_customer_response(store.customer_at(req.customer_id, merchant.merchant_id))))
    } else {
        (
            SpecStore { customers: store.customers.push(new), ..store },
            Ok(spec_customer_response(new)),
        )
    }
}

/// Create a customer under this merchant; idempotent in its natural key.
pub fn create_customer(
    store: &mut Store,
    merchant_account: &MerchantAccount,
    customer_data: CustomerRequest,
) -> (r: Result<CustomerResponse, ApiErrorResponse>)
    requires
        old(store)@.wf(),
    ensures
        final(store)@.wf(),
        ({
            let (s, res) = spec_create_customer(old(store)@, merchant_account@, customer_data@);
            &&& final(store)@ == s
            &&& r is Ok <==> res is Ok
            &&& r is Ok ==> r->Ok_0@ == res->Ok_0
        }),
{
    let customer_id = customer_data.customer_id.clone();
    let merchant_id = merchant_account.merchant_id.clone();

    let new_customer = CustomerNew {
        customer_id,
        merchant_id,
        name: customer_data.name,
        email: customer_data.email,
        phone: customer_data.phone,
        description: customer_data.description,
        phone_country_code: customer_data.phone_country_code,
        metadata: customer_data.metadata,
    };

    let customer = match insert_customer_or_fetch(store, new_customer) {
        Ok(c) => c,
        Err(e) => { return Err(e); },
    };

    Ok(customer_response_of(customer))
}

/// Load one customer; fails with `CustomerNotFound` when no row exists for
/// the merchant.
pub fn retrieve_customer(
    store: &Store,
    merchant_account: &MerchantAccount,
    req: CustomerIdRequest,
) -> (r: Result<CustomerResponse, ApiErrorResponse>)
    requires
        store@.wf(),
    ensures
        r is Ok <==> store@.has_customer(req.customer_id@, merchant_account@.merchant_id),
        r is Ok ==> r->Ok_0@ == spec_customer_response(
            store@.customer_at(req.customer_id@, merchant_account@.merchant_id),
        ),
        r is Err ==> r->Err_0@ == SpecApiError::CustomerNotFound,
{
    match store.find_customer_by_customer_id_merchant_id(
        &req.customer_id,
        &merchant_account.merchant_id,
    ) {
        Some(c) => Ok(customer_response_of(c)),
        None => Err(ApiErrorResponse::CustomerNotFound),
    }
}

/// Update one customer through an update statement built from the request;
/// fails with `CustomerNotFound` when no row exists.
pub fn update_customer(
    store: &mut Store,
    merchant_account: &MerchantAccount,
    update_request: CustomerRequest,
) -> (r: Result<CustomerResponse, ApiErrorResponse>)
    requires
        old(store)@.wf(),
    ensures
        final(store)@.wf(),
        SpecStore::same_but_customers(old(store)@, final(store)@),
        r is Ok <==> old(store)@.has_customer(
            update_request@.customer_id,
            merchant_account@.merchant_id,
        ),
        r is Ok ==> ({
            let updated = spec_apply_customer_update(
                old(store)@.customer_at(update_request@.customer_id, merchant_account@.merchant_id),
                crate::updates::SpecCustomerUpdate::Update {
                    name: update_request@.name,
                    email: update_request@.email,
                    phone: update_request@.phone,
                    description: update_request@.description,
                    phone_country_code: update_request@.phone_country_code,
                    metadata: update_request@.metadata,
                },
            );
            &&& r->Ok_0@ == spec_customer_response(updated)
            &&& final(store)@.customers == old(store)@.customers.update(
                old(store)@.customer_index(
                    update_request@.customer_id,
                    merchant_account@.merchant_id,
                ),
                updated,
            )
        }),
        r is Err ==> r->Err_0@ == SpecApiError::CustomerNotFound && final(store)@ == old(store)@,
{
    let response = match store.update_customer_by_customer_id_merchant_id(
        update_request.customer_id.clone(),
        merchant_account.merchant_id.clone(),
        CustomerUpdate::Update {
            name: update_request.name,
            email: update_request.email,
            phone: update_request.phone,
            description: update_request.description,
            phone_country_code: update_request.phone_country_code,
            metadata: update_request.metadata,
        },
    ) {
        Ok(c) => c,
        Err(_) => { return Err(ApiErrorResponse::CustomerNotFound); },
    };

    Ok(customer_response_of(response))
}

/// Creating a customer is idempotent: a second create with the same natural
/// key leaves the store exactly as the first left it, and both calls return
/// the same payload. With well-formedness this also means the store holds
/// exactly one row with that key.
pub proof fn lemma_create_customer_idempotent(
    store: SpecStore,
    merchant: SpecMerchantAccount,
    req: SpecCustomerRequest,
)
    requires
        store.wf(),
    ensures
        ({
            let (s1, r1) = spec_create_customer(store, merchant, req);
            let (s2, r2) = spec_create_customer(s1, merchant, req);
            &&& s1.has_customer(req.customer_id, merchant.merchant_id)
            &&& s2 == s1
            &&& r2 == r1
        }),
{
    let (s1, r1) = spec_create_customer(store, merchant, req);
    let new = SpecCustomer {
        customer_id: req.customer_id,
        merchant_id: merchant.merchant_id,
        name: req.name,
        email: req.email,
        phone: req.phone,
        description: req.description,
        phone_country_code: req.phone_country_code,
        metadata: req.metadata,
    };
    if !store.has_customer(req.customer_id, merchant.merchant_id) {
        crate::store::lemma_match_index_is(
            s1.customers,
            SpecStore::customer_pred(req.customer_id, merchant.merchant_id),
            store.customers.len() as int,
        );
    } else {
        let idx = store.customer_index(req.customer_id, merchant.merchant_id);
        crate::store::lemma_match_index_is(
            store.customers,
            SpecStore::customer_pred(req.customer_id, merchant.merchant_id),
            idx,
        );
    }
}

/// The redaction flow: a customer that is gone is reported, an already
/// redacted one is refused, an active mandate blocks redaction, and
/// otherwise every stored payment method of the customer is removed, every
/// address row and the customer row are overwritten with the redaction
/// marker, and the card references that were removed are handed back for
/// the caller to purge from the vault.
#[verifier::rlimit(100)]
pub fn delete_customer(
    store: &mut Store,
    merchant_account: &MerchantAccount,
    req: CustomerIdRequest,
) -> (r: Result<(CustomerDeleteResponse, Vec<String>), ApiErrorResponse>)
    requires
        old(store)@.wf(),
    ensures
        final(store)@.wf(),
        ({
            let cid = req.customer_id@;
            let mid = merchant_account@.merchant_id;
            &&& (!old(store)@.has_customer(cid, mid) ==> r is Err && r->Err_0@
                == SpecApiError::CustomerNotFound && final(store)@ == old(store)@)
            &&& (old(store)@.has_customer(cid, mid) && old(store)@.customer_at(cid, mid).name
                == Some("Redacted"@) ==> r is Err && r->Err_0@ == SpecApiError::CustomerRedacted
                && final(store)@ == old(store)@)
            &&& (old(store)@.has_customer(cid, mid) && old(store)@.customer_at(cid, mid).name
                != Some("Redacted"@) && (exists|k: int|
                0 <= k < old(store)@.mandates.len() && #[trigger] old(store)@.mandates[k].customer_id
                    == cid && old(store)@.mandates[k].merchant_id == mid
                    && old(store)@.mandates[k].mandate_status == MandateStatus::Active) ==> r is Err
                && r->Err_0@ == SpecApiError::MandateActive && final(store)@ == old(store)@)
            // on the inputs the redaction flow is for, success is owed
            &&& (old(store)@.has_customer(cid, mid) && old(store)@.customer_at(cid, mid).name
                != Some("Redacted"@) && !(exists|k: int|
                0 <= k < old(store)@.mandates.len() && #[trigger] old(store)@.mandates[k].customer_id
                    == cid && old(store)@.mandates[k].merchant_id == mid
                    && old(store)@.mandates[k].mandate_status == MandateStatus::Active) ==> r is Ok)
            &&& (r is Ok ==> ({
                // no stored payment method of the customer remains, and
                // nothing else was removed or invented
                &&& (forall|k: int|
                    0 <= k < final(store)@.payment_methods.len() ==> !(
                    #[trigger] final(store)@.payment_methods[k].customer_id == cid
                        && final(store)@.payment_methods[k].merchant_id == mid))
                &&& (forall|k: int|
                    0 <= k < old(store)@.payment_methods.len() && !(
                    #[trigger] old(store)@.payment_methods[k].customer_id == cid
                        && old(store)@.payment_methods[k].merchant_id == mid)
                        ==> final(store)@.payment_methods.contains(old(store)@.payment_methods[k]))
                &&& (forall|k: int|
                    0 <= k < final(store)@.payment_methods.len()
                        ==> old(store)@.payment_methods.contains(
                        #[trigger] final(store)@.payment_methods[k]))
                // every address row of the customer carries the redaction
                // marker, every other address row is untouched
                &&& final(store)@.addresses.len() == old(store)@.addresses.len()
                &&& (forall|k: int|
                    0 <= k < old(store)@.addresses.len() ==> #[trigger] final(store)@.addresses[k]
                        == (if old(store)@.addresses[k].customer_id == Some(cid)
                        && old(store)@.addresses[k].merchant_id == mid {
                        crate::updates::spec_apply_address_update(
                            old(store)@.addresses[k],
                            spec_redaction_address_update(),
                        )
                    } else {
                        old(store)@.addresses[k]
                    }))
                // the customer row itself is redacted
                &&& final(store)@.has_customer(cid, mid)
                &&& final(store)@.customer_at(cid, mid) == spec_apply_customer_update(
                    old(store)@.customer_at(cid, mid),
                    spec_redaction_customer_update(),
                )
                // untouched tables
                &&& final(store)@.intents == old(store)@.intents
                &&& final(store)@.attempts == old(store)@.attempts
                &&& final(store)@.profiles == old(store)@.profiles
                &&& final(store)@.fraud_checks == old(store)@.fraud_checks
                &&& final(store)@.mandates == old(store)@.mandates
                // the response and the card references handed back
                &&& r->Ok_0.0@.customer_id == cid
                &&& r->Ok_0.0@.customer_deleted
                &&& r->Ok_0.0@.address_deleted
                &&& r->Ok_0.0@.payment_methods_deleted
                &&& r->Ok_0.1.deep_view() == old(store)@.payment_methods.filter(
                    |p: crate::records::SpecPaymentMethod| p.customer_id == cid && p.merchant_id
                        == mid && p.payment_method == crate::enums::PaymentMethodType::Card,
                ).map_values(|p: crate::records::SpecPaymentMethod| p.payment_method_id)
            }))
        }),
{
    let cid = req.customer_id;
    let merchant_id = &merchant_account.merchant_id;

    let cust = match store.find_customer_by_customer_id_merchant_id(&cid, merchant_id) {
        Some(c) => c,
        None => { return Err(ApiErrorResponse::CustomerNotFound); },
    };
    let redacted_marker = redacted();
    let name_redacted = match &cust.name {
        Some(n) => *n == redacted_marker,
        None => false,
    };
    if name_redacted {
        return Err(ApiErrorResponse::CustomerRedacted);
    }

    let customer_mandates = store.find_mandate_by_merchant_id_customer_id(merchant_id, &cid);
    let ghost mandate_pred = |m: crate::records::SpecMandate| m.customer_id == cid@
        && m.merchant_id == merchant_id@;
    let n_mandates = customer_mandates.len();
    let mut active_found = false;
    for i in 0..n_mandates
        invariant
            n_mandates == customer_mandates.len(),
            store@ == old(store)@,
            active_found <==> (exists|k: int|
                0 <= k < i && #[trigger] customer_mandates.deep_view()[k].mandate_status
                    == MandateStatus::Active),
    {
        if matches!(customer_mandates[i].mandate_status, MandateStatus::Active) {
            active_found = true;
            proof {
                assert(customer_mandates.deep_view()[i as int].mandate_status
                    == MandateStatus::Active);
            }
        }
    }
    if active_found {
        proof {
            lemma_filter_subset(store@.mandates, mandate_pred);
            broadcast use vstd::seq_lib::group_filter_ensures;

            let fs = store@.mandates.filter(mandate_pred);
            let i = choose|k: int|
                0 <= k < n_mandates && customer_mandates.deep_view()[k].mandate_status
                    == MandateStatus::Active;
            assert(fs[i] == customer_mandates.deep_view()[i]);
            assert(mandate_pred(fs[i]));
            assert(fs.contains(fs[i])) by {
                assert(fs[i] == fs[i]);
                assert(exists|j: int| 0 <= j < fs.len() && fs[j] == fs[i]);
            }
            assert(store@.mandates.contains(fs[i]));
            let j = choose|j: int| 0 <= j < store@.mandates.len() && store@.mandates[j] == fs[i];
            assert(store@.mandates[j].customer_id == cid@ && store@.mandates[j].merchant_id
                == merchant_id@ && store@.mandates[j].mandate_status == MandateStatus::Active);
        }
        return Err(ApiErrorResponse::MandateActive);
    }
    proof {
        broadcast use vstd::seq_lib::group_filter_ensures;

        assert forall|k: int|
            0 <= k < store@.mandates.len() && #[trigger] store@.mandates[k].customer_id == cid@
                && store@.mandates[k].merchant_id == merchant_id@ implies
            store@.mandates[k].mandate_status != MandateStatus::Active by {
            assert(mandate_pred(store@.mandates[k]));
            assert(store@.mandates.filter(mandate_pred).contains(store@.mandates[k]));
            let j = choose|j: int|
                0 <= j < store@.mandates.filter(mandate_pred).len() && store@.mandates.filter(
                    mandate_pred,
                )[j] == store@.mandates[k];
            assert(customer_mandates.deep_view()[j].mandate_status != MandateStatus::Active);
        }
    }

    let ghost pre = store@;
    let customer_payment_methods = store.find_payment_method_by_customer_id_merchant_id_list(
        &cid,
        merchant_id,
    );
    let ghost pm_pred = |p: crate::records::SpecPaymentMethod| p.customer_id == cid@
        && p.merchant_id == merchant_id@;
    let ghost card_pred = |p: crate::records::SpecPaymentMethod| p.payment_method
        == crate::enums::PaymentMethodType::Card;
    let ghost pm_list = customer_payment_methods.deep_view();
    let mut card_references: Vec<String> = Vec::new();
    let n_pms = customer_payment_methods.len();
    proof {
        lemma_filter_subset(pre.payment_methods, pm_pred);
        broadcast use vstd::seq_lib::group_filter_ensures;

        assert(pm_list.subrange(0, 0) =~= Seq::<crate::records::SpecPaymentMethod>::empty());
        reveal(Seq::filter);
        // at the start every stored row of the customer is named in the list
        assert forall|k: int|
            0 <= k < store@.payment_methods.len() && pm_pred(#[trigger] store@.payment_methods[k])
                implies (exists|j: int|
            0 <= j < n_pms && pm_list[j].payment_method_id
                == store@.payment_methods[k].payment_method_id) by {
            assert(pm_list.contains(store@.payment_methods[k]));
            let j = choose|j: int| 0 <= j < pm_list.len() && pm_list[j] == store@.payment_methods[k];
        }
    }
    for i in 0..n_pms
        invariant
            n_pms == customer_payment_methods.len(),
            pre.wf(),
            pre == old(store)@,
            pm_pred == (|p: crate::records::SpecPaymentMethod| p.customer_id == cid@
                && p.merchant_id == merchant_id@),
            card_pred == (|p: crate::records::SpecPaymentMethod| p.payment_method
                == crate::enums::PaymentMethodType::Card),
            pm_list == customer_payment_methods.deep_view(),
            pm_list == pre.payment_methods.filter(pm_pred),
            store@.wf(),
            SpecStore::same_but_payment_methods(pre, store@),
            // everything still stored was stored before
            forall|k: int|
                0 <= k < store@.payment_methods.len() ==> pre.payment_methods.contains(
                    #[trigger] store@.payment_methods[k],
                ),
            // rows of other customers are all still stored
            forall|k: int|
                0 <= k < pre.payment_methods.len() && !pm_pred(#[trigger] pre.payment_methods[k])
                    ==> store@.payment_methods.contains(pre.payment_methods[k]),
            // every remaining row of this customer is named in the part of
            // the list not yet processed
            forall|k: int|
                0 <= k < store@.payment_methods.len() && pm_pred(
                    #[trigger] store@.payment_methods[k],
                ) ==> (exists|j: int|
                    i <= j < n_pms && pm_list[j].payment_method_id
                        == store@.payment_methods[k].payment_method_id),
            // the card references collected so far
            card_references.deep_view() == pm_list.subrange(0, i as int).filter(
                card_pred,
            ).map_values(|p: crate::records::SpecPaymentMethod| p.payment_method_id),
    {
        let ghost prefix = pm_list.subrange(0, i as int);
        let ghost prefix1 = pm_list.subrange(0, i as int + 1);
        let pm = &customer_payment_methods[i];
        let ghost cr_pre = card_references.deep_view();
        if matches!(pm.payment_method, crate::enums::PaymentMethodType::Card) {
            card_references.push(pm.payment_method_id.clone());
            proof {
                reveal(Seq::filter);
                assert(prefix1.drop_last() =~= prefix);
                assert(prefix1.last() == pm_list[i as int]);
                assert(card_pred(pm_list[i as int]));
                assert(prefix1.filter(card_pred) == prefix.filter(card_pred).push(
                    pm_list[i as int],
                ));
                assert(card_references.deep_view() =~= cr_pre.push(
                    pm_list[i as int].payment_method_id,
                ));
                assert(card_references.deep_view() =~= prefix1.filter(card_pred).map_values(
                    |p: crate::records::SpecPaymentMethod| p.payment_method_id,
                ));
            }
        } else {
            proof {
                reveal(Seq::filter);
                assert(prefix1.drop_last() =~= prefix);
                assert(prefix1.last() == pm_list[i as int]);
                assert(!card_pred(pm_list[i as int]));
                assert(prefix1.filter(card_pred) == prefix.filter(card_pred));
                assert(card_references.deep_view() =~= prefix1.filter(card_pred).map_values(
                    |p: crate::records::SpecPaymentMethod| p.payment_method_id,
                ));
            }
        }
        let ghost mid_state = store@;
        let ghost listed = pm_list[i as int];
        let delete_result = store.delete_payment_method_by_merchant_id_payment_method_id(
            merchant_id,
            &pm.payment_method_id,
        );
        proof {
            broadcast use vstd::seq_lib::group_filter_ensures;

            lemma_filter_subset(pre.payment_methods, pm_pred);
            assert(pm_pred(listed));
            assert(pm_list.contains(listed)) by {
                assert(pm_list[i as int] == listed);
                assert(exists|j: int| 0 <= j < pm_list.len() && pm_list[j] == listed);
            }
            assert(pre.payment_methods.contains(listed));
            let d_pred = SpecStore::payment_method_pred(listed.payment_method_id, merchant_id@);

            // after the call no stored row carries the listed identifier
            // under this merchant
            assert forall|k: int|
                0 <= k < store@.payment_methods.len() implies !(
            #[trigger] store@.payment_methods[k].payment_method_id == listed.payment_method_id
                && store@.payment_methods[k].merchant_id == merchant_id@) by {
                if delete_result is Ok {
                    let d_idx = mid_state.payment_method_index(
                        listed.payment_method_id,
                        merchant_id@,
                    );
                    mid_state.payment_methods.remove_ensures(d_idx);
                    let ok = if k < d_idx { k } else { k + 1 };
                    assert(store@.payment_methods[k] == mid_state.payment_methods[ok]);
                    assert(d_pred(mid_state.payment_methods[d_idx]));
                    if ok != d_idx && store@.payment_methods[k].payment_method_id
                        == listed.payment_method_id {
                        // two distinct rows would share an identifier
                        assert(mid_state.payment_methods[ok].payment_method_id
                            == mid_state.payment_methods[d_idx].payment_method_id);
                        assert(false);
                    }
                } else {
                    assert(!mid_state.has_payment_method(listed.payment_method_id, merchant_id@));
                    if store@.payment_methods[k].payment_method_id == listed.payment_method_id
                        && store@.payment_methods[k].merchant_id == merchant_id@ {
                        assert(d_pred(store@.payment_methods[k]));
                        assert(crate::store::has_match(store@.payment_methods, d_pred));
                        assert(false);
                    }
                }
            }

            // everything still stored was stored before the loop
            assert forall|k: int|
                0 <= k < store@.payment_methods.len() implies pre.payment_methods.contains(
                #[trigger] store@.payment_methods[k],
            ) by {
                if delete_result is Ok {
                    let d_idx = mid_state.payment_method_index(
                        listed.payment_method_id,
                        merchant_id@,
                    );
                    mid_state.payment_methods.remove_ensures(d_idx);
                    let ok = if k < d_idx { k } else { k + 1 };
                    assert(store@.payment_methods[k] == mid_state.payment_methods[ok]);
                }
            }

            // rows of other customers survive: such a row never carries the
            // listed identifier, because identifiers are unique and the
            // listed one names a row of this customer
            assert forall|k: int|
                0 <= k < pre.payment_methods.len() && !pm_pred(#[trigger] pre.payment_methods[k])
                    implies store@.payment_methods.contains(pre.payment_methods[k]) by {
                let q = pre.payment_methods[k];
                assert(mid_state.payment_methods.contains(q));
                let mk = choose|mk: int|
                    0 <= mk < mid_state.payment_methods.len() && mid_state.payment_methods[mk] == q;
                if delete_result is Ok {
                    let d_idx = mid_state.payment_method_index(
                        listed.payment_method_id,
                        merchant_id@,
                    );
                    mid_state.payment_methods.remove_ensures(d_idx);
                    assert(d_pred(mid_state.payment_methods[d_idx]));
                    if mk == d_idx {
                        // q would be a second pre row with the listed
                        // identifier
                        let lk = choose|lk: int|
                            0 <= lk < pre.payment_methods.len() && pre.payment_methods[lk]
                                == listed;
                        assert(pre.payment_methods[k].payment_method_id
                            == listed.payment_method_id);
                        if k != lk {
                            assert(pre.payment_methods[k].payment_method_id
                                != pre.payment_methods[lk].payment_method_id);
                        }
                        assert(false);
                    }
                    let nk = if mk < d_idx { mk } else { mk - 1 };
                    assert(store@.payment_methods[nk] == mid_state.payment_methods[mk]);
                }
            }

            // remaining rows of this customer are named later in the list
            assert forall|k: int|
                0 <= k < store@.payment_methods.len() && pm_pred(
                    #[trigger] store@.payment_methods[k],
                ) implies (exists|j: int|
                i + 1 <= j < n_pms && pm_list[j].payment_method_id
                    == store@.payment_methods[k].payment_method_id) by {
                assert(mid_state.payment_methods.contains(store@.payment_methods[k])) by {
                    if delete_result is Ok {
                        let d_idx = mid_state.payment_method_index(
                            listed.payment_method_id,
                            merchant_id@,
                        );
                        mid_state.payment_methods.remove_ensures(d_idx);
                        let ok = if k < d_idx { k } else { k + 1 };
                        assert(store@.payment_methods[k] == mid_state.payment_methods[ok]);
                    }
                }
                let j = choose|j: int|
                    i <= j < n_pms && pm_list[j].payment_method_id
                        == store@.payment_methods[k].payment_method_id;
                if j == i as int {
                    assert(store@.payment_methods[k].payment_method_id
                        == listed.payment_method_id);
                    assert(store@.payment_methods[k].merchant_id == merchant_id@);
                    assert(false);
                }
            }
        }
    }
    proof {
        assert(pm_list.subrange(0, n_pms as int) =~= pm_list);
        // no row of this customer remains: the unprocessed part of the list
        // is empty
        assert forall|k: int|
            0 <= k < store@.payment_methods.len() implies !(
        #[trigger] store@.payment_methods[k].customer_id == cid@
            && store@.payment_methods[k].merchant_id == merchant_id@) by {
            if pm_pred(store@.payment_methods[k]) {
                let j = choose|j: int|
                    n_pms <= j < n_pms && pm_list[j].payment_method_id
                        == store@.payment_methods[k].payment_method_id;
            }
        }
        // the collected card references are those of the customer's card
        // rows, in order
        lemma_filter_compose(
            pre.payment_methods,
            pm_pred,
            card_pred,
            |p: crate::records::SpecPaymentMethod| p.customer_id == cid@ && p.merchant_id
                == merchant_id@ && p.payment_method == crate::enums::PaymentMethodType::Card,
        );
    }

    let update_address = AddressUpdate::Update {
        city: Some(redacted()),
        country: Some(redacted()),
        line1: Some(redacted()),
        line2: Some(redacted()),
        line3: Some(redacted()),
        state: Some(redacted()),
        zip: Some(redacted()),
        first_name: Some(redacted()),
        last_name: Some(redacted()),
        phone_number: Some(redacted()),
        country_code: Some(redacted()),
    };
    store.update_address_by_merchant_id_customer_id(&cid, merchant_id, &update_address);

    let updated_customer = CustomerUpdate::Update {
        name: Some(redacted()),
        email: Some(redacted()),
        phone: Some(redacted()),
        description: Some(redacted()),
        phone_country_code: Some(redacted()),
        metadata: None,
    };
    match store.update_customer_by_customer_id_merchant_id(
        cid.clone(),
        merchant_account.merchant_id.clone(),
        updated_customer,
    ) {
        Ok(_) => {},
        Err(_) => {
            proof {
                // the customer table was never touched, so the row found at
                // the start is still there and the update cannot miss it
                assert(store@.customers == old(store)@.customers);
            }
            return Err(ApiErrorResponse::CustomerNotFound);
        },
    }
    proof {
        let c_idx = old(store)@.customer_index(cid@, merchant_id@);
        crate::store::lemma_match_index_is(
            old(store)@.customers,
            SpecStore::customer_pred(cid@, merchant_id@),
            c_idx,
        );
        crate::store::lemma_match_index_is(
            store@.customers,
            SpecStore::customer_pred(cid@, merchant_id@),
            c_idx,
        );
    }

    let response = CustomerDeleteResponse {
        customer_id: cid,
        customer_deleted: true,
        address_deleted: true,
        payment_methods_deleted: true,
    };
    Ok((response, card_references))
}

/// The marker written over redacted fields.
fn redacted() -> (r: String)
    ensures
        r@ == "Redacted"@,
{
    "Redacted".to_owned()
}

/// The update statement that redacts a customer row.
pub open spec fn spec_redaction_customer_update() -> crate::updates::SpecCustomerUpdate {
    crate::updates::SpecCustomerUpdate::Update {
        name: Some("Redacted"@),
        email: Some("Redacted"@),
        phone: Some("Redacted"@),
        description: Some("Redacted"@),
        phone_country_code: Some("Redacted"@),
        metadata: None,
    }
}

/// The update statement that redacts an address row.
pub open spec fn spec_redaction_address_update() -> crate::updates::SpecAddressUpdate {
    crate::updates::SpecAddressUpdate::Update {
        city: Some("Redacted"@),
        country: Some("Redacted"@),
        line1: Some("Redacted"@),
        line2: Some("Redacted"@),
        line3: Some("Redacted"@),
        state: Some("Redacted"@),
        zip: Some("Redacted"@),
        first_name: Some("Redacted"@),
        last_name: Some("Redacted"@),
        phone_number: Some("Redacted"@),
        country_code: Some("Redacted"@),
    }
}

/// Every element of a filtered sequence is an element of the original.
pub proof fn lemma_filter_subset<T>(s: Seq<T>, p: spec_fn(T) -> bool)
    ensures
        forall|x: T| #[trigger] s.filter(p).contains(x) ==> s.contains(x),
    decreases s.len(),
{
    reveal(Seq::filter);
    if s.len() == 0 {
    } else {
        let prefix = s.drop_last();
        lemma_filter_subset(prefix, p);
        assert forall|x: T| #[trigger] s.filter(p).contains(x) implies s.contains(x) by {
            if prefix.filter(p).contains(x) {
                let j = choose|j: int| 0 <= j < prefix.len() && prefix[j] == x;
                assert(s[j] == x);
            } else {
                assert(x == s.last());
                assert(s[s.len() - 1] == x);
            }
        }
    }
}

/// Filtering by one predicate and then another is filtering by their
/// conjunction.
pub proof fn lemma_filter_compose<T>(
    s: Seq<T>,
    p: spec_fn(T) -> bool,
    q: spec_fn(T) -> bool,
    pq: spec_fn(T) -> bool,
)
    requires
        forall|x: T| #[trigger] pq(x) <==> p(x) && q(x),
    ensures
        s.filter(p).filter(q) =~= s.filter(pq),
    decreases s.len(),
{
    reveal(Seq::filter);
    if s.len() == 0 {
        assert(s.filter(p) =~= Seq::<T>::empty());
        assert(s.filter(pq) =~= Seq::<T>::empty());
    } else {
        let prefix = s.drop_last();
        lemma_filter_compose(prefix, p, q, pq);
        let x = s.last();
        if p(x) {
            assert(s.filter(p) == prefix.filter(p).push(x));
            assert(s.filter(p).drop_last() =~= prefix.filter(p));
            assert(s.filter(p).last() == x);
        } else {
            assert(s.filter(p) =~= prefix.filter(p));
        }
    }
}

} // verus!
