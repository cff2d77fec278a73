//! Typed update statements: the only way a stored record is mutated.
//!
//! Each statement carries the fields an operation may change; applying one
//! to a record is a pure function, stated at the view level and proved of
//! the executable apply.

use vstd::prelude::*;

use crate::enums::{AttemptStatus, IntentStatus};
use crate::records::{
    Address, Customer, PaymentAttempt, PaymentIntent, SpecAddress, SpecCustomer,
    SpecPaymentAttempt, SpecPaymentIntent,
};

verus! {

/// View of a [`PaymentIntentUpdate`].
pub enum SpecPaymentIntentUpdate {
    RejectUpdate {
        status: IntentStatus,
        merchant_decision: Option<Seq<char>>,
        updated_by: Seq<char>,
    },
}

/// Update statement for a payment intent.
#[derive(Clone, Debug)]
pub enum PaymentIntentUpdate {
    RejectUpdate {
        status: IntentStatus,
        merchant_decision: Option<String>,
        updated_by: String,
    },
}

impl View for PaymentIntentUpdate {
    type V = SpecPaymentIntentUpdate;

    open spec fn view(&self) -> SpecPaymentIntentUpdate {
        match self {
            PaymentIntentUpdate::RejectUpdate { status, merchant_decision, updated_by } => {
                SpecPaymentIntentUpdate::RejectUpdate {
                    status: *status,
                    merchant_decision: merchant_decision.deep_view(),
                    updated_by: updated_by@,
                }
            },
        }
    }
}

/// What applying an intent update statement to a record yields.
pub open spec fn spec_apply_intent_update(
    i: SpecPaymentIntent,
    u: SpecPaymentIntentUpdate,
) -> SpecPaymentIntent {
    match u {
        SpecPaymentIntentUpdate::RejectUpdate { status, merchant_decision, updated_by } => {
            SpecPaymentIntent { status, merchant_decision, updated_by, ..i }
        },
    }
}

/// Apply an update statement to a payment intent record.
pub fn apply_intent_update(i: &PaymentIntent, u: &PaymentIntentUpdate) -> (r: PaymentIntent)
    ensures
        r@ == spec_apply_intent_update(i@, u@),
{
    match u {
        PaymentIntentUpdate::RejectUpdate { status, merchant_decision, updated_by } => {
            PaymentIntent {
                status: *status,
                merchant_decision: merchant_decision.clone(),
                updated_by: updated_by.clone(),
                ..i.clone()
            }
        },
    }
}

/// View of a [`PaymentAttemptUpdate`].
///
/// In the error fields the outer `Option` says whether the field is touched
/// at all; the inner value is what it is set to.
pub enum SpecPaymentAttemptUpdate {
    RejectUpdate {
        status: AttemptStatus,
        error_code: Option<Option<Seq<char>>>,
        error_message: Option<Option<Seq<char>>>,
        updated_by: Seq<char>,
    },
}

/// Update statement for a payment attempt.
#[derive(Clone, Debug)]
pub enum PaymentAttemptUpdate {
    RejectUpdate {
        status: AttemptStatus,
        error_code: Option<Option<String>>,
        error_message: Option<Option<String>>,
        updated_by: String,
    },
}

impl View for PaymentAttemptUpdate {
    type V = SpecPaymentAttemptUpdate;

    open spec fn view(&self) -> SpecPaymentAttemptUpdate {
        match self {
            PaymentAttemptUpdate::RejectUpdate { status, error_code, error_message, updated_by } => {
                SpecPaymentAttemptUpdate::RejectUpdate {
                    status: *status,
                    error_code: error_code.deep_view(),
                    error_message: error_message.deep_view(),
                    updated_by: updated_by@,
                }
            },
        }
    }
}

/// What applying an attempt update statement to a record yields.
pub open spec fn spec_apply_attempt_update(
    a: SpecPaymentAttempt,
    u: SpecPaymentAttemptUpdate,
) -> SpecPaymentAttempt {
    match u {
        SpecPaymentAttemptUpdate::RejectUpdate { status, error_code, error_message, updated_by } => {
            SpecPaymentAttempt {
                status,
                error_code: match error_code {
                    Some(c) => c,
                    None => a.error_code,
                },
                error_message: match error_message {
                    Some(m) => m,
                    None => a.error_message,
                },
                updated_by,
                ..a
            }
        },
    }
}

/// Apply an update statement to a payment attempt record.
pub fn apply_attempt_update(a: &PaymentAttempt, u: &PaymentAttemptUpdate) -> (r: PaymentAttempt)
    ensures
        r@ == spec_apply_attempt_update(a@, u@),
{
    match u {
        PaymentAttemptUpdate::RejectUpdate { status, error_code, error_message, updated_by } => {
            PaymentAttempt {
                status: *status,
                error_code: match error_code {
                    Some(c) => c.clone(),
                    None => a.error_code.clone(),
                },
                error_message: match error_message {
                    Some(m) => m.clone(),
                    None => a.error_message.clone(),
                },
                updated_by: updated_by.clone(),
                ..a.clone()
            }
        },
    }
}

/// View of a [`CustomerUpdate`].
///
/// A `None` field is left as it is; a `Some` field is overwritten.
pub enum SpecCustomerUpdate {
    Update {
        name: Option<Seq<char>>,
        email: Option<Seq<char>>,
        phone: Option<Seq<char>>,
        description: Option<Seq<char>>,
        phone_country_code: Option<Seq<char>>,
        metadata: Option<Seq<char>>,
    },
}

/// Update statement for a customer row.
#[derive(Clone, Debug)]
pub enum CustomerUpdate {
    Update {
        name: Option<String>,
        email: Option<String>,
        phone: Option<String>,
        description: Option<String>,
        phone_country_code: Option<String>,
        metadata: Option<String>,
    },
}

impl View for CustomerUpdate {
    type V = SpecCustomerUpdate;

    open spec fn view(&self) -> SpecCustomerUpdate {
        match self {
            CustomerUpdate::Update {
                name,
                email,
                phone,
                description,
                phone_country_code,
                metadata,
            } => SpecCustomerUpdate::Update {
                name: name.deep_view(),
                email: email.deep_view(),
                phone: phone.deep_view(),
                description: description.deep_view(),
                phone_country_code: phone_country_code.deep_view(),
                metadata: metadata.deep_view(),
            },
        }
    }
}

/// What applying a customer update statement to a row yields.
pub open spec fn spec_apply_customer_update(
    c: SpecCustomer,
    u: SpecCustomerUpdate,
) -> SpecCustomer {
    match u {
        SpecCustomerUpdate::Update { name, email, phone, description, phone_country_code, metadata } => {
            SpecCustomer {
                name: if name is Some {
                    name
                } else {
                    c.name
                },
                email: if email is Some {
                    email
                } else {
                    c.email
                },
                phone: if phone is Some {
                    phone
                } else {
                    c.phone
                },
                description: if description is Some {
                    description
                } else {
                    c.description
                },
                phone_country_code: if phone_country_code is Some {
                    phone_country_code
                } else {
                    c.phone_country_code
                },
                metadata: if metadata is Some {
                    metadata
                } else {
                    c.metadata
                },
                ..c
            }
        },
    }
}

/// Apply an update statement to a customer row.
pub fn apply_customer_update(c: &Customer, u: &CustomerUpdate) -> (r: Customer)
    ensures
        r@ == spec_apply_customer_update(c@, u@),
{
    match u {
        CustomerUpdate::Update { name, email, phone, description, phone_country_code, metadata } => {
            Customer {
                name: if name.is_some() {
                    name.clone()
                } else {
                    c.name.clone()
                },
                email: if email.is_some() {
                    email.clone()
                } else {
                    c.email.clone()
                },
                phone: if phone.is_some() {
                    phone.clone()
                } else {
                    c.phone.clone()
                },
                description: if description.is_some() {
                    description.clone()
                } else {
                    c.description.clone()
                },
                phone_country_code: if phone_country_code.is_some() {
                    phone_country_code.clone()
                } else {
                    c.phone_country_code.clone()
                },
                metadata: if metadata.is_some() {
                    metadata.clone()
                } else {
                    c.metadata.clone()
                },
                ..c.clone()
            }
        },
    }
}

/// View of an [`AddressUpdate`].
pub enum SpecAddressUpdate {
    Update {
        city: Option<Seq<char>>,
        country: Option<Seq<char>>,
        line1: Option<Seq<char>>,
        line2: Option<Seq<char>>,
        line3: Option<Seq<char>>,
        state: Option<Seq<char>>,
        zip: Option<Seq<char>>,
        first_name: Option<Seq<char>>,
        last_name: Option<Seq<char>>,
        phone_number: Option<Seq<char>>,
        country_code: Option<Seq<char>>,
    },
}

/// Update statement for an address row; a `None` field is left unchanged.
#[derive(Clone, Debug)]
pub enum AddressUpdate {
    Update {
        city: Option<String>,
        country: Option<String>,
        line1: Option<String>,
        line2: Option<String>,
        line3: Option<String>,
        state: Option<String>,
        zip: Option<String>,
        first_name: Option<String>,
        last_name: Option<String>,
        phone_number: Option<String>,
        country_code: Option<String>,
    },
}

impl View for AddressUpdate {
    type V = SpecAddressUpdate;

    open spec fn view(&self) -> SpecAddressUpdate {
        match self {
            AddressUpdate::Update {
                city,
                country,
                line1,
                line2,
                line3,
                state,
                zip,
                first_name,
                last_name,
                phone_number,
                country_code,
            } => SpecAddressUpdate::Update {
                city: city.deep_view(),
                country: country.deep_view(),
                line1: line1.deep_view(),
                line2: line2.deep_view(),
                line3: line3.deep_view(),
                state: state.deep_view(),
                zip: zip.deep_view(),
                first_name: first_name.deep_view(),
                last_name: last_name.deep_view(),
                phone_number: phone_number.deep_view(),
                country_code: country_code.deep_view(),
            },
        }
    }
}

/// What applying an address update statement to a row yields.
pub open spec fn spec_apply_address_update(a: SpecAddress, u: SpecAddressUpdate) -> SpecAddress {
    match u {
        SpecAddressUpdate::Update {
            city,
            country,
            line1,
            line2,
            line3,
            state,
            zip,
            first_name,
            last_name,
            phone_number,
            country_code,
        } => SpecAddress {
            city: if city is Some {
                city
            } else {
                a.city
            },
            country: if country is Some {
                country
            } else {
                a.country
            },
            line1: if line1 is Some {
                line1
            } else {
                a.line1
            },
            line2: if line2 is Some {
                line2
            } else {
                a.line2
            },
            line3: if line3 is Some {
                line3
            } else {
                a.line3
            },
            state: if state is Some {
                state
            } else {
                a.state
            },
            zip: if zip is Some {
                zip
            } else {
                a.zip
            },
            first_name: if first_name is Some {
                first_name
            } else {
                a.first_name
            },
            last_name: if last_name is Some {
                last_name
            } else {
                a.last_name
            },
            phone_number: if phone_number is Some {
                phone_number
            } else {
                a.phone_number
            },
            country_code: if country_code is Some {
                country_code
            } else {
                a.country_code
            },
            ..a
        },
    }
}

/// Apply an update statement to an address row.
pub fn apply_address_update(a: &Address, u: &AddressUpdate) -> (r: Address)
    ensures
        r@ == spec_apply_address_update(a@, u@),
{
    match u {
        AddressUpdate::Update {
            city,
            country,
            line1,
            line2,
            line3,
            state,
            zip,
            first_name,
            last_name,
            phone_number,
            country_code,
        } => Address {
            city: if city.is_some() {
                city.clone()
            } else {
                a.city.clone()
            },
            country: if country.is_some() {
                country.clone()
            } else {
                a.country.clone()
            },
            line1: if line1.is_some() {
                line1.clone()
            } else {
                a.line1.clone()
            },
            line2: if line2.is_some() {
                line2.clone()
            } else {
                a.line2.clone()
            },
            line3: if line3.is_some() {
                line3.clone()
            } else {
                a.line3.clone()
            },
            state: if state.is_some() {
                state.clone()
            } else {
                a.state.clone()
            },
            zip: if zip.is_some() {
                zip.clone()
            } else {
                a.zip.clone()
            },
            first_name: if first_name.is_some() {
                first_name.clone()
            } else {
                a.first_name.clone()
            },
            last_name: if last_name.is_some() {
                last_name.clone()
            } else {
                a.last_name.clone()
            },
            phone_number: if phone_number.is_some() {
                phone_number.clone()
            } else {
                a.phone_number.clone()
            },
            country_code: if country_code.is_some() {
                country_code.clone()
            } else {
                a.country_code.clone()
            },
            ..a.clone()
        },
    }
}

} // verus!
