//! Typed identifiers for the entities the pipeline works on.
//!
//! Each identifier wraps its textual form; its view is the character
//! sequence, and `==` compares that sequence.

use vstd::prelude::*;

verus! {

/// Identifier of a merchant account.
#[derive(Debug)]
pub struct MerchantId(pub String);

/// Identifier of a payment intent; scoped to a merchant.
#[derive(Debug)]
pub struct PaymentId(pub String);

/// Identifier of a customer; scoped to a merchant.
#[derive(Debug)]
pub struct CustomerId(pub String);

/// Identifier of one payment attempt.
#[derive(Debug)]
pub struct AttemptId(pub String);

/// Reference to a merchant's business profile.
#[derive(Debug)]
pub struct ProfileId(pub String);

/// Tenant the request is served under; carried into vault request headers.
#[derive(Debug)]
pub struct TenantId(pub String);

/// Correlation identifier of one inbound request, already in hyphenated form.
#[derive(Debug)]
pub struct RequestId(pub String);

impl View for MerchantId {
    type V = Seq<char>;

    open spec fn view(&self) -> Seq<char> {
        self.0@
    }
}

impl MerchantId {
    pub fn new(id: String) -> (r: Self)
        ensures
            r@ == id@,
    {
        MerchantId(id)
    }

    pub fn get_string_repr(&self) -> (r: &str)
        ensures
            r@ == self@,
    {
        self.0.as_str()
    }
}

impl PartialEq for MerchantId {
    fn eq(&self, other: &Self) -> bool {
        self.0 == other.0
    }
}

impl vstd::std_specs::cmp::PartialEqSpecImpl for MerchantId {
    open spec fn obeys_eq_spec() -> bool {
        true
    }

    open spec fn eq_spec(&self, other: &Self) -> bool {
        self.0@ == other.0@
    }
}

impl View for PaymentId {
    type V = Seq<char>;

    open spec fn view(&self) -> Seq<char> {
        self.0@
    }
}

impl PaymentId {
    pub fn new(id: String) -> (r: Self)
        ensures
            r@ == id@,
    {
        PaymentId(id)
    }

    pub fn get_string_repr(&self) -> (r: &str)
        ensures
            r@ == self@,
    {
        self.0.as_str()
    }
}

impl PartialEq for PaymentId {
    fn eq(&self, other: &Self) -> bool {
        self.0 == other.0
    }
}

impl vstd::std_specs::cmp::PartialEqSpecImpl for PaymentId {
    open spec fn obeys_eq_spec() -> bool {
        true
    }

    open spec fn eq_spec(&self, other: &Self) -> bool {
        self.0@ == other.0@
    }
}

impl View for CustomerId {
    type V = Seq<char>;

    open spec fn view(&self) -> Seq<char> {
        self.0@
    }
}

impl CustomerId {
    pub fn new(id: String) -> (r: Self)
        ensures
            r@ == id@,
    {
        CustomerId(id)
    }

    pub fn get_string_repr(&self) -> (r: &str)
        ensures
            r@ == self@,
    {
        self.0.as_str()
    }
}

impl PartialEq for CustomerId {
    fn eq(&self, other: &Self) -> bool {
        self.0 == other.0
    }
}

impl vstd::std_specs::cmp::PartialEqSpecImpl for CustomerId {
    open spec fn obeys_eq_spec() -> bool {
        true
    }

    open spec fn eq_spec(&self, other: &Self) -> bool {
        self.0@ == other.0@
    }
}

impl View for AttemptId {
    type V = Seq<char>;

    open spec fn view(&self) -> Seq<char> {
        self.0@
    }
}

impl AttemptId {
    pub fn new(id: String) -> (r: Self)
        ensures
            r@ == id@,
    {
        AttemptId(id)
    }

    pub fn get_string_repr(&self) -> (r: &str)
        ensures
            r@ == self@,
    {
        self.0.as_str()
    }
}

impl PartialEq for AttemptId {
    fn eq(&self, other: &Self) -> bool {
        self.0 == other.0
    }
}

impl vstd::std_specs::cmp::PartialEqSpecImpl for AttemptId {
    open spec fn obeys_eq_spec() -> bool {
        true
    }

    open spec fn eq_spec(&self, other: &Self) -> bool {
        self.0@ == other.0@
    }
}

impl View for ProfileId {
    type V = Seq<char>;

    open spec fn view(&self) -> Seq<char> {
        self.0@
    }
}

impl ProfileId {
    pub fn new(id: String) -> (r: Self)
        ensures
            r@ == id@,
    {
        ProfileId(id)
    }

    pub fn get_string_repr(&self) -> (r: &str)
        ensures
            r@ == self@,
    {
        self.0.as_str()
    }
}

impl PartialEq for ProfileId {
    fn eq(&self, other: &Self) -> bool {
        self.0 == other.0
    }
}

impl vstd::std_specs::cmp::PartialEqSpecImpl for ProfileId {
    open spec fn obeys_eq_spec() -> bool {
        true
    }

    open spec fn eq_spec(&self, other: &Self) -> bool {
        self.0@ == other.0@
    }
}

impl View for TenantId {
    type V = Seq<char>;

    open spec fn view(&self) -> Seq<char> {
        self.0@
    }
}

impl TenantId {
    pub fn new(id: String) -> (r: Self)
        ensures
            r@ == id@,
    {
        TenantId(id)
    }

    pub fn get_string_repr(&self) -> (r: &str)
        ensures
            r@ == self@,
    {
        self.0.as_str()
    }
}

impl View for RequestId {
    type V = Seq<char>;

    open spec fn view(&self) -> Seq<char> {
        self.0@
    }
}

impl DeepView for RequestId {
    type V = Seq<char>;

    open spec fn deep_view(&self) -> Seq<char> {
        self.view()
    }
}

impl RequestId {
    pub fn new(id: String) -> (r: Self)
        ensures
            r@ == id@,
    {
        RequestId(id)
    }

    pub fn as_hyphenated(&self) -> (r: &str)
        ensures
            r@ == self@,
    {
        self.0.as_str()
    }
}

impl Clone for MerchantId {
    fn clone(&self) -> (r: Self)
        ensures
            r == *self,
    {
        MerchantId(self.0.clone())
    }
}


impl Clone for PaymentId {
    fn clone(&self) -> (r: Self)
        ensures
            r == *self,
    {
        PaymentId(self.0.clone())
    }
}


impl Clone for CustomerId {
    fn clone(&self) -> (r: Self)
        ensures
            r == *self,
    {
        CustomerId(self.0.clone())
    }
}


impl Clone for AttemptId {
    fn clone(&self) -> (r: Self)
        ensures
            r == *self,
    {
        AttemptId(self.0.clone())
    }
}


impl Clone for ProfileId {
    fn clone(&self) -> (r: Self)
        ensures
            r == *self,
    {
        ProfileId(self.0.clone())
    }
}


impl Clone for TenantId {
    fn clone(&self) -> (r: Self)
        ensures
            r == *self,
    {
        TenantId(self.0.clone())
    }
}


impl Clone for RequestId {
    fn clone(&self) -> (r: Self)
        ensures
            r == *self,
    {
        RequestId(self.0.clone())
    }
}

} // verus!
