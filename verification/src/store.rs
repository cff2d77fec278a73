//! In-memory model of the storage interface the pipeline persists through.
//!
//! Every read and write the pipeline makes goes through this store; rows are
//! only mutated by applying typed update statements. Each table keeps its
//! natural key unique, which is what makes "the row with this key" a
//! well-defined notion in the contracts.

use vstd::prelude::*;
use vstd::pervasive::VecAdditionalExecFns;

use crate::errors::StorageError;
use crate::ids::{AttemptId, CustomerId, MerchantId, PaymentId, ProfileId};
use crate::records::{
    Address, BusinessProfile, Customer, CustomerNew, FraudCheck, Mandate, PaymentAttempt,
    PaymentIntent, PaymentMethod, SpecAddress, SpecBusinessProfile, SpecCustomer, SpecFraudCheck,
    SpecMandate, SpecPaymentAttempt, SpecPaymentIntent, SpecPaymentMethod,
};
use crate::updates::{
    spec_apply_address_update, spec_apply_attempt_update, spec_apply_customer_update,
    spec_apply_intent_update, AddressUpdate, CustomerUpdate, PaymentAttemptUpdate,
    PaymentIntentUpdate, apply_address_update, apply_attempt_update, apply_customer_update,
    apply_intent_update,
};

verus! {

/// Whether some element of `s` satisfies `pred`.
pub open spec fn has_match<T>(s: Seq<T>, pred: spec_fn(T) -> bool) -> bool {
    exists|k: int| 0 <= k < s.len() && pred(s[k])
}

/// An index of an element of `s` satisfying `pred`; meaningful only when
/// `has_match` holds, and pinned down when at most one element matches.
pub open spec fn match_index<T>(s: Seq<T>, pred: spec_fn(T) -> bool) -> int {
    choose|k: int| 0 <= k < s.len() && pred(s[k])
}

/// At most one element of `s` satisfies `pred`.
pub open spec fn at_most_one_match<T>(s: Seq<T>, pred: spec_fn(T) -> bool) -> bool {
    forall|i: int, j: int| 0 <= i < j < s.len() ==> !(pred(s[i]) && pred(s[j]))
}

/// When at most one element matches, a matching index is the match index.
pub proof fn lemma_match_index_is<T>(s: Seq<T>, pred: spec_fn(T) -> bool, k: int)
    requires
        at_most_one_match(s, pred),
        0 <= k < s.len(),
        pred(s[k]),
    ensures
        has_match(s, pred),
        match_index(s, pred) == k,
{
    assert(has_match(s, pred));
    let j = match_index(s, pred);
    if j != k {
        if j < k {
            assert(!(pred(s[j]) && pred(s[k])));
        } else {
            assert(!(pred(s[k]) && pred(s[j])));
        }
    }
}

/// Natural key of a payment intent row.
pub open spec fn intent_key(i: SpecPaymentIntent) -> (Seq<char>, Seq<char>) {
    (i.payment_id, i.merchant_id)
}

/// Natural key of a payment attempt row.
pub open spec fn attempt_key(a: SpecPaymentAttempt) -> (Seq<char>, Seq<char>, Seq<char>) {
    (a.payment_id, a.merchant_id, a.attempt_id)
}

/// Natural key of a customer row.
pub open spec fn customer_key(c: SpecCustomer) -> (Seq<char>, Seq<char>) {
    (c.customer_id, c.merchant_id)
}

/// View of a [`Store`].
pub struct SpecStore {
    pub intents: Seq<SpecPaymentIntent>,
    pub attempts: Seq<SpecPaymentAttempt>,
    pub addresses: Seq<SpecAddress>,
    pub customers: Seq<SpecCustomer>,
    pub profiles: Seq<SpecBusinessProfile>,
    pub fraud_checks: Seq<SpecFraudCheck>,
    pub mandates: Seq<SpecMandate>,
    pub payment_methods: Seq<SpecPaymentMethod>,
}

impl SpecStore {
    /// Natural keys are unique in every table.
    pub open spec fn wf(self) -> bool {
        &&& forall|i: int, j: int|
            0 <= i < j < self.intents.len() ==> intent_key(self.intents[i]) != intent_key(
                self.intents[j],
            )
        &&& forall|i: int, j: int|
            0 <= i < j < self.attempts.len() ==> attempt_key(self.attempts[i]) != attempt_key(
                self.attempts[j],
            )
        &&& forall|i: int|
            0 <= i < self.attempts.len() ==> #[trigger] self.attempts[i].spec_total_amount()
                <= u64::MAX
        &&& forall|i: int, j: int|
            0 <= i < j < self.addresses.len() ==> self.addresses[i].address_id
                != self.addresses[j].address_id
        &&& forall|i: int, j: int|
            0 <= i < j < self.customers.len() ==> customer_key(self.customers[i]) != customer_key(
                self.customers[j],
            )
        &&& forall|i: int, j: int|
            0 <= i < j < self.profiles.len() ==> self.profiles[i].profile_id
                != self.profiles[j].profile_id
        &&& forall|i: int, j: int|
            0 <= i < j < self.fraud_checks.len() ==> (
            self.fraud_checks[i].payment_id,
            self.fraud_checks[i].merchant_id,
            ) != (self.fraud_checks[j].payment_id, self.fraud_checks[j].merchant_id)
        &&& forall|i: int, j: int|
            0 <= i < j < self.mandates.len() ==> self.mandates[i].mandate_id
                != self.mandates[j].mandate_id
        &&& forall|i: int, j: int|
            0 <= i < j < self.payment_methods.len() ==> self.payment_methods[i].payment_method_id
                != self.payment_methods[j].payment_method_id
    }

    pub open spec fn intent_pred(pid: Seq<char>, mid: Seq<char>) -> spec_fn(
        SpecPaymentIntent,
    ) -> bool {
        |i: SpecPaymentIntent| i.payment_id == pid && i.merchant_id == mid
    }

    /// There is a payment intent with this identifier for this merchant.
    pub open spec fn has_intent(self, pid: Seq<char>, mid: Seq<char>) -> bool {
        has_match(self.intents, Self::intent_pred(pid, mid))
    }

    /// Index of that intent in the table.
    pub open spec fn intent_index(self, pid: Seq<char>, mid: Seq<char>) -> int {
        match_index(self.intents, Self::intent_pred(pid, mid))
    }

    /// The payment intent with this identifier for this merchant.
    pub open spec fn intent_at(self, pid: Seq<char>, mid: Seq<char>) -> SpecPaymentIntent {
        self.intents[self.intent_index(pid, mid)]
    }

    pub open spec fn attempt_pred(pid: Seq<char>, mid: Seq<char>, aid: Seq<char>) -> spec_fn(
        SpecPaymentAttempt,
    ) -> bool {
        |a: SpecPaymentAttempt| a.payment_id == pid && a.merchant_id == mid && a.attempt_id == aid
    }

    /// There is an attempt row with this key.
    pub open spec fn has_attempt(self, pid: Seq<char>, mid: Seq<char>, aid: Seq<char>) -> bool {
        has_match(self.attempts, Self::attempt_pred(pid, mid, aid))
    }

    /// Index of that attempt in the table.
    pub open spec fn attempt_index(self, pid: Seq<char>, mid: Seq<char>, aid: Seq<char>) -> int {
        match_index(self.attempts, Self::attempt_pred(pid, mid, aid))
    }

    /// The attempt row with this key.
    pub open spec fn attempt_at(
        self,
        pid: Seq<char>,
        mid: Seq<char>,
        aid: Seq<char>,
    ) -> SpecPaymentAttempt {
        self.attempts[self.attempt_index(pid, mid, aid)]
    }

    pub open spec fn address_pred(aid: Seq<char>) -> spec_fn(SpecAddress) -> bool {
        |a: SpecAddress| a.address_id == aid
    }

    /// There is an address row with this identifier.
    pub open spec fn has_address(self, aid: Seq<char>) -> bool {
        has_match(self.addresses, Self::address_pred(aid))
    }

    /// The address row with this identifier.
    pub open spec fn address_at(self, aid: Seq<char>) -> SpecAddress {
        self.addresses[match_index(self.addresses, Self::address_pred(aid))]
    }

    pub open spec fn customer_pred(cid: Seq<char>, mid: Seq<char>) -> spec_fn(
        SpecCustomer,
    ) -> bool {
        |c: SpecCustomer| c.customer_id == cid && c.merchant_id == mid
    }

    /// There is a customer row with this natural key.
    pub open spec fn has_customer(self, cid: Seq<char>, mid: Seq<char>) -> bool {
        has_match(self.customers, Self::customer_pred(cid, mid))
    }

    /// Index of that customer row in the table.
    pub open spec fn customer_index(self, cid: Seq<char>, mid: Seq<char>) -> int {
        match_index(self.customers, Self::customer_pred(cid, mid))
    }

    /// The customer row with this natural key.
    pub open spec fn customer_at(self, cid: Seq<char>, mid: Seq<char>) -> SpecCustomer {
        self.customers[self.customer_index(cid, mid)]
    }

    pub open spec fn profile_pred(pid: Seq<char>) -> spec_fn(SpecBusinessProfile) -> bool {
        |p: SpecBusinessProfile| p.profile_id == pid
    }

    /// There is a business profile with this identifier.
    pub open spec fn has_profile(self, pid: Seq<char>) -> bool {
        has_match(self.profiles, Self::profile_pred(pid))
    }

    /// The business profile with this identifier.
    pub open spec fn profile_at(self, pid: Seq<char>) -> SpecBusinessProfile {
        self.profiles[match_index(self.profiles, Self::profile_pred(pid))]
    }

    pub open spec fn fraud_pred(pid: Seq<char>, mid: Seq<char>) -> spec_fn(SpecFraudCheck) -> bool {
        |f: SpecFraudCheck| f.payment_id == pid && f.merchant_id == mid
    }

    /// There is a fraud-check result for this payment.
    pub open spec fn has_fraud_check(self, pid: Seq<char>, mid: Seq<char>) -> bool {
        has_match(self.fraud_checks, Self::fraud_pred(pid, mid))
    }

    /// The fraud-check result for this payment.
    pub open spec fn fraud_check_at(self, pid: Seq<char>, mid: Seq<char>) -> SpecFraudCheck {
        self.fraud_checks[match_index(self.fraud_checks, Self::fraud_pred(pid, mid))]
    }

    pub open spec fn payment_method_pred(pmid: Seq<char>, mid: Seq<char>) -> spec_fn(
        SpecPaymentMethod,
    ) -> bool {
        |p: SpecPaymentMethod| p.payment_method_id == pmid && p.merchant_id == mid
    }

    /// There is a stored payment method with this identifier for this merchant.
    pub open spec fn has_payment_method(self, pmid: Seq<char>, mid: Seq<char>) -> bool {
        has_match(self.payment_methods, Self::payment_method_pred(pmid, mid))
    }

    /// Index of that payment method in the table.
    pub open spec fn payment_method_index(self, pmid: Seq<char>, mid: Seq<char>) -> int {
        match_index(self.payment_methods, Self::payment_method_pred(pmid, mid))
    }

    /// All tables other than the intent table are the same in both stores.
    pub open spec fn same_but_intents(pre: SpecStore, post: SpecStore) -> bool {
        &&& post.attempts == pre.attempts
        &&& post.addresses == pre.addresses
        &&& post.customers == pre.customers
        &&& post.profiles == pre.profiles
        &&& post.fraud_checks == pre.fraud_checks
        &&& post.mandates == pre.mandates
        &&& post.payment_methods == pre.payment_methods
    }

    /// All tables other than the attempt table are the same in both stores.
    pub open spec fn same_but_attempts(pre: SpecStore, post: SpecStore) -> bool {
        &&& post.intents == pre.intents
        &&& post.addresses == pre.addresses
        &&& post.customers == pre.customers
        &&& post.profiles == pre.profiles
        &&& post.fraud_checks == pre.fraud_checks
        &&& post.mandates == pre.mandates
        &&& post.payment_methods == pre.payment_methods
    }

    /// All tables other than the customer table are the same in both stores.
    pub open spec fn same_but_customers(pre: SpecStore, post: SpecStore) -> bool {
        &&& post.intents == pre.intents
        &&& post.attempts == pre.attempts
        &&& post.addresses == pre.addresses
        &&& post.profiles == pre.profiles
        &&& post.fraud_checks == pre.fraud_checks
        &&& post.mandates == pre.mandates
        &&& post.payment_methods == pre.payment_methods
    }

    /// All tables other than the address table are the same in both stores.
    pub open spec fn same_but_addresses(pre: SpecStore, post: SpecStore) -> bool {
        &&& post.intents == pre.intents
        &&& post.attempts == pre.attempts
        &&& post.customers == pre.customers
        &&& post.profiles == pre.profiles
        &&& post.fraud_checks == pre.fraud_checks
        &&& post.mandates == pre.mandates
        &&& post.payment_methods == pre.payment_methods
    }

    /// All tables other than the payment-method table are the same in both stores.
    pub open spec fn same_but_payment_methods(pre: SpecStore, post: SpecStore) -> bool {
        &&& post.intents == pre.intents
        &&& post.attempts == pre.attempts
        &&& post.addresses == pre.addresses
        &&& post.customers == pre.customers
        &&& post.profiles == pre.profiles
        &&& post.fraud_checks == pre.fraud_checks
        &&& post.mandates == pre.mandates
    }
}

/// The storage model: one table per record kind.
#[derive(Debug)]
pub struct Store {
    pub intents: Vec<PaymentIntent>,
    pub attempts: Vec<PaymentAttempt>,
    pub addresses: Vec<Address>,
    pub customers: Vec<Customer>,
    pub profiles: Vec<BusinessProfile>,
    pub fraud_checks: Vec<FraudCheck>,
    pub mandates: Vec<Mandate>,
    pub payment_methods: Vec<PaymentMethod>,
}

impl View for Store {
    type V = SpecStore;

    open spec fn view(&self) -> SpecStore {
        SpecStore {
            intents: self.intents.deep_view(),
            attempts: self.attempts.deep_view(),
            addresses: self.addresses.deep_view(),
            customers: self.customers.deep_view(),
            profiles: self.profiles.deep_view(),
            fraud_checks: self.fraud_checks.deep_view(),
            mandates: self.mandates.deep_view(),
            payment_methods: self.payment_methods.deep_view(),
        }
    }
}

impl Store {
    /// An empty store; trivially well formed.
    pub fn new() -> (r: Store)
        ensures
            r@.wf(),
            r@.intents.len() == 0,
            r@.attempts.len() == 0,
            r@.addresses.len() == 0,
            r@.customers.len() == 0,
            r@.profiles.len() == 0,
            r@.fraud_checks.len() == 0,
            r@.mandates.len() == 0,
            r@.payment_methods.len() == 0,
    {
        Store {
            intents: Vec::new(),
            attempts: Vec::new(),
            addresses: Vec::new(),
            customers: Vec::new(),
            profiles: Vec::new(),
            fraud_checks: Vec::new(),
            mandates: Vec::new(),
            payment_methods: Vec::new(),
        }
    }

    /// Load the payment intent with this identifier for this merchant.
    pub fn find_payment_intent_by_payment_id_merchant_id(
        &self,
        payment_id: &PaymentId,
        merchant_id: &MerchantId,
    ) -> (r: Option<PaymentIntent>)
        requires
            self@.wf(),
        ensures
            r is Some <==> self@.has_intent(payment_id@, merchant_id@),
            r is Some ==> r->0@ == self@.intent_at(payment_id@, merchant_id@),
    {
        let n = self.intents.len();
        for i in 0..n
            invariant
                n == self.intents.len(),
                self@.wf(),
                forall|k: int|
                    0 <= k < i ==> !(#[trigger] self@.intents[k].payment_id == payment_id@
                        && self@.intents[k].merchant_id == merchant_id@),
        {
            if self.intents[i].payment_id == *payment_id && self.intents[i].merchant_id
                == *merchant_id {
                proof {
                    lemma_match_index_is(
                        self@.intents,
                        SpecStore::intent_pred(payment_id@, merchant_id@),
                        i as int,
                    );
                }
                return Some(self.intents[i].clone());
            }
        }
        assert(!self@.has_intent(payment_id@, merchant_id@));
        None
    }

    /// Insert a new payment intent; refused when one with the same natural
    /// key already exists.
    pub fn insert_payment_intent(&mut self, intent: PaymentIntent) -> (r: Result<
        PaymentIntent,
        StorageError,
    >)
        requires
            old(self)@.wf(),
        ensures
            final(self)@.wf(),
            r is Ok ==> !old(self)@.has_intent(intent@.payment_id, intent@.merchant_id)
                && final(self)@.intents == old(self)@.intents.push(intent@) && r->Ok_0@ == intent@,
            r is Err ==> r->Err_0 == StorageError::UniqueViolation && old(self)@.has_intent(
                intent@.payment_id,
                intent@.merchant_id,
            ) && final(self)@ == old(self)@,
            SpecStore::same_but_intents(old(self)@, final(self)@),
            final(self)@.has_intent(intent@.payment_id, intent@.merchant_id),
    {
        let existing = self.find_payment_intent_by_payment_id_merchant_id(
            &intent.payment_id,
            &intent.merchant_id,
        );
        if existing.is_some() {
            proof {
                let ghost pred = SpecStore::intent_pred(intent@.payment_id, intent@.merchant_id);
                let ghost k = match_index(old(self)@.intents, pred);
            }
            return Err(StorageError::UniqueViolation);
        }
        let ghost pre = self@;
        let result = intent.clone();
        self.intents.push(intent);
        proof {
            assert(self@.intents =~= pre.intents.push(result@));
            assert(self@.attempts =~= pre.attempts);
            assert(self@.addresses =~= pre.addresses);
            assert(self@.customers =~= pre.customers);
            assert(self@.profiles =~= pre.profiles);
            assert(self@.fraud_checks =~= pre.fraud_checks);
            assert(self@.mandates =~= pre.mandates);
            assert(self@.payment_methods =~= pre.payment_methods);
            lemma_match_index_is(
                self@.intents,
                SpecStore::intent_pred(result@.payment_id, result@.merchant_id),
                pre.intents.len() as int,
            );
        }
        Ok(result)
    }

    /// Persist an intent update statement against the row this intent came
    /// from; fails with `NotFound` when the row has vanished.
    pub fn update_payment_intent(
        &mut self,
        intent: PaymentIntent,
        update: PaymentIntentUpdate,
    ) -> (r: Result<PaymentIntent, StorageError>)
        requires
            old(self)@.wf(),
        ensures
            final(self)@.wf(),
            SpecStore::same_but_intents(old(self)@, final(self)@),
            r is Ok <==> old(self)@.has_intent(intent@.payment_id, intent@.merchant_id),
            r is Ok ==> r->Ok_0@ == spec_apply_intent_update(
                old(self)@.intent_at(intent@.payment_id, intent@.merchant_id),
                update@,
            ) && final(self)@.intents == old(self)@.intents.update(
                old(self)@.intent_index(intent@.payment_id, intent@.merchant_id),
                spec_apply_intent_update(
                    old(self)@.intent_at(intent@.payment_id, intent@.merchant_id),
                    update@,
                ),
            ),
            r is Err ==> r->Err_0 == StorageError::NotFound && final(self)@ == old(self)@,
    {
        let ghost pre = self@;
        let n = self.intents.len();
        for i in 0..n
            invariant
                n == self.intents.len(),
                self@ == pre,
                pre == old(self)@,
                pre.wf(),
                forall|k: int|
                    0 <= k < i ==> !(#[trigger] pre.intents[k].payment_id == intent@.payment_id
                        && pre.intents[k].merchant_id == intent@.merchant_id),
        {
            if self.intents[i].payment_id == intent.payment_id && self.intents[i].merchant_id
                == intent.merchant_id {
                proof {
                    lemma_match_index_is(
                        pre.intents,
                        SpecStore::intent_pred(intent@.payment_id, intent@.merchant_id),
                        i as int,
                    );
                }
                let updated = apply_intent_update(&self.intents[i], &update);
                let result = updated.clone();
                self.intents.set(i, updated);
                proof {
                    assert(self@.intents =~= pre.intents.update(
                        i as int,
                        spec_apply_intent_update(pre.intents[i as int], update@),
                    ));
                    assert(self@.attempts =~= pre.attempts);
                    assert(self@.addresses =~= pre.addresses);
                    assert(self@.customers =~= pre.customers);
                    assert(self@.profiles =~= pre.profiles);
                    assert(self@.fraud_checks =~= pre.fraud_checks);
                    assert(self@.mandates =~= pre.mandates);
                    assert(self@.payment_methods =~= pre.payment_methods);
                }
                return Ok(result);
            }
        }
        assert(!pre.has_intent(intent@.payment_id, intent@.merchant_id));
        Err(StorageError::NotFound)
    }

    /// Load the attempt row with this key.
    pub fn find_payment_attempt_by_payment_id_merchant_id_attempt_id(
        &self,
        payment_id: &PaymentId,
        merchant_id: &MerchantId,
        attempt_id: &AttemptId,
    ) -> (r: Option<PaymentAttempt>)
        requires
            self@.wf(),
        ensures
            r is Some <==> self@.has_attempt(payment_id@, merchant_id@, attempt_id@),
            r is Some ==> r->0@ == self@.attempt_at(payment_id@, merchant_id@, attempt_id@),
    {
        let n = self.attempts.len();
        for i in 0..n
            invariant
                n == self.attempts.len(),
                self@.wf(),
                forall|k: int|
                    0 <= k < i ==> !(#[trigger] self@.attempts[k].payment_id == payment_id@
                        && self@.attempts[k].merchant_id == merchant_id@
                        && self@.attempts[k].attempt_id == attempt_id@),
        {
            if self.attempts[i].payment_id == *payment_id && self.attempts[i].merchant_id
                == *merchant_id && self.attempts[i].attempt_id == *attempt_id {
                proof {
                    lemma_match_index_is(
                        self@.attempts,
                        SpecStore::attempt_pred(payment_id@, merchant_id@, attempt_id@),
                        i as int,
                    );
                }
                return Some(self.attempts[i].clone());
            }
        }
        assert(!self@.has_attempt(payment_id@, merchant_id@, attempt_id@));
        None
    }

    /// Insert a new payment attempt; refused when one with the same key
    /// already exists.
    pub fn insert_payment_attempt(&mut self, attempt: PaymentAttempt) -> (r: Result<
        PaymentAttempt,
        StorageError,
    >)
        requires
            old(self)@.wf(),
            attempt@.spec_total_amount() <= u64::MAX,
        ensures
            final(self)@.wf(),
            SpecStore::same_but_attempts(old(self)@, final(self)@),
            r is Ok ==> !old(self)@.has_attempt(
                attempt@.payment_id,
                attempt@.merchant_id,
                attempt@.attempt_id,
            ) && final(self)@.attempts == old(self)@.attempts.push(attempt@) && r->Ok_0@
                == attempt@,
            r is Err ==> r->Err_0 == StorageError::UniqueViolation && final(self)@ == old(self)@,
            final(self)@.has_attempt(attempt@.payment_id, attempt@.merchant_id, attempt@.attempt_id),
    {
        let existing = self.find_payment_attempt_by_payment_id_merchant_id_attempt_id(
            &attempt.payment_id,
            &attempt.merchant_id,
            &attempt.attempt_id,
        );
        if existing.is_some() {
            return Err(StorageError::UniqueViolation);
        }
        let ghost pre = self@;
        let result = attempt.clone();
        self.attempts.push(attempt);
        proof {
            assert(self@.attempts =~= pre.attempts.push(result@));
            assert(self@.intents =~= pre.intents);
            assert(self@.addresses =~= pre.addresses);
            assert(self@.customers =~= pre.customers);
            assert(self@.profiles =~= pre.profiles);
            assert(self@.fraud_checks =~= pre.fraud_checks);
            assert(self@.mandates =~= pre.mandates);
            assert(self@.payment_methods =~= pre.payment_methods);
            lemma_match_index_is(
                self@.attempts,
                SpecStore::attempt_pred(result@.payment_id, result@.merchant_id, result@.attempt_id),
                pre.attempts.len() as int,
            );
        }
        Ok(result)
    }

    /// Persist an attempt update statement against the row this attempt came
    /// from; fails with `NotFound` when the row has vanished.
    pub fn update_payment_attempt_with_attempt_id(
        &mut self,
        attempt: PaymentAttempt,
        update: PaymentAttemptUpdate,
    ) -> (r: Result<PaymentAttempt, StorageError>)
        requires
            old(self)@.wf(),
        ensures
            final(self)@.wf(),
            SpecStore::same_but_attempts(old(self)@, final(self)@),
            r is Ok <==> old(self)@.has_attempt(
                attempt@.payment_id,
                attempt@.merchant_id,
                attempt@.attempt_id,
            ),
            r is Ok ==> r->Ok_0@ == spec_apply_attempt_update(
                old(self)@.attempt_at(attempt@.payment_id, attempt@.merchant_id, attempt@.attempt_id),
                update@,
            ) && final(self)@.attempts == old(self)@.attempts.update(
                old(self)@.attempt_index(
                    attempt@.payment_id,
                    attempt@.merchant_id,
                    attempt@.attempt_id,
                ),
                spec_apply_attempt_update(
                    old(self)@.attempt_at(
                        attempt@.payment_id,
                        attempt@.merchant_id,
                        attempt@.attempt_id,
                    ),
                    update@,
                ),
            ),
            r is Err ==> r->Err_0 == StorageError::NotFound && final(self)@ == old(self)@,
    {
        let ghost pre = self@;
        let n = self.attempts.len();
        for i in 0..n
            invariant
                n == self.attempts.len(),
                self@ == pre,
                pre == old(self)@,
                pre.wf(),
                forall|k: int|
                    0 <= k < i ==> !(#[trigger] pre.attempts[k].payment_id == attempt@.payment_id
                        && pre.attempts[k].merchant_id == attempt@.merchant_id
                        && pre.attempts[k].attempt_id == attempt@.attempt_id),
        {
            if self.attempts[i].payment_id == attempt.payment_id && self.attempts[i].merchant_id
                == attempt.merchant_id && self.attempts[i].attempt_id == attempt.attempt_id {
                proof {
                    lemma_match_index_is(
                        pre.attempts,
                        SpecStore::attempt_pred(
                            attempt@.payment_id,
                            attempt@.merchant_id,
                            attempt@.attempt_id,
                        ),
                        i as int,
                    );
                }
                let updated = apply_attempt_update(&self.attempts[i], &update);
                let result = updated.clone();
                self.attempts.set(i, updated);
                proof {
                    assert(spec_apply_attempt_update(
                        pre.attempts[i as int],
                        update@,
                    ).spec_total_amount() == pre.attempts[i as int].spec_total_amount());
                    assert(self@.attempts =~= pre.attempts.update(
                        i as int,
                        spec_apply_attempt_update(pre.attempts[i as int], update@),
                    ));
                    assert(self@.intents =~= pre.intents);
                    assert(self@.addresses =~= pre.addresses);
                    assert(self@.customers =~= pre.customers);
                    assert(self@.profiles =~= pre.profiles);
                    assert(self@.fraud_checks =~= pre.fraud_checks);
                    assert(self@.mandates =~= pre.mandates);
                    assert(self@.payment_methods =~= pre.payment_methods);
                }
                return Ok(result);
            }
        }
        assert(!pre.has_attempt(attempt@.payment_id, attempt@.merchant_id, attempt@.attempt_id));
        Err(StorageError::NotFound)
    }
    /// Load the address row with this identifier, if any; an absent
    /// reference resolves to no address rather than an error.
    pub fn find_address_by_id(&self, address_id: Option<String>) -> (r: Option<Address>)
        requires
            self@.wf(),
        ensures
            address_id is None ==> r is None,
            address_id is Some ==> (r is Some <==> self@.has_address(address_id->0@)),
            address_id is Some && r is Some ==> r->0@ == self@.address_at(address_id->0@),
    {
        let aid = match address_id {
            Some(a) => a,
            None => { return None; },
        };
        let aid = &aid;
        let n = self.addresses.len();
        for i in 0..n
            invariant
                n == self.addresses.len(),
                self@.wf(),
                address_id is Some && aid@ == address_id->0@,
                forall|k: int| 0 <= k < i ==> !(#[trigger] self@.addresses[k].address_id == aid@),
        {
            if self.addresses[i].address_id == *aid {
                proof {
                    lemma_match_index_is(
                        self@.addresses,
                        SpecStore::address_pred(aid@),
                        i as int,
                    );
                }
                return Some(self.addresses[i].clone());
            }
        }
        assert(!self@.has_address(aid@));
        None
    }

    /// Insert a new address row; refused when the identifier is taken.
    pub fn insert_address(&mut self, address: Address) -> (r: Result<Address, StorageError>)
        requires
            old(self)@.wf(),
        ensures
            final(self)@.wf(),
            SpecStore::same_but_addresses(old(self)@, final(self)@),
            r is Ok ==> !old(self)@.has_address(address@.address_id) && final(self)@.addresses
                == old(self)@.addresses.push(address@) && r->Ok_0@ == address@,
            r is Err ==> r->Err_0 == StorageError::UniqueViolation && final(self)@ == old(self)@,
            final(self)@.has_address(address@.address_id),
    {
        let existing = self.find_address_by_id(Some(address.address_id.clone()));
        if existing.is_some() {
            return Err(StorageError::UniqueViolation);
        }
        let ghost pre = self@;
        let result = address.clone();
        self.addresses.push(address);
        proof {
            assert(self@.addresses =~= pre.addresses.push(result@));
            assert(self@.intents =~= pre.intents);
            assert(self@.attempts =~= pre.attempts);
            assert(self@.customers =~= pre.customers);
            assert(self@.profiles =~= pre.profiles);
            assert(self@.fraud_checks =~= pre.fraud_checks);
            assert(self@.mandates =~= pre.mandates);
            assert(self@.payment_methods =~= pre.payment_methods);
            lemma_match_index_is(
                self@.addresses,
                SpecStore::address_pred(result@.address_id),
                pre.addresses.len() as int,
            );
        }
        Ok(result)
    }

    /// Apply an address update statement to every address row of this
    /// customer under this merchant.
    pub fn update_address_by_merchant_id_customer_id(
        &mut self,
        customer_id: &CustomerId,
        merchant_id: &MerchantId,
        update: &AddressUpdate,
    )
        requires
            old(self)@.wf(),
        ensures
            final(self)@.wf(),
            SpecStore::same_but_addresses(old(self)@, final(self)@),
            final(self)@.addresses.len() == old(self)@.addresses.len(),
            forall|k: int|
                0 <= k < old(self)@.addresses.len() ==> #[trigger] final(self)@.addresses[k] == (
                if old(self)@.addresses[k].customer_id == Some(customer_id@)
                    && old(self)@.addresses[k].merchant_id == merchant_id@ {
                    spec_apply_address_update(old(self)@.addresses[k], update@)
                } else {
                    old(self)@.addresses[k]
                }),
    {
        let ghost pre = self@;
        let n = self.addresses.len();
        for i in 0..n
            invariant
                n == self.addresses.len(),
                pre == old(self)@,
                pre.wf(),
                self@.addresses.len() == pre.addresses.len(),
                SpecStore::same_but_addresses(pre, self@),
                forall|k: int|
                    0 <= k < i ==> #[trigger] self@.addresses[k] == (
                    if pre.addresses[k].customer_id == Some(customer_id@)
                        && pre.addresses[k].merchant_id == merchant_id@ {
                        spec_apply_address_update(pre.addresses[k], update@)
                    } else {
                        pre.addresses[k]
                    }),
                forall|k: int| i <= k < n ==> #[trigger] self@.addresses[k] == pre.addresses[k],
        {
            let matches_customer = match &self.addresses[i].customer_id {
                Some(c) => *c == *customer_id,
                None => false,
            };
            if matches_customer && self.addresses[i].merchant_id == *merchant_id {
                let ghost mid_state = self@;
                let updated = apply_address_update(&self.addresses[i], update);
                self.addresses.set(i, updated);
                proof {
                    assert(self@.addresses =~= mid_state.addresses.update(
                        i as int,
                        spec_apply_address_update(mid_state.addresses[i as int], update@),
                    ));
                    assert(self@.intents =~= mid_state.intents);
                    assert(self@.attempts =~= mid_state.attempts);
                    assert(self@.customers =~= mid_state.customers);
                    assert(self@.profiles =~= mid_state.profiles);
                    assert(self@.fraud_checks =~= mid_state.fraud_checks);
                    assert(self@.mandates =~= mid_state.mandates);
                    assert(self@.payment_methods =~= mid_state.payment_methods);
                }
            }
        }
    }

    /// Load the customer row with this natural key.
    pub fn find_customer_by_customer_id_merchant_id(
        &self,
        customer_id: &CustomerId,
        merchant_id: &MerchantId,
    ) -> (r: Option<Customer>)
        requires
            self@.wf(),
        ensures
            r is Some <==> self@.has_customer(customer_id@, merchant_id@),
            r is Some ==> r->0@ == self@.customer_at(customer_id@, merchant_id@),
    {
        let n = self.customers.len();
        for i in 0..n
            invariant
                n == self.customers.len(),
                self@.wf(),
                forall|k: int|
                    0 <= k < i ==> !(#[trigger] self@.customers[k].customer_id == customer_id@
                        && self@.customers[k].merchant_id == merchant_id@),
        {
            if self.customers[i].customer_id == *customer_id && self.customers[i].merchant_id
                == *merchant_id {
                proof {
                    lemma_match_index_is(
                        self@.customers,
                        SpecStore::customer_pred(customer_id@, merchant_id@),
                        i as int,
                    );
                }
                return Some(self.customers[i].clone());
            }
        }
        assert(!self@.has_customer(customer_id@, merchant_id@));
        None
    }

    /// Insert a new customer row; reports a unique-constraint violation when
    /// the natural key is taken, leaving the table unchanged.
    pub fn insert_customer(&mut self, new: CustomerNew) -> (r: Result<Customer, StorageError>)
        requires
            old(self)@.wf(),
        ensures
            final(self)@.wf(),
            SpecStore::same_but_customers(old(self)@, final(self)@),
            r is Ok <==> !old(self)@.has_customer(new@.customer_id, new@.merchant_id),
            r is Ok ==> final(self)@.customers == old(self)@.customers.push(new@) && r->Ok_0@
                == new@,
            r is Err ==> r->Err_0 == StorageError::UniqueViolation && final(self)@ == old(self)@,
            final(self)@.has_customer(new@.customer_id, new@.merchant_id),
            final(self)@.customer_at(new@.customer_id, new@.merchant_id) == (
            if r is Ok {
                new@
            } else {
                old(self)@.customer_at(new@.customer_id, new@.merchant_id)
            }),
    {
        let existing = self.find_customer_by_customer_id_merchant_id(
            &new.customer_id,
            &new.merchant_id,
        );
        if existing.is_some() {
            return Err(StorageError::UniqueViolation);
        }
        let ghost pre = self@;
        let row = Customer {
            customer_id: new.customer_id,
            merchant_id: new.merchant_id,
            name: new.name,
            email: new.email,
            phone: new.phone,
            description: new.description,
            phone_country_code: new.phone_country_code,
            metadata: new.metadata,
        };
        let result = row.clone();
        self.customers.push(row);
        proof {
            assert(self@.customers =~= pre.customers.push(result@));
            assert(self@.intents =~= pre.intents);
            assert(self@.attempts =~= pre.attempts);
            assert(self@.addresses =~= pre.addresses);
            assert(self@.profiles =~= pre.profiles);
            assert(self@.fraud_checks =~= pre.fraud_checks);
            assert(self@.mandates =~= pre.mandates);
            assert(self@.payment_methods =~= pre.payment_methods);
            lemma_match_index_is(
                self@.customers,
                SpecStore::customer_pred(result@.customer_id, result@.merchant_id),
                pre.customers.len() as int,
            );
        }
        Ok(result)
    }

    /// Persist a customer update statement against the row with this natural
    /// key; fails with `NotFound` when there is none.
    pub fn update_customer_by_customer_id_merchant_id(
        &mut self,
        customer_id: CustomerId,
        merchant_id: MerchantId,
        update: CustomerUpdate,
    ) -> (r: Result<Customer, StorageError>)
        requires
            old(self)@.wf(),
        ensures
            final(self)@.wf(),
            SpecStore::same_but_customers(old(self)@, final(self)@),
            r is Ok <==> old(self)@.has_customer(customer_id@, merchant_id@),
            r is Ok ==> r->Ok_0@ == spec_apply_customer_update(
                old(self)@.customer_at(customer_id@, merchant_id@),
                update@,
            ) && final(self)@.customers == old(self)@.customers.update(
                old(self)@.customer_index(customer_id@, merchant_id@),
                spec_apply_customer_update(
                    old(self)@.customer_at(customer_id@, merchant_id@),
                    update@,
                ),
            ),
            r is Err ==> r->Err_0 == StorageError::NotFound && final(self)@ == old(self)@,
    {
        let ghost pre = self@;
        let n = self.customers.len();
        for i in 0..n
            invariant
                n == self.customers.len(),
                self@ == pre,
                pre == old(self)@,
                pre.wf(),
                forall|k: int|
                    0 <= k < i ==> !(#[trigger] pre.customers[k].customer_id == customer_id@
                        && pre.customers[k].merchant_id == merchant_id@),
        {
            if self.customers[i].customer_id == customer_id && self.customers[i].merchant_id
                == merchant_id {
                proof {
                    lemma_match_index_is(
                        pre.customers,
                        SpecStore::customer_pred(customer_id@, merchant_id@),
                        i as int,
                    );
                }
                let updated = apply_customer_update(&self.customers[i], &update);
                let result = updated.clone();
                self.customers.set(i, updated);
                proof {
                    assert(self@.customers =~= pre.customers.update(
                        i as int,
                        spec_apply_customer_update(pre.customers[i as int], update@),
                    ));
                    assert(self@.intents =~= pre.intents);
                    assert(self@.attempts =~= pre.attempts);
                    assert(self@.addresses =~= pre.addresses);
                    assert(self@.profiles =~= pre.profiles);
                    assert(self@.fraud_checks =~= pre.fraud_checks);
                    assert(self@.mandates =~= pre.mandates);
                    assert(self@.payment_methods =~= pre.payment_methods);
                }
                return Ok(result);
            }
        }
        assert(!pre.has_customer(customer_id@, merchant_id@));
        Err(StorageError::NotFound)
    }

    /// Load the business profile with this identifier.
    pub fn find_business_profile_by_profile_id(&self, profile_id: &ProfileId) -> (r: Option<
        BusinessProfile,
    >)
        requires
            self@.wf(),
        ensures
            r is Some <==> self@.has_profile(profile_id@),
            r is Some ==> r->0@ == self@.profile_at(profile_id@),
    {
        let n = self.profiles.len();
        for i in 0..n
            invariant
                n == self.profiles.len(),
                self@.wf(),
                forall|k: int| 0 <= k < i ==> !(#[trigger] self@.profiles[k].profile_id == profile_id@),
        {
            if self.profiles[i].profile_id == *profile_id {
                proof {
                    lemma_match_index_is(
                        self@.profiles,
                        SpecStore::profile_pred(profile_id@),
                        i as int,
                    );
                }
                return Some(self.profiles[i].clone());
            }
        }
        assert(!self@.has_profile(profile_id@));
        None
    }

    /// Insert a business profile; refused when the identifier is taken.
    pub fn insert_business_profile(&mut self, profile: BusinessProfile) -> (r: Result<
        BusinessProfile,
        StorageError,
    >)
        requires
            old(self)@.wf(),
        ensures
            final(self)@.wf(),
            r is Ok ==> !old(self)@.has_profile(profile@.profile_id) && final(self)@.profiles
                == old(self)@.profiles.push(profile@) && r->Ok_0@ == profile@,
            r is Err ==> r->Err_0 == StorageError::UniqueViolation && final(self)@ == old(self)@,
            final(self)@.has_profile(profile@.profile_id),
            final(self)@.intents == old(self)@.intents,
            final(self)@.attempts == old(self)@.attempts,
            final(self)@.addresses == old(self)@.addresses,
            final(self)@.customers == old(self)@.customers,
            final(self)@.fraud_checks == old(self)@.fraud_checks,
            final(self)@.mandates == old(self)@.mandates,
            final(self)@.payment_methods == old(self)@.payment_methods,
    {
        let existing = self.find_business_profile_by_profile_id(&profile.profile_id);
        if existing.is_some() {
            return Err(StorageError::UniqueViolation);
        }
        let ghost pre = self@;
        let result = profile.clone();
        self.profiles.push(profile);
        proof {
            assert(self@.profiles =~= pre.profiles.push(result@));
            assert(self@.intents =~= pre.intents);
            assert(self@.attempts =~= pre.attempts);
            assert(self@.addresses =~= pre.addresses);
            assert(self@.customers =~= pre.customers);
            assert(self@.fraud_checks =~= pre.fraud_checks);
            assert(self@.mandates =~= pre.mandates);
            assert(self@.payment_methods =~= pre.payment_methods);
            lemma_match_index_is(
                self@.profiles,
                SpecStore::profile_pred(result@.profile_id),
                pre.profiles.len() as int,
            );
        }
        Ok(result)
    }

    /// Load the fraud-check result recorded for this payment, if any.
    pub fn find_fraud_check_by_payment_id(
        &self,
        payment_id: &PaymentId,
        merchant_id: &MerchantId,
    ) -> (r: Option<FraudCheck>)
        requires
            self@.wf(),
        ensures
            r is Some <==> self@.has_fraud_check(payment_id@, merchant_id@),
            r is Some ==> r->0@ == self@.fraud_check_at(payment_id@, merchant_id@),
    {
        let n = self.fraud_checks.len();
        for i in 0..n
            invariant
                n == self.fraud_checks.len(),
                self@.wf(),
                forall|k: int|
                    0 <= k < i ==> !(#[trigger] self@.fraud_checks[k].payment_id == payment_id@
                        && self@.fraud_checks[k].merchant_id == merchant_id@),
        {
            if self.fraud_checks[i].payment_id == *payment_id && self.fraud_checks[i].merchant_id
                == *merchant_id {
                proof {
                    lemma_match_index_is(
                        self@.fraud_checks,
                        SpecStore::fraud_pred(payment_id@, merchant_id@),
                        i as int,
                    );
                }
                return Some(self.fraud_checks[i].clone());
            }
        }
        assert(!self@.has_fraud_check(payment_id@, merchant_id@));
        None
    }

    /// Insert a fraud-check result; refused when one is already recorded for
    /// the payment.
    pub fn insert_fraud_check(&mut self, fraud_check: FraudCheck) -> (r: Result<
        FraudCheck,
        StorageError,
    >)
        requires
            old(self)@.wf(),
        ensures
            final(self)@.wf(),
            r is Ok ==> final(self)@.fraud_checks == old(self)@.fraud_checks.push(fraud_check@)
                && r->Ok_0@ == fraud_check@,
            r is Err ==> r->Err_0 == StorageError::UniqueViolation && final(self)@ == old(self)@,
            final(self)@.has_fraud_check(fraud_check@.payment_id, fraud_check@.merchant_id),
            r is Ok ==> final(self)@.fraud_check_at(fraud_check@.payment_id, fraud_check@.merchant_id)
                == fraud_check@,
            final(self)@.intents == old(self)@.intents,
            final(self)@.attempts == old(self)@.attempts,
            final(self)@.addresses == old(self)@.addresses,
            final(self)@.customers == old(self)@.customers,
            final(self)@.profiles == old(self)@.profiles,
            final(self)@.mandates == old(self)@.mandates,
            final(self)@.payment_methods == old(self)@.payment_methods,
    {
        let existing = self.find_fraud_check_by_payment_id(
            &fraud_check.payment_id,
            &fraud_check.merchant_id,
        );
        if existing.is_some() {
            return Err(StorageError::UniqueViolation);
        }
        let ghost pre = self@;
        let result = fraud_check.clone();
        self.fraud_checks.push(fraud_check);
        proof {
            assert(self@.fraud_checks =~= pre.fraud_checks.push(result@));
            assert(self@.intents =~= pre.intents);
            assert(self@.attempts =~= pre.attempts);
            assert(self@.addresses =~= pre.addresses);
            assert(self@.customers =~= pre.customers);
            assert(self@.profiles =~= pre.profiles);
            assert(self@.mandates =~= pre.mandates);
            assert(self@.payment_methods =~= pre.payment_methods);
            lemma_match_index_is(
                self@.fraud_checks,
                SpecStore::fraud_pred(result@.payment_id, result@.merchant_id),
                pre.fraud_checks.len() as int,
            );
        }
        Ok(result)
    }


    /// All mandates of this customer under this merchant, in table order.
    pub fn find_mandate_by_merchant_id_customer_id(
        &self,
        merchant_id: &MerchantId,
        customer_id: &CustomerId,
    ) -> (r: Vec<Mandate>)
        ensures
            r.deep_view() == self@.mandates.filter(
                |m: SpecMandate| m.customer_id == customer_id@ && m.merchant_id == merchant_id@,
            ),
    {
        let ghost pred = |m: SpecMandate| m.customer_id == customer_id@ && m.merchant_id
            == merchant_id@;
        let mut r: Vec<Mandate> = Vec::new();
        let n = self.mandates.len();
        proof {
            assert(self@.mandates.subrange(0, 0) =~= Seq::<SpecMandate>::empty());
            reveal(Seq::filter);
        }
        for i in 0..n
            invariant
                n == self.mandates.len(),
                r.deep_view() == self@.mandates.subrange(0, i as int).filter(pred),
                pred == (|m: SpecMandate| m.customer_id == customer_id@ && m.merchant_id
                    == merchant_id@),
        {
            let ghost prefix = self@.mandates.subrange(0, i as int);
            let ghost prefix1 = self@.mandates.subrange(0, i as int + 1);
            proof {
                reveal(Seq::filter);
                assert(prefix1.drop_last() =~= prefix);
                assert(prefix1.last() == self@.mandates[i as int]);
            }
            if self.mandates[i].customer_id == *customer_id && self.mandates[i].merchant_id
                == *merchant_id {
                r.push(self.mandates[i].clone());
            }
        }
        proof {
            assert(self@.mandates.subrange(0, n as int) =~= self@.mandates);
        }
        r
    }

    /// Insert a mandate row; refused when the identifier is taken.
    pub fn insert_mandate(&mut self, mandate: Mandate) -> (r: Result<Mandate, StorageError>)
        requires
            old(self)@.wf(),
        ensures
            final(self)@.wf(),
            r is Ok ==> final(self)@.mandates == old(self)@.mandates.push(mandate@) && r->Ok_0@
                == mandate@,
            r is Err ==> r->Err_0 == StorageError::UniqueViolation && final(self)@ == old(self)@,
            final(self)@.intents == old(self)@.intents,
            final(self)@.attempts == old(self)@.attempts,
            final(self)@.addresses == old(self)@.addresses,
            final(self)@.customers == old(self)@.customers,
            final(self)@.profiles == old(self)@.profiles,
            final(self)@.fraud_checks == old(self)@.fraud_checks,
            final(self)@.payment_methods == old(self)@.payment_methods,
    {
        let n = self.mandates.len();
        for i in 0..n
            invariant
                n == self.mandates.len(),
                self@ == old(self)@,
                old(self)@.wf(),
                forall|k: int| 0 <= k < i ==> !(#[trigger] self@.mandates[k].mandate_id
                    == mandate@.mandate_id),
        {
            if self.mandates[i].mandate_id == mandate.mandate_id {
                return Err(StorageError::UniqueViolation);
            }
        }
        let ghost pre = self@;
        let result = mandate.clone();
        self.mandates.push(mandate);
        proof {
            assert(self@.mandates =~= pre.mandates.push(result@));
            assert(self@.intents =~= pre.intents);
            assert(self@.attempts =~= pre.attempts);
            assert(self@.addresses =~= pre.addresses);
            assert(self@.customers =~= pre.customers);
            assert(self@.profiles =~= pre.profiles);
            assert(self@.fraud_checks =~= pre.fraud_checks);
            assert(self@.payment_methods =~= pre.payment_methods);
        }
        Ok(result)
    }

    /// All stored payment methods of this customer under this merchant, in
    /// table order.
    pub fn find_payment_method_by_customer_id_merchant_id_list(
        &self,
        customer_id: &CustomerId,
        merchant_id: &MerchantId,
    ) -> (r: Vec<PaymentMethod>)
        ensures
            r.deep_view() == self@.payment_methods.filter(
                |p: SpecPaymentMethod| p.customer_id == customer_id@ && p.merchant_id
                    == merchant_id@,
            ),
    {
        let ghost pred = |p: SpecPaymentMethod| p.customer_id == customer_id@ && p.merchant_id
            == merchant_id@;
        let mut r: Vec<PaymentMethod> = Vec::new();
        let n = self.payment_methods.len();
        proof {
            assert(self@.payment_methods.subrange(0, 0) =~= Seq::<SpecPaymentMethod>::empty());
            reveal(Seq::filter);
        }
        for i in 0..n
            invariant
                n == self.payment_methods.len(),
                r.deep_view() == self@.payment_methods.subrange(0, i as int).filter(pred),
                pred == (|p: SpecPaymentMethod| p.customer_id == customer_id@ && p.merchant_id
                    == merchant_id@),
        {
            let ghost prefix = self@.payment_methods.subrange(0, i as int);
            let ghost prefix1 = self@.payment_methods.subrange(0, i as int + 1);
            proof {
                reveal(Seq::filter);
                assert(prefix1.drop_last() =~= prefix);
                assert(prefix1.last() == self@.payment_methods[i as int]);
            }
            if self.payment_methods[i].customer_id == *customer_id
                && self.payment_methods[i].merchant_id == *merchant_id {
                r.push(self.payment_methods[i].clone());
            }
        }
        proof {
            assert(self@.payment_methods.subrange(0, n as int) =~= self@.payment_methods);
        }
        r
    }

    /// Insert a stored payment method; refused when the identifier is taken
    /// for this merchant.
    pub fn insert_payment_method(&mut self, payment_method: PaymentMethod) -> (r: Result<
        PaymentMethod,
        StorageError,
    >)
        requires
            old(self)@.wf(),
        ensures
            final(self)@.wf(),
            SpecStore::same_but_payment_methods(old(self)@, final(self)@),
            r is Ok ==> final(self)@.payment_methods == old(self)@.payment_methods.push(
                payment_method@,
            ) && r->Ok_0@ == payment_method@,
            r is Err ==> r->Err_0 == StorageError::UniqueViolation && final(self)@ == old(self)@,
    {
        let n = self.payment_methods.len();
        for i in 0..n
            invariant
                n == self.payment_methods.len(),
                self@ == old(self)@,
                old(self)@.wf(),
                forall|k: int| 0 <= k < i ==> !(#[trigger] self@.payment_methods[k].payment_method_id
                    == payment_method@.payment_method_id),
        {
            if self.payment_methods[i].payment_method_id == payment_method.payment_method_id {
                return Err(StorageError::UniqueViolation);
            }
        }
        let ghost pre = self@;
        let result = payment_method.clone();
        self.payment_methods.push(payment_method);
        proof {
            assert(self@.payment_methods =~= pre.payment_methods.push(result@));
            assert(self@.intents =~= pre.intents);
            assert(self@.attempts =~= pre.attempts);
            assert(self@.addresses =~= pre.addresses);
            assert(self@.customers =~= pre.customers);
            assert(self@.profiles =~= pre.profiles);
            assert(self@.fraud_checks =~= pre.fraud_checks);
            assert(self@.mandates =~= pre.mandates);
        }
        Ok(result)
    }

    /// Remove the stored payment method with this identifier under this
    /// merchant; fails with `NotFound` when there is none.
    pub fn delete_payment_method_by_merchant_id_payment_method_id(
        &mut self,
        merchant_id: &MerchantId,
        payment_method_id: &String,
    ) -> (r: Result<(), StorageError>)
        requires
            old(self)@.wf(),
        ensures
            final(self)@.wf(),
            SpecStore::same_but_payment_methods(old(self)@, final(self)@),
            r is Ok <==> old(self)@.has_payment_method(payment_method_id@, merchant_id@),
            r is Ok ==> final(self)@.payment_methods == old(self)@.payment_methods.remove(
                old(self)@.payment_method_index(payment_method_id@, merchant_id@),
            ),
            r is Err ==> r->Err_0 == StorageError::NotFound && final(self)@ == old(self)@,
    {
        let ghost pre = self@;
        let n = self.payment_methods.len();
        for i in 0..n
            invariant
                n == self.payment_methods.len(),
                self@ == pre,
                pre == old(self)@,
                pre.wf(),
                forall|k: int|
                    0 <= k < i ==> !(#[trigger] pre.payment_methods[k].payment_method_id
                        == payment_method_id@ && pre.payment_methods[k].merchant_id == merchant_id@),
        {
            if self.payment_methods[i].payment_method_id == *payment_method_id
                && self.payment_methods[i].merchant_id == *merchant_id {
                proof {
                    lemma_match_index_is(
                        pre.payment_methods,
                        SpecStore::payment_method_pred(payment_method_id@, merchant_id@),
                        i as int,
                    );
                }
                self.payment_methods.remove(i);
                proof {
                    assert(self@.payment_methods =~= pre.payment_methods.remove(i as int));
                    assert(self@.intents =~= pre.intents);
                    assert(self@.attempts =~= pre.attempts);
                    assert(self@.addresses =~= pre.addresses);
                    assert(self@.customers =~= pre.customers);
                    assert(self@.profiles =~= pre.profiles);
                    assert(self@.fraud_checks =~= pre.fraud_checks);
                    assert(self@.mandates =~= pre.mandates);
                    pre.payment_methods.remove_ensures(i as int);
                    assert forall|a: int, b: int|
                        0 <= a < b < self@.payment_methods.len() implies
                        self@.payment_methods[a].payment_method_id
                            != self@.payment_methods[b].payment_method_id by {
                        let oa = if a < i as int { a } else { a + 1 };
                        let ob = if b < i as int { b } else { b + 1 };
                        assert(self@.payment_methods[a] == pre.payment_methods[oa]);
                        assert(self@.payment_methods[b] == pre.payment_methods[ob]);
                    }
                }
                return Ok(());
            }
        }
        assert(!pre.has_payment_method(payment_method_id@, merchant_id@));
        Err(StorageError::NotFound)
    }
}

} // verus!
