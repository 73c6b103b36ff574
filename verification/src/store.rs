use crate::driven::{
    CreatingChargeError, CreatingGatewayIntegrationError, CreatingInvoiceError,
    CreatingInvoiceItemError, CreatingPaymentMethodError, CreatingUserError, UpdatingInvoiceError,
};
use crate::dto::charge::{Charge, ChargeCreatedEvent, ChargeStatus};
use crate::dto::gateway::Gateway;
use crate::dto::gateway_integration::GatewayIntegration;
use crate::dto::invoice::{Invoice, InvoiceStatus, InvoiceV};
use crate::dto::invoice_item::{InvoiceItem, InvoiceItemV};
use crate::dto::payment_method::{Method, PaymentMethod, PaymentMethodInfo};
use crate::dto::user::User;
use vstd::prelude::*;

verus! {

/// Index of the first element of `s` that satisfies `p`.
pub open spec fn first_index<T>(s: Seq<T>, p: spec_fn(T) -> bool) -> Option<int>
    decreases s.len(),
{
    if s.len() == 0 {
        None
    } else if p(s[0]) {
        Some(0)
    } else {
        match first_index(s.skip(1), p) {
            None => None,
            Some(i) => Some(i + 1),
        }
    }
}

/// What `first_index` finds: the first matching position, if any.
pub proof fn lemma_first_index<T>(s: Seq<T>, p: spec_fn(T) -> bool)
    ensures
        match first_index(s, p) {
            Some(i) => 0 <= i < s.len() && p(s[i]) && forall|j: int| 0 <= j < i ==> !#[trigger] p(s[j]),
            None => forall|j: int| 0 <= j < s.len() ==> !#[trigger] p(s[j]),
        },
    decreases s.len(),
{
    if s.len() > 0 && !p(s[0]) {
        lemma_first_index(s.skip(1), p);
        assert forall|j: int| 0 <= j < s.len() && !p(s.skip(1)[j - 1]) && j >= 1 implies !p(s[j]) by {
            assert(s.skip(1)[j - 1] == s[j]);
        }
    }
}

/// The subsequence of elements of `s` that satisfy `p`, in order.
pub open spec fn matching<T>(s: Seq<T>, p: spec_fn(T) -> bool) -> Seq<T>
    decreases s.len(),
{
    if s.len() == 0 {
        Seq::empty()
    } else {
        matching(s.drop_last(), p) + (if p(s.last()) {
            seq![s.last()]
        } else {
            Seq::<T>::empty()
        })
    }
}

/// `matching` keeps at most every element.
pub proof fn lemma_matching_len<T>(s: Seq<T>, p: spec_fn(T) -> bool)
    ensures
        matching(s, p).len() <= s.len(),
    decreases s.len(),
{
    if s.len() > 0 {
        lemma_matching_len(s.drop_last(), p);
    }
}

/// Every element `matching` keeps satisfies `p` and occurs in `s`.
pub proof fn lemma_matching_membership<T>(s: Seq<T>, p: spec_fn(T) -> bool)
    ensures
        forall|k: int| 0 <= k < matching(s, p).len() ==> p(#[trigger] matching(s, p)[k])
            && exists|j: int| 0 <= j < s.len() && s[j] == matching(s, p)[k],
    decreases s.len(),
{
    if s.len() > 0 {
        lemma_matching_membership(s.drop_last(), p);
        let m = matching(s, p);
        let md = matching(s.drop_last(), p);
        assert forall|k: int| 0 <= k < m.len() implies p(#[trigger] m[k]) && exists|j: int|
            0 <= j < s.len() && s[j] == m[k] by {
            if k < md.len() {
                assert(m[k] == md[k]);
                let j = choose|j: int| 0 <= j < s.drop_last().len() && s.drop_last()[j] == md[k];
                assert(s[j] == m[k]);
            } else {
                assert(p(s.last()));
                assert(m[k] == s.last());
                assert(s[s.len() - 1] == m[k]);
            }
        }
    }
}

/// The predicate "this user carries the given external id".
pub open spec fn has_external(external_id: u128) -> spec_fn(User) -> bool {
    |u: User| u.external_id == external_id
}

/// The predicate "this invoice carries the given id".
pub open spec fn has_invoice_id(id: u128) -> spec_fn(Invoice) -> bool {
    |i: Invoice| i.id == id
}

/// The predicate "this invoice belongs to the given user".
pub open spec fn owned_by(user_id: u128) -> spec_fn(Invoice) -> bool {
    |i: Invoice| i.user_id == user_id
}

/// The predicate "this invoice is the given user's Draft".
pub open spec fn draft_of(user_id: u128) -> spec_fn(Invoice) -> bool {
    |i: Invoice| i.user_id == user_id && i.status is Draft
}

/// The predicate "this invoice is eligible to be charged".
pub open spec fn is_chargeable() -> spec_fn(Invoice) -> bool {
    |i: Invoice| i.status is Pending
}

/// The predicate "this payment method is the given user's default".
pub open spec fn default_of(user_id: u128) -> spec_fn(PaymentMethod) -> bool {
    |p: PaymentMethod| p.user_id == user_id && p.is_default
}

/// The predicate "this cache entry is stored under the given key".
pub open spec fn has_key(key: Seq<char>) -> spec_fn(CacheEntry) -> bool {
    |e: CacheEntry| e.key@ == key
}

/// One entry of the idempotency cache: a namespaced key and the serialized
/// response stored under it.
#[derive(Debug, PartialEq)]
pub struct CacheEntry {
    pub key: String,
    pub value: String,
}

impl Clone for CacheEntry {
    fn clone(&self) -> (r: Self)
        ensures
            r == *self,
    {
        CacheEntry { key: self.key.clone(), value: self.value.clone() }
    }
}

/// The value the first cache entry with key `key` holds, if any.
pub open spec fn cache_lookup(entries: Seq<CacheEntry>, key: Seq<char>) -> Option<Seq<char>> {
    match first_index(entries, has_key(key)) {
        None => None,
        Some(i) => Some(entries[i].value@),
    }
}

/// Everything the billing core coordinates through shared services: the
/// relational tables, the idempotency cache, the events published on the
/// message bus, and the source of fresh identifiers.
///
/// Identifiers are handed out from the `next_id` counter, so that a
/// well-formed state can always tell fresh rows from existing ones.
pub struct BillingState {
    pub users: Vec<User>,
    pub invoices: Vec<Invoice>,
    pub payment_methods: Vec<PaymentMethod>,
    pub gateways: Vec<Gateway>,
    pub gateway_integrations: Vec<GatewayIntegration>,
    pub charges: Vec<Charge>,
    pub events: Vec<ChargeCreatedEvent>,
    pub cache: Vec<CacheEntry>,
    pub next_id: u128,
}

/// Where the first user with the given external id stands, if any.
pub open spec fn user_index(users: Seq<User>, external_id: u128) -> Option<int> {
    first_index(users, has_external(external_id))
}

/// Where the invoice with the given id stands, if any.
pub open spec fn invoice_index(invoices: Seq<Invoice>, id: u128) -> Option<int> {
    first_index(invoices, has_invoice_id(id))
}

/// Where the first Draft invoice of the given user stands, if any.
pub open spec fn draft_index(invoices: Seq<Invoice>, user_id: u128) -> Option<int> {
    first_index(invoices, draft_of(user_id))
}

/// Where the first default payment method of the given user stands, if any.
pub open spec fn default_pm_index(pms: Seq<PaymentMethod>, user_id: u128) -> Option<int> {
    first_index(pms, default_of(user_id))
}

/// Whether a gateway integration for the `(user, gateway)` pair exists.
pub open spec fn has_integration(
    gis: Seq<GatewayIntegration>,
    user_id: u128,
    gateway_id: u128,
) -> bool {
    exists|j: int|
        0 <= j < gis.len() && (#[trigger] gis[j]).user_id == user_id && gis[j].gateway_id
            == gateway_id
}

/// The invoices owned by the given user, in order.
pub open spec fn invoices_of_user(invoices: Seq<Invoice>, user_id: u128) -> Seq<Invoice> {
    matching(invoices, owned_by(user_id))
}

/// The invoices eligible to be charged: those in status Pending.
pub open spec fn invoices_to_charge_of(invoices: Seq<Invoice>) -> Seq<Invoice> {
    matching(invoices, is_chargeable())
}

/// The given items stamped with persisted identifiers `base`, `base + 1`, ...
pub open spec fn stamped_items(itens: Seq<InvoiceItemV>, base: int) -> Seq<InvoiceItemV> {
    Seq::new(
        itens.len(),
        |k: int|
            InvoiceItemV {
                id: Some((base + k) as u128),
                description: itens[k].description,
                quantity: itens[k].quantity,
                amount: itens[k].amount,
                currency: itens[k].currency,
            },
    )
}

/// The item views of a sequence of items.
pub open spec fn item_views(itens: Seq<InvoiceItem>) -> Seq<InvoiceItemV> {
    itens.map_values(|it: InvoiceItem| it@)
}

impl BillingState {
    /// Well-formedness: every system-assigned identifier was handed out by
    /// the counter, invoice identifiers are unique, and the gateway list is
    /// ordered by ascending priority.
    pub open spec fn wf(&self) -> bool {
        &&& forall|i: int|
            0 <= i < self.users@.len() ==> (#[trigger] self.users@[i]).id < self.next_id
        &&& forall|i: int|
            0 <= i < self.invoices@.len() ==> (#[trigger] self.invoices@[i]).id < self.next_id
        &&& forall|i: int, j: int|
            0 <= i < j < self.invoices@.len() ==> (#[trigger] self.invoices@[i]).id != (
            #[trigger] self.invoices@[j]).id
        &&& forall|i: int|
            0 <= i < self.payment_methods@.len() ==> (#[trigger] self.payment_methods@[i]).id
                < self.next_id
        &&& forall|i: int|
            0 <= i < self.gateway_integrations@.len() ==> (
            #[trigger] self.gateway_integrations@[i]).id < self.next_id
        &&& forall|i: int|
            0 <= i < self.charges@.len() ==> (#[trigger] self.charges@[i]).id < self.next_id
        &&& forall|i: int, j: int|
            0 <= i < j < self.gateways@.len() ==> (#[trigger] self.gateways@[i]).priority <= (
            #[trigger] self.gateways@[j]).priority
    }

    /// A fresh, empty state.
    pub fn new() -> (r: BillingState)
        ensures
            r.wf(),
            r.users@ == Seq::<User>::empty(),
            r.invoices@ == Seq::<Invoice>::empty(),
            r.payment_methods@ == Seq::<PaymentMethod>::empty(),
            r.gateways@ == Seq::<Gateway>::empty(),
            r.gateway_integrations@ == Seq::<GatewayIntegration>::empty(),
            r.charges@ == Seq::<Charge>::empty(),
            r.events@ == Seq::<ChargeCreatedEvent>::empty(),
            r.cache@ == Seq::<CacheEntry>::empty(),
            r.next_id == 0,
    {
        BillingState {
            users: Vec::new(),
            invoices: Vec::new(),
            payment_methods: Vec::new(),
            gateways: Vec::new(),
            gateway_integrations: Vec::new(),
            charges: Vec::new(),
            events: Vec::new(),
            cache: Vec::new(),
            next_id: 0,
        }
    }

    /// Reads the user the caller-assigned external id names.
    pub fn user_by_external_id(&self, external_id: u128) -> (r: Result<
        User,
        crate::driven::ReadingUserError,
    >)
        ensures
            match user_index(self.users@, external_id) {
                Some(i) => r == Ok::<User, crate::driven::ReadingUserError>(self.users@[i]),
                None => r == Err::<User, crate::driven::ReadingUserError>(
                    crate::driven::ReadingUserError::UserNotFoundError,
                ),
            },
    {
        proof {
            lemma_first_index(self.users@, has_external(external_id));
        }
        let n = self.users.len();
        let mut i: usize = 0;
        while i < n
            invariant
                i <= n,
                n == self.users.len(),
                forall|j: int| 0 <= j < i ==> (#[trigger] self.users@[j]).external_id != external_id,
            decreases n - i,
        {
            if self.users[i].external_id == external_id {
                proof {
                    let p = has_external(external_id);
                    lemma_first_index(self.users@, p);
                    assert(p(self.users@[i as int]));
                    assert forall|j: int| 0 <= j < i implies !#[trigger] p(self.users@[j]) by {}
                }
                return Ok(self.users[i]);
            }
            i = i + 1;
        }
        proof {
            let p = has_external(external_id);
            assert forall|j: int| 0 <= j < n implies !#[trigger] p(self.users@[j]) by {}
        }
        Err(crate::driven::ReadingUserError::UserNotFoundError)
    }

    /// Reads the invoice the given id names; its items are returned with it.
    pub fn invoice_by_id(&self, id: u128) -> (r: Result<
        Invoice,
        crate::driven::ReadingInvoiceError,
    >)
        ensures
            match invoice_index(self.invoices@, id) {
                Some(i) => r is Ok && r->Ok_0@ == self.invoices@[i]@,
                None => r == Err::<Invoice, crate::driven::ReadingInvoiceError>(
                    crate::driven::ReadingInvoiceError::InvoiceNotFoundError,
                ),
            },
    {
        proof {
            lemma_first_index(self.invoices@, has_invoice_id(id));
        }
        let n = self.invoices.len();
        let mut i: usize = 0;
        while i < n
            invariant
                i <= n,
                n == self.invoices.len(),
                forall|j: int| 0 <= j < i ==> (#[trigger] self.invoices@[j]).id != id,
            decreases n - i,
        {
            if self.invoices[i].id == id {
                proof {
                    let p = has_invoice_id(id);
                    lemma_first_index(self.invoices@, p);
                    assert(p(self.invoices@[i as int]));
                    assert forall|j: int| 0 <= j < i implies !#[trigger] p(self.invoices@[j]) by {}
                }
                return Ok(self.invoices[i].clone());
            }
            i = i + 1;
        }
        proof {
            let p = has_invoice_id(id);
            assert forall|j: int| 0 <= j < n implies !#[trigger] p(self.invoices@[j]) by {}
        }
        Err(crate::driven::ReadingInvoiceError::InvoiceNotFoundError)
    }

    /// Reads the first default payment method of the given user. Its absence
    /// is reported like any other lookup failure of the persistence layer.
    pub fn default_payment_method(&self, user_id: u128) -> (r: Result<
        PaymentMethod,
        crate::driven::ReadingPaymentMethodError,
    >)
        ensures
            match default_pm_index(self.payment_methods@, user_id) {
                Some(i) => r == Ok::<PaymentMethod, crate::driven::ReadingPaymentMethodError>(
                    self.payment_methods@[i],
                ),
                None => r == Err::<PaymentMethod, crate::driven::ReadingPaymentMethodError>(
                    crate::driven::ReadingPaymentMethodError::UnmappedError,
                ),
            },
    {
        proof {
            lemma_first_index(self.payment_methods@, default_of(user_id));
        }
        let n = self.payment_methods.len();
        let mut i: usize = 0;
        while i < n
            invariant
                i <= n,
                n == self.payment_methods.len(),
                forall|j: int|
                    0 <= j < i ==> !((#[trigger] self.payment_methods@[j]).user_id == user_id
                        && self.payment_methods@[j].is_default),
            decreases n - i,
        {
            if self.payment_methods[i].user_id == user_id && self.payment_methods[i].is_default {
                proof {
                    let p = default_of(user_id);
                    lemma_first_index(self.payment_methods@, p);
                    assert(p(self.payment_methods@[i as int]));
                    assert forall|j: int| 0 <= j < i implies !#[trigger] p(
                        self.payment_methods@[j],
                    ) by {}
                }
                let found = self.payment_methods[i].clone();
                return Ok(found);
            }
            i = i + 1;
        }
        proof {
            let p = default_of(user_id);
            assert forall|j: int| 0 <= j < n implies !#[trigger] p(self.payment_methods@[j]) by {}
        }
        Err(crate::driven::ReadingPaymentMethodError::UnmappedError)
    }

    /// Reads the invoices of the given user, in order.
    pub fn invoices_by_user(&self, user_id: u128) -> (r: Result<
        Vec<Invoice>,
        crate::driven::ReadingInvoiceError,
    >)
        ensures
            r is Ok,
            r->Ok_0@.len() == invoices_of_user(self.invoices@, user_id).len(),
            forall|k: int|
                0 <= k < r->Ok_0@.len() ==> (#[trigger] r->Ok_0@[k])@ == invoices_of_user(
                    self.invoices@,
                    user_id,
                )[k]@,
    {
        let mut out: Vec<Invoice> = Vec::new();
        let n = self.invoices.len();
        let mut i: usize = 0;
        while i < n
            invariant
                i <= n,
                n == self.invoices.len(),
                out@.len() == matching(self.invoices@.take(i as int), owned_by(user_id)).len(),
                forall|k: int|
                    0 <= k < out@.len() ==> (#[trigger] out@[k])@ == matching(self.invoices@.take(i as int), owned_by(user_id))[k]@,
            decreases n - i,
        {
            proof {
                assert(self.invoices@.take(i + 1 as int).drop_last() =~= self.invoices@.take(
                    i as int,
                ));
                assert(self.invoices@.take(i + 1 as int).last() == self.invoices@[i as int]);
            }
            if self.invoices[i].user_id == user_id {
                out.push(self.invoices[i].clone());
            }
            i = i + 1;
        }
        proof {
            assert(self.invoices@.take(n as int) =~= self.invoices@);
        }
        Ok(out)
    }

    /// Reads the invoices eligible to be charged: those in status Pending.
    pub fn invoices_to_charge(&self) -> (r: Result<
        Vec<Invoice>,
        crate::driven::ReadingInvoiceError,
    >)
        ensures
            r is Ok,
            r->Ok_0@.len() == invoices_to_charge_of(self.invoices@).len(),
            forall|k: int|
                0 <= k < r->Ok_0@.len() ==> (#[trigger] r->Ok_0@[k])@ == invoices_to_charge_of(
                    self.invoices@,
                )[k]@,
    {
        let mut out: Vec<Invoice> = Vec::new();
        let n = self.invoices.len();
        let mut i: usize = 0;
        while i < n
            invariant
                i <= n,
                n == self.invoices.len(),
                out@.len() == matching(self.invoices@.take(i as int), is_chargeable()).len(),
                forall|k: int|
                    0 <= k < out@.len() ==> (#[trigger] out@[k])@ == matching(self.invoices@.take(i as int), is_chargeable())[k]@,
            decreases n - i,
        {
            proof {
                assert(self.invoices@.take(i + 1 as int).drop_last() =~= self.invoices@.take(
                    i as int,
                ));
                assert(self.invoices@.take(i + 1 as int).last() == self.invoices@[i as int]);
            }
            if matches!(self.invoices[i].status, crate::dto::invoice::InvoiceStatus::Pending) {
                out.push(self.invoices[i].clone());
            }
            i = i + 1;
        }
        proof {
            assert(self.invoices@.take(n as int) =~= self.invoices@);
        }
        Ok(out)
    }

    /// Reads the gateway list, already ordered by ascending priority.
    pub fn gateway_priority_list(&self) -> (r: Result<
        Vec<Gateway>,
        crate::driven::ReadingGatewayError,
    >)
        ensures
            r is Ok,
            r->Ok_0@.len() == self.gateways@.len(),
            forall|k: int| 0 <= k < r->Ok_0@.len() ==> #[trigger] r->Ok_0@[k] == self.gateways@[k],
    {
        let mut out: Vec<Gateway> = Vec::new();
        let n = self.gateways.len();
        let mut i: usize = 0;
        while i < n
            invariant
                i <= n,
                n == self.gateways.len(),
                out@.len() == i,
                forall|k: int| 0 <= k < i ==> #[trigger] out@[k] == self.gateways@[k],
            decreases n - i,
        {
            out.push(self.gateways[i].clone());
            i = i + 1;
        }
        Ok(out)
    }

    /// Reads the cache entry stored under `key`, if any.
    pub fn cache_get(&self, key: &str) -> (r: Option<String>)
        ensures
            match (r, cache_lookup(self.cache@, key@)) {
                (Some(s), Some(v)) => s@ == v,
                (None, None) => true,
                _ => false,
            },
    {
        proof {
            lemma_first_index(self.cache@, has_key(key@));
        }
        let keyed = String::from_str(key);
        let n = self.cache.len();
        let mut i: usize = 0;
        while i < n
            invariant
                i <= n,
                n == self.cache.len(),
                keyed@ == key@,
                forall|j: int| 0 <= j < i ==> (#[trigger] self.cache@[j]).key@ != key@,
            decreases n - i,
        {
            if self.cache[i].key == keyed {
                proof {
                    let p = has_key(key@);
                    lemma_first_index(self.cache@, p);
                    assert(p(self.cache@[i as int]));
                    assert forall|j: int| 0 <= j < i implies !#[trigger] p(self.cache@[j]) by {}
                }
                return Some(self.cache[i].value.clone());
            }
            i = i + 1;
        }
        proof {
            let p = has_key(key@);
            assert forall|j: int| 0 <= j < n implies !#[trigger] p(self.cache@[j]) by {}
        }
        None
    }

    /// Stores `value` under `key`. Earlier entries win on lookup, so an
    /// existing key keeps its stored value.
    pub fn cache_set(&mut self, key: String, value: String)
        ensures
            final(self).cache@ == old(self).cache@.push(
                CacheEntry { key: key, value: value },
            ),
            final(self).users == old(self).users,
            final(self).invoices == old(self).invoices,
            final(self).payment_methods == old(self).payment_methods,
            final(self).gateways == old(self).gateways,
            final(self).gateway_integrations == old(self).gateway_integrations,
            final(self).charges == old(self).charges,
            final(self).events == old(self).events,
            final(self).next_id == old(self).next_id,
    {
        self.cache.push(CacheEntry { key, value });
    }

    /// Where the invoice with the given id stands in the table, if anywhere.
    fn find_invoice_pos(&self, id: u128) -> (r: Option<usize>)
        ensures
            match (r, invoice_index(self.invoices@, id)) {
                (Some(u), Some(k)) => u == k && u < self.invoices@.len(),
                (None, None) => true,
                _ => false,
            },
    {
        let n = self.invoices.len();
        let mut i: usize = 0;
        while i < n
            invariant
                i <= n,
                n == self.invoices.len(),
                forall|j: int| 0 <= j < i ==> (#[trigger] self.invoices@[j]).id != id,
            decreases n - i,
        {
            if self.invoices[i].id == id {
                proof {
                    let p = has_invoice_id(id);
                    lemma_first_index(self.invoices@, p);
                    assert(p(self.invoices@[i as int]));
                    assert forall|j: int| 0 <= j < i implies !#[trigger] p(self.invoices@[j]) by {}
                }
                return Some(i);
            }
            i = i + 1;
        }
        proof {
            let p = has_invoice_id(id);
            lemma_first_index(self.invoices@, p);
            assert forall|j: int| 0 <= j < n implies !#[trigger] p(self.invoices@[j]) by {}
        }
        None
    }

    /// Where the first Draft invoice of the given user stands, if anywhere.
    pub fn find_draft_pos(&self, user_id: u128) -> (r: Option<usize>)
        ensures
            match (r, draft_index(self.invoices@, user_id)) {
                (Some(u), Some(k)) => u == k && u < self.invoices@.len(),
                (None, None) => true,
                _ => false,
            },
    {
        let n = self.invoices.len();
        let mut i: usize = 0;
        while i < n
            invariant
                i <= n,
                n == self.invoices.len(),
                forall|j: int|
                    0 <= j < i ==> !((#[trigger] self.invoices@[j]).user_id == user_id
                        && self.invoices@[j].status is Draft),
            decreases n - i,
        {
            if self.invoices[i].user_id == user_id && matches!(
                self.invoices[i].status,
                crate::dto::invoice::InvoiceStatus::Draft
            ) {
                proof {
                    let p = draft_of(user_id);
                    lemma_first_index(self.invoices@, p);
                    assert(p(self.invoices@[i as int]));
                    assert forall|j: int| 0 <= j < i implies !#[trigger] p(self.invoices@[j]) by {}
                }
                return Some(i);
            }
            i = i + 1;
        }
        proof {
            let p = draft_of(user_id);
            lemma_first_index(self.invoices@, p);
            assert forall|j: int| 0 <= j < n implies !#[trigger] p(self.invoices@[j]) by {}
        }
        None
    }

    /// Creates a user row under a fresh identifier.
    pub fn create_user_row(&mut self, external_id: u128) -> (r: Result<User, CreatingUserError>)
        requires
            old(self).wf(),
        ensures
            final(self).wf(),
            final(self).invoices == old(self).invoices,
            final(self).payment_methods == old(self).payment_methods,
            final(self).gateways == old(self).gateways,
            final(self).gateway_integrations == old(self).gateway_integrations,
            final(self).charges == old(self).charges,
            final(self).events == old(self).events,
            final(self).cache == old(self).cache,
            if old(self).next_id < u128::MAX {
                let u = User { id: old(self).next_id, external_id: external_id };
                &&& r == Ok::<User, CreatingUserError>(u)
                &&& final(self).users@ == old(self).users@.push(u)
                &&& final(self).next_id == old(self).next_id + 1
            } else {
                &&& r == Err::<User, CreatingUserError>(CreatingUserError::UnmappedError)
                &&& *final(self) == *old(self)
            },
    {
        if self.next_id == u128::MAX {
            return Err(CreatingUserError::UnmappedError);
        }
        let u = User { id: self.next_id, external_id };
        self.users.push(u);
        self.next_id = self.next_id + 1;
        Ok(u)
    }

    /// Creates an invoice row in status Draft together with its item rows,
    /// all under fresh identifiers.
    pub fn create_invoice_row(&mut self, user_id: u128, itens: &Vec<InvoiceItem>) -> (r: Result<
        Invoice,
        CreatingInvoiceError,
    >)
        requires
            old(self).wf(),
        ensures
            final(self).wf(),
            final(self).users == old(self).users,
            final(self).payment_methods == old(self).payment_methods,
            final(self).gateways == old(self).gateways,
            final(self).gateway_integrations == old(self).gateway_integrations,
            final(self).charges == old(self).charges,
            final(self).events == old(self).events,
            final(self).cache == old(self).cache,
            if old(self).next_id + 1 + itens@.len() <= u128::MAX {
                let iv = InvoiceV {
                    id: old(self).next_id,
                    user_id: user_id,
                    status: InvoiceStatus::Draft,
                    itens: stamped_items(item_views(itens@), old(self).next_id + 1),
                };
                &&& r is Ok
                &&& r->Ok_0@ == iv
                &&& final(self).invoices@.len() == old(self).invoices@.len() + 1
                &&& final(self).invoices@.drop_last() == old(self).invoices@
                &&& final(self).invoices@.last()@ == iv
                &&& final(self).next_id == old(self).next_id + 1 + itens@.len()
            } else {
                &&& r == Err::<Invoice, CreatingInvoiceError>(CreatingInvoiceError::UnmappedError)
                &&& *final(self) == *old(self)
            },
    {
        let n = itens.len();
        if (n as u128) >= u128::MAX - self.next_id {
            return Err(CreatingInvoiceError::UnmappedError);
        }
        let id = self.next_id;
        let base = self.next_id + 1;
        let ghost target = stamped_items(item_views(itens@), id as int + 1);
        let mut its: Vec<InvoiceItem> = Vec::new();
        let mut k: usize = 0;
        while k < n
            invariant
                k <= n,
                n == itens.len(),
                base == id + 1,
                id as int + 1 + n as int <= u128::MAX as int,
                target == stamped_items(item_views(itens@), id as int + 1),
                its@.len() == k,
                forall|j: int| 0 <= j < k ==> (#[trigger] its@[j])@ == target[j],
            decreases n - k,
        {
            let mut it = itens[k].clone();
            it.id = Some(base + (k as u128));
            its.push(it);
            k = k + 1;
        }
        let inv = Invoice { id, user_id, status: InvoiceStatus::Draft, itens: its };
        proof {
            assert(item_views(inv.itens@) =~= target);
        }
        let out = inv.clone();
        self.invoices.push(inv);
        self.next_id = base + (n as u128);
        proof {
            assert(self.invoices@.drop_last() =~= old(self).invoices@);
        }
        Ok(out)
    }

    /// Appends one item row to an existing invoice, under a fresh identifier.
    pub fn insert_item_row(&mut self, invoice_id: u128, item: &InvoiceItem) -> (r: Result<
        InvoiceItem,
        CreatingInvoiceItemError,
    >)
        requires
            old(self).wf(),
        ensures
            final(self).wf(),
            final(self).users == old(self).users,
            final(self).payment_methods == old(self).payment_methods,
            final(self).gateways == old(self).gateways,
            final(self).gateway_integrations == old(self).gateway_integrations,
            final(self).charges == old(self).charges,
            final(self).events == old(self).events,
            final(self).cache == old(self).cache,
            match invoice_index(old(self).invoices@, invoice_id) {
                Some(ix) => if old(self).next_id < u128::MAX {
                    let itv = InvoiceItemV {
                        id: Some(old(self).next_id),
                        description: item@.description,
                        quantity: item@.quantity,
                        amount: item@.amount,
                        currency: item@.currency,
                    };
                    &&& r is Ok
                    &&& r->Ok_0@ == itv
                    &&& final(self).invoices@.len() == old(self).invoices@.len()
                    &&& final(self).invoices@[ix]@ == InvoiceV {
                        id: old(self).invoices@[ix]@.id,
                        user_id: old(self).invoices@[ix]@.user_id,
                        status: old(self).invoices@[ix]@.status,
                        itens: old(self).invoices@[ix]@.itens.push(itv),
                    }
                    &&& forall|k: int|
                        0 <= k < final(self).invoices@.len() && k != ix
                            ==> final(self).invoices@[k] == old(self).invoices@[k]
                    &&& final(self).next_id == old(self).next_id + 1
                } else {
                    &&& r == Err::<InvoiceItem, CreatingInvoiceItemError>(
                        CreatingInvoiceItemError::UnmappedError,
                    )
                    &&& *final(self) == *old(self)
                },
                None => {
                    &&& r == Err::<InvoiceItem, CreatingInvoiceItemError>(
                        CreatingInvoiceItemError::UnmappedError,
                    )
                    &&& *final(self) == *old(self)
                },
            },
    {
        let pos = match self.find_invoice_pos(invoice_id) {
            Some(p) => p,
            None => {
                return Err(CreatingInvoiceItemError::UnmappedError);
            },
        };
        if self.next_id == u128::MAX {
            return Err(CreatingInvoiceItemError::UnmappedError);
        }
        let mut stamped = item.clone();
        stamped.id = Some(self.next_id);
        let out = stamped.clone();
        let mut inv = self.invoices[pos].clone();
        inv.itens.push(stamped);
        proof {
            assert(item_views(inv.itens@) =~= self.invoices@[pos as int]@.itens.push(out@));
        }
        self.invoices.set(pos, inv);
        self.next_id = self.next_id + 1;
        Ok(out)
    }

    /// Rewrites the status of an existing invoice.
    pub fn update_invoice_row(&mut self, invoice_id: u128, status: InvoiceStatus) -> (r: Result<
        Invoice,
        UpdatingInvoiceError,
    >)
        requires
            old(self).wf(),
        ensures
            final(self).wf(),
            final(self).users == old(self).users,
            final(self).payment_methods == old(self).payment_methods,
            final(self).gateways == old(self).gateways,
            final(self).gateway_integrations == old(self).gateway_integrations,
            final(self).charges == old(self).charges,
            final(self).events == old(self).events,
            final(self).cache == old(self).cache,
            final(self).next_id == old(self).next_id,
            match invoice_index(old(self).invoices@, invoice_id) {
                Some(ix) => {
                    let uv = InvoiceV {
                        id: old(self).invoices@[ix]@.id,
                        user_id: old(self).invoices@[ix]@.user_id,
                        status: status,
                        itens: old(self).invoices@[ix]@.itens,
                    };
                    &&& r is Ok
                    &&& r->Ok_0@ == uv
                    &&& final(self).invoices@.len() == old(self).invoices@.len()
                    &&& final(self).invoices@[ix]@ == uv
                    &&& forall|k: int|
                        0 <= k < final(self).invoices@.len() && k != ix
                            ==> final(self).invoices@[k] == old(self).invoices@[k]
                },
                None => {
                    &&& r == Err::<Invoice, UpdatingInvoiceError>(
                        UpdatingInvoiceError::UnmappedError,
                    )
                    &&& *final(self) == *old(self)
                },
            },
    {
        let pos = match self.find_invoice_pos(invoice_id) {
            Some(p) => p,
            None => {
                return Err(UpdatingInvoiceError::UnmappedError);
            },
        };
        let mut inv = self.invoices[pos].clone();
        inv.status = status;
        let out = inv.clone();
        self.invoices.set(pos, inv);
        Ok(out)
    }

    /// Creates a payment method row under a fresh identifier.
    pub fn create_payment_method_row(
        &mut self,
        user_id: u128,
        is_default: bool,
        method: Method,
        info: &PaymentMethodInfo,
    ) -> (r: Result<PaymentMethod, CreatingPaymentMethodError>)
        requires
            old(self).wf(),
        ensures
            final(self).wf(),
            final(self).users == old(self).users,
            final(self).invoices == old(self).invoices,
            final(self).gateways == old(self).gateways,
            final(self).gateway_integrations == old(self).gateway_integrations,
            final(self).charges == old(self).charges,
            final(self).events == old(self).events,
            final(self).cache == old(self).cache,
            if old(self).next_id < u128::MAX {
                let pm = PaymentMethod {
                    id: old(self).next_id,
                    user_id: user_id,
                    is_default: is_default,
                    method: method,
                    info: *info,
                };
                &&& r == Ok::<PaymentMethod, CreatingPaymentMethodError>(pm)
                &&& final(self).payment_methods@ == old(self).payment_methods@.push(pm)
                &&& final(self).next_id == old(self).next_id + 1
            } else {
                &&& r == Err::<PaymentMethod, CreatingPaymentMethodError>(
                    CreatingPaymentMethodError::UnmappedError,
                )
                &&& *final(self) == *old(self)
            },
    {
        if self.next_id == u128::MAX {
            return Err(CreatingPaymentMethodError::UnmappedError);
        }
        let pm = PaymentMethod {
            id: self.next_id,
            user_id,
            is_default,
            method,
            info: info.clone(),
        };
        let out = pm.clone();
        self.payment_methods.push(pm);
        self.next_id = self.next_id + 1;
        Ok(out)
    }

    /// Creates a gateway integration row under a fresh identifier. A second
    /// row for the same `(user, gateway)` pair is rejected as a conflict and
    /// nothing is persisted.
    pub fn create_gateway_integration_row(
        &mut self,
        gateway_id: u128,
        user_id: u128,
        payment_method_id: u128,
    ) -> (r: Result<GatewayIntegration, CreatingGatewayIntegrationError>)
        requires
            old(self).wf(),
        ensures
            final(self).wf(),
            final(self).users == old(self).users,
            final(self).invoices == old(self).invoices,
            final(self).payment_methods == old(self).payment_methods,
            final(self).gateways == old(self).gateways,
            final(self).charges == old(self).charges,
            final(self).events == old(self).events,
            final(self).cache == old(self).cache,
            if has_integration(old(self).gateway_integrations@, user_id, gateway_id) {
                &&& r == Err::<GatewayIntegration, CreatingGatewayIntegrationError>(
                    CreatingGatewayIntegrationError::DuplicateGatewayIntegrationError,
                )
                &&& *final(self) == *old(self)
            } else if old(self).next_id < u128::MAX {
                let gi = GatewayIntegration {
                    id: old(self).next_id,
                    gateway_id: gateway_id,
                    user_id: user_id,
                    payment_method_id: payment_method_id,
                    gateway_external_id: None,
                };
                &&& r is Ok
                &&& r->Ok_0 == gi
                &&& final(self).gateway_integrations@ == old(
                    self,
                ).gateway_integrations@.push(gi)
                &&& final(self).next_id == old(self).next_id + 1
            } else {
                &&& r == Err::<GatewayIntegration, CreatingGatewayIntegrationError>(
                    CreatingGatewayIntegrationError::UnmappedError,
                )
                &&& *final(self) == *old(self)
            },
    {
        let n = self.gateway_integrations.len();
        let mut i: usize = 0;
        while i < n
            invariant
                i <= n,
                n == self.gateway_integrations.len(),
                self.wf(),
                forall|j: int|
                    0 <= j < i ==> !((#[trigger] self.gateway_integrations@[j]).user_id == user_id
                        && self.gateway_integrations@[j].gateway_id == gateway_id),
            decreases n - i,
        {
            if self.gateway_integrations[i].user_id == user_id
                && self.gateway_integrations[i].gateway_id == gateway_id {
                return Err(CreatingGatewayIntegrationError::DuplicateGatewayIntegrationError);
            }
            i = i + 1;
        }
        if self.next_id == u128::MAX {
            return Err(CreatingGatewayIntegrationError::UnmappedError);
        }
        let gi = GatewayIntegration {
            id: self.next_id,
            gateway_id,
            user_id,
            payment_method_id,
            gateway_external_id: None,
        };
        let out = gi.clone();
        self.gateway_integrations.push(gi);
        self.next_id = self.next_id + 1;
        Ok(out)
    }

    /// Creates a charge row in status Progress under a fresh identifier and
    /// publishes exactly one charge-created event for it.
    pub fn create_charge_row(&mut self, invoice_id: u128, payment_method_id: u128) -> (r: Result<
        Charge,
        CreatingChargeError,
    >)
        requires
            old(self).wf(),
        ensures
            final(self).wf(),
            final(self).users == old(self).users,
            final(self).invoices == old(self).invoices,
            final(self).payment_methods == old(self).payment_methods,
            final(self).gateways == old(self).gateways,
            final(self).gateway_integrations == old(self).gateway_integrations,
            final(self).cache == old(self).cache,
            if old(self).next_id < u128::MAX {
                let c = Charge {
                    id: old(self).next_id,
                    invoice_id: invoice_id,
                    status: ChargeStatus::Progress,
                    payment_method_id: payment_method_id,
                };
                &&& r == Ok::<Charge, CreatingChargeError>(c)
                &&& final(self).charges@ == old(self).charges@.push(c)
                &&& final(self).events@ == old(self).events@.push(
                    ChargeCreatedEvent { charge: c },
                )
                &&& final(self).next_id == old(self).next_id + 1
            } else {
                &&& r == Err::<Charge, CreatingChargeError>(CreatingChargeError::UnmappedError)
                &&& *final(self) == *old(self)
            },
    {
        if self.next_id == u128::MAX {
            return Err(CreatingChargeError::UnmappedError);
        }
        let c = Charge {
            id: self.next_id,
            invoice_id,
            status: ChargeStatus::Progress,
            payment_method_id,
        };
        self.charges.push(c);
        self.events.push(ChargeCreatedEvent { charge: c });
        self.next_id = self.next_id + 1;
        Ok(c)
    }
}

} // verus!
