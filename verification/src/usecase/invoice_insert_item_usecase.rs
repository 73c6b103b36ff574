use crate::codec::{
    dec_response, decode_response, enc_response, encode_response, lemma_response_round_trip,
    response_wf,
};
use crate::driven::ReadingUserError;
use crate::dto::invoice::{Invoice, InvoiceStatus, InvoiceV};
use crate::dto::invoice_item::{InvoiceItem, InvoiceItemV};
use crate::ids::{parse_uuid, uuid_parse};
use crate::messages::{
    mk_msg_cache_decode, mk_msg_creating_invoice_unmapped, mk_msg_not_uuid,
    mk_msg_reading_user_unmapped, mk_msg_user_not_found, msg_cache_decode,
    msg_creating_invoice_unmapped, msg_not_uuid, msg_user_not_found,
};
use crate::store::{
    cache_lookup, draft_index, first_index, has_invoice_id, has_key, invoice_index, item_views,
    lemma_first_index, stamped_items, user_index, BillingState, CacheEntry,
};
use vstd::prelude::*;
use vstd::string::*;

verus! {

/// The two shapes an idempotent creation can return: a freshly created
/// invoice, or the items that were appended to the user's existing Draft.
/// Callers branch on which case comes back.
#[derive(Debug)]
pub enum InvoiceInsertItemResponse {
    Invoice(Invoice),
    Item(Vec<InvoiceItem>),
}

/// The mathematical value of an `InvoiceInsertItemResponse`.
pub enum InvoiceInsertItemResponseV {
    Invoice(InvoiceV),
    Item(Seq<InvoiceItemV>),
}

impl View for InvoiceInsertItemResponse {
    type V = InvoiceInsertItemResponseV;

    open spec fn view(&self) -> InvoiceInsertItemResponseV {
        match self {
            InvoiceInsertItemResponse::Invoice(inv) => InvoiceInsertItemResponseV::Invoice(inv@),
            InvoiceInsertItemResponse::Item(items) => InvoiceInsertItemResponseV::Item(
                item_views(items@),
            ),
        }
    }
}

/// The idempotent creation entry point: creates a Draft invoice for a user,
/// or appends the items to the user's existing Draft, deduplicating retries
/// through the idempotency cache.
pub struct InvoiceInsertItemUsecase {}

/// The namespaced cache key under which a creation request is deduplicated.
pub open spec fn cache_key_of(key: Seq<char>) -> Seq<char> {
    "create_invoice:"@ + key
}

/// What `create_invoice` does, step by step: the external id is validated
/// before anything else; the user must exist; a cache hit short-circuits
/// with the stored response and no repository call; on a miss, the items
/// either become a fresh Draft invoice or are appended to the user's first
/// existing Draft, and the serialized response is stored under the key
/// after the repository write succeeded.
pub open spec fn create_or_append_post(
    pre: BillingState,
    post: BillingState,
    ext: Seq<char>,
    itens: Seq<InvoiceItem>,
    key: Seq<char>,
    r: Result<InvoiceInsertItemResponse, String>,
) -> bool {
    match uuid_parse(ext) {
        None => {
            &&& r is Err
            &&& r->Err_0@ == msg_not_uuid()
            &&& post == pre
        },
        Some(e) => match user_index(pre.users@, e) {
            None => {
                &&& r is Err
                &&& r->Err_0@ == msg_user_not_found()
                &&& post == pre
            },
            Some(ui) => {
                let uid = pre.users@[ui].id;
                match cache_lookup(pre.cache@, cache_key_of(key)) {
                    Some(v) => {
                        &&& post == pre
                        &&& match dec_response(v) {
                            Some(resp) => r is Ok && r->Ok_0@ == resp,
                            None => r is Err && r->Err_0@ == msg_cache_decode(),
                        }
                    },
                    None => match draft_index(pre.invoices@, uid) {
                        None => if pre.next_id + 1 + itens.len() <= u128::MAX {
                            let iv = InvoiceV {
                                id: pre.next_id,
                                user_id: uid,
                                status: InvoiceStatus::Draft,
                                itens: stamped_items(item_views(itens), pre.next_id + 1),
                            };
                            &&& r is Ok
                            &&& r->Ok_0@ == InvoiceInsertItemResponseV::Invoice(iv)
                            &&& response_wf(r->Ok_0@)
                            &&& post.invoices@.len() == pre.invoices@.len() + 1
                            &&& post.invoices@.drop_last() == pre.invoices@
                            &&& post.invoices@.last()@ == iv
                            &&& post.cache@.len() == pre.cache@.len() + 1
                            &&& post.cache@.drop_last() == pre.cache@
                            &&& post.cache@.last().key@ == cache_key_of(key)
                            &&& post.cache@.last().value@ == enc_response(
                                InvoiceInsertItemResponseV::Invoice(iv),
                            )
                            &&& post.users == pre.users
                            &&& post.payment_methods == pre.payment_methods
                            &&& post.gateways == pre.gateways
                            &&& post.gateway_integrations == pre.gateway_integrations
                            &&& post.charges == pre.charges
                            &&& post.events == pre.events
                            &&& post.next_id == pre.next_id + 1 + itens.len()
                        } else {
                            &&& r is Err
                            &&& r->Err_0@ == msg_creating_invoice_unmapped()
                            &&& post == pre
                        },
                        Some(di) => if pre.next_id + itens.len() <= u128::MAX {
                            let stamped = stamped_items(item_views(itens), pre.next_id as int);
                            &&& r is Ok
                            &&& r->Ok_0@ == InvoiceInsertItemResponseV::Item(stamped)
                            &&& response_wf(r->Ok_0@)
                            &&& post.invoices@.len() == pre.invoices@.len()
                            &&& post.invoices@[di]@ == InvoiceV {
                                id: pre.invoices@[di]@.id,
                                user_id: pre.invoices@[di]@.user_id,
                                status: pre.invoices@[di]@.status,
                                itens: pre.invoices@[di]@.itens + stamped,
                            }
                            &&& forall|j: int|
                                0 <= j < post.invoices@.len() && j != di ==> post.invoices@[j]
                                    == pre.invoices@[j]
                            &&& post.cache@.len() == pre.cache@.len() + 1
                            &&& post.cache@.drop_last() == pre.cache@
                            &&& post.cache@.last().key@ == cache_key_of(key)
                            &&& post.cache@.last().value@ == enc_response(
                                InvoiceInsertItemResponseV::Item(stamped),
                            )
                            &&& post.users == pre.users
                            &&& post.payment_methods == pre.payment_methods
                            &&& post.gateways == pre.gateways
                            &&& post.gateway_integrations == pre.gateway_integrations
                            &&& post.charges == pre.charges
                            &&& post.events == pre.events
                            &&& post.next_id == pre.next_id + itens.len()
                        } else {
                            &&& r is Err
                            &&& r->Err_0@ == msg_creating_invoice_unmapped()
                            &&& post == pre
                        },
                    },
                }
            },
        },
    }
}

impl InvoiceInsertItemUsecase {
    /// Creates a Draft invoice with the supplied items, or appends them to
    /// the user's existing Draft. Retries carrying the same idempotency key
    /// get the first call's response back verbatim, with no repository call.
    pub fn create_invoice(
        &self,
        st: &mut BillingState,
        external_user_id: &str,
        itens: &Vec<InvoiceItem>,
        idempotency_key: &str,
    ) -> (r: Result<InvoiceInsertItemResponse, String>)
        requires
            old(st).wf(),
        ensures
            final(st).wf(),
            create_or_append_post(
                *old(st),
                *final(st),
                external_user_id@,
                itens@,
                idempotency_key@,
                r,
            ),
    {
        let ext = match parse_uuid(external_user_id) {
            Some(e) => e,
            None => {
                return Err(mk_msg_not_uuid());
            },
        };
        let user = match st.user_by_external_id(ext) {
            Ok(u) => u,
            Err(ReadingUserError::UserNotFoundError) => {
                return Err(mk_msg_user_not_found());
            },
            Err(_) => {
                return Err(mk_msg_reading_user_unmapped());
            },
        };
        let mut ck = String::from_str("create_invoice:");
        ck.append(idempotency_key);
        match st.cache_get(ck.as_str()) {
            Some(v) => {
                return match decode_response(v.as_str()) {
                    Some(resp) => Ok(resp),
                    None => Err(mk_msg_cache_decode()),
                };
            },
            None => {},
        }
        let ghost pre = *old(st);
        match st.find_draft_pos(user.id) {
            None => {
                match st.create_invoice_row(user.id, itens) {
                    Ok(inv) => {
                        let resp = InvoiceInsertItemResponse::Invoice(inv);
                        let encoded = encode_response(&resp);
                        st.cache_set(ck, encoded);
                        proof {
                            assert(st.cache@.drop_last() =~= pre.cache@);
                        }
                        Ok(resp)
                    },
                    Err(_) => Err(mk_msg_creating_invoice_unmapped()),
                }
            },
            Some(di) => {
                let n = itens.len();
                if (n as u128) > u128::MAX - st.next_id {
                    return Err(mk_msg_creating_invoice_unmapped());
                }
                let ghost base = st.next_id;
                let ghost origv = pre.invoices@[di as int]@;
                let invoice_id = st.invoices[di].id;
                let mut item_list: Vec<InvoiceItem> = Vec::new();
                let mut k: usize = 0;
                proof {
                    assert(item_views(item_list@) =~= stamped_items(
                        item_views(itens@).take(0),
                        base as int,
                    ));
                    assert(origv.itens + stamped_items(item_views(itens@).take(0), base as int)
                        =~= origv.itens);
                }
                while k < n
                    invariant
                        k <= n,
                        n == itens.len(),
                        pre.wf(),
                        st.wf(),
                        di < st.invoices@.len(),
                        di < pre.invoices@.len(),
                        st.users == pre.users,
                        st.payment_methods == pre.payment_methods,
                        st.gateways == pre.gateways,
                        st.gateway_integrations == pre.gateway_integrations,
                        st.charges == pre.charges,
                        st.events == pre.events,
                        st.cache == pre.cache,
                        st.invoices@.len() == pre.invoices@.len(),
                        forall|j: int|
                            0 <= j < st.invoices@.len() && j != di ==> st.invoices@[j]
                                == pre.invoices@[j],
                        origv == pre.invoices@[di as int]@,
                        st.invoices@[di as int]@ == (InvoiceV {
                            id: origv.id,
                            user_id: origv.user_id,
                            status: origv.status,
                            itens: origv.itens + stamped_items(
                                item_views(itens@).take(k as int),
                                base as int,
                            ),
                        }),
                        invoice_id == pre.invoices@[di as int].id,
                        st.invoices@[di as int].id == invoice_id,
                        base == pre.next_id,
                        st.next_id == base + k,
                        base as int + n as int <= u128::MAX as int,
                        item_views(item_list@) == stamped_items(
                            item_views(itens@).take(k as int),
                            base as int,
                        ),
                    decreases n - k,
                {
                    proof {
                        let p = has_invoice_id(invoice_id);
                        lemma_first_index(st.invoices@, p);
                        assert(p(st.invoices@[di as int]));
                        assert forall|j: int| 0 <= j < di implies !#[trigger] p(
                            st.invoices@[j],
                        ) by {
                            assert(st.invoices@[j] == pre.invoices@[j]);
                            assert(pre.invoices@[j].id != pre.invoices@[di as int].id);
                        }
                        assert forall|j: int| di < j < st.invoices@.len() implies !#[trigger] p(
                            st.invoices@[j],
                        ) by {
                            assert(st.invoices@[j] == pre.invoices@[j]);
                            assert(pre.invoices@[di as int].id != pre.invoices@[j].id);
                        }
                        assert(invoice_index(st.invoices@, invoice_id) == Some(di as int));
                    }
                    let ghost before = *st;
                    match st.insert_item_row(invoice_id, &itens[k]) {
                        Ok(stamped_item) => {
                            proof {
                                let itv = InvoiceItemV {
                                    id: Some(before.next_id),
                                    description: itens@[k as int]@.description,
                                    quantity: itens@[k as int]@.quantity,
                                    amount: itens@[k as int]@.amount,
                                    currency: itens@[k as int]@.currency,
                                };
                                assert(stamped_item@ == itv);
                                assert(stamped_items(
                                    item_views(itens@).take(k + 1 as int),
                                    base as int,
                                ) =~= stamped_items(
                                    item_views(itens@).take(k as int),
                                    base as int,
                                ).push(itv));
                                assert(origv.itens + stamped_items(
                                    item_views(itens@).take(k + 1 as int),
                                    base as int,
                                ) =~= (origv.itens + stamped_items(
                                    item_views(itens@).take(k as int),
                                    base as int,
                                )).push(itv));
                            }
                            item_list.push(stamped_item);
                            proof {
                                assert(item_views(item_list@) =~= stamped_items(
                                    item_views(itens@).take(k + 1 as int),
                                    base as int,
                                ));
                            }
                        },
                        Err(_) => {
                            proof {
                                assert(false);
                            }
                            return Err(mk_msg_creating_invoice_unmapped());
                        },
                    }
                    k = k + 1;
                }
                proof {
                    assert(item_views(itens@).take(n as int) =~= item_views(itens@));
                }
                let resp = InvoiceInsertItemResponse::Item(item_list);
                let encoded = encode_response(&resp);
                st.cache_set(ck, encoded);
                proof {
                    assert(st.cache@.drop_last() =~= pre.cache@);
                }
                Ok(resp)
            },
        }
    }

}

/// A key absent before one entry was stored under it is afterwards found,
/// holding exactly what was stored.
proof fn lemma_cache_push_lookup(
    pre_cache: Seq<CacheEntry>,
    post_cache: Seq<CacheEntry>,
    k: Seq<char>,
    v: Seq<char>,
)
    requires
        cache_lookup(pre_cache, k) is None,
        post_cache.len() == pre_cache.len() + 1,
        post_cache.drop_last() == pre_cache,
        post_cache.last().key@ == k,
        post_cache.last().value@ == v,
    ensures
        cache_lookup(post_cache, k) == Some(v),
{
    let p = has_key(k);
    lemma_first_index(pre_cache, p);
    lemma_first_index(post_cache, p);
    let ll = post_cache.len() - 1;
    assert(post_cache[ll] == post_cache.last());
    assert(p(post_cache[ll]));
    match first_index(post_cache, p) {
        None => {
            assert(false);
        },
        Some(i0) => {
            if i0 < ll {
                assert(post_cache.drop_last()[i0] == post_cache[i0]);
                assert(pre_cache[i0] == post_cache[i0]);
                assert(!p(pre_cache[i0]));
                assert(false);
            }
        },
    }
}

/// Idempotency replay: a second creation call carrying the same idempotency
/// key, made after a first call that succeeded, returns the same response
/// value and changes nothing — the repository write happened exactly once,
/// on the first call. The items of the second call do not matter: the
/// stored response is returned verbatim.
pub proof fn lemma_idempotent_replay(
    s0: BillingState,
    s1: BillingState,
    s2: BillingState,
    ext: Seq<char>,
    itens1: Seq<InvoiceItem>,
    itens2: Seq<InvoiceItem>,
    key: Seq<char>,
    r1: Result<InvoiceInsertItemResponse, String>,
    r2: Result<InvoiceInsertItemResponse, String>,
)
    requires
        create_or_append_post(s0, s1, ext, itens1, key, r1),
        create_or_append_post(s1, s2, ext, itens2, key, r2),
        r1 is Ok,
    ensures
        r2 is Ok,
        r2->Ok_0@ == r1->Ok_0@,
        s2 == s1,
{
    let e = uuid_parse(ext).unwrap();
    let ui = user_index(s0.users@, e).unwrap();
    let uid = s0.users@[ui].id;
    let k = cache_key_of(key);
    let x = r1->Ok_0@;
    match cache_lookup(s0.cache@, k) {
        Some(v) => {
            assert(s1 == s0);
        },
        None => {
            match draft_index(s0.invoices@, uid) {
                None => {
                    lemma_cache_push_lookup(s0.cache@, s1.cache@, k, enc_response(x));
                    lemma_response_round_trip(x);
                },
                Some(di) => {
                    lemma_cache_push_lookup(s0.cache@, s1.cache@, k, enc_response(x));
                    lemma_response_round_trip(x);
                },
            }
        },
    }
}

/// Draft-append branching: with a valid user, a key not seen before, and
/// room in the identifier space, a creation call appends to the user's
/// first existing Draft invoice where one exists — the invoice table keeps
/// its size — and creates exactly one new Draft invoice where none does.
pub proof fn lemma_draft_append_branching(
    pre: BillingState,
    post: BillingState,
    ext: Seq<char>,
    itens: Seq<InvoiceItem>,
    key: Seq<char>,
    r: Result<InvoiceInsertItemResponse, String>,
    e: u128,
    ui: int,
)
    requires
        create_or_append_post(pre, post, ext, itens, key, r),
        uuid_parse(ext) == Some(e),
        user_index(pre.users@, e) == Some(ui),
        cache_lookup(pre.cache@, cache_key_of(key)) is None,
        r is Ok,
    ensures
        draft_index(pre.invoices@, pre.users@[ui].id) is Some ==> post.invoices@.len()
            == pre.invoices@.len() && r->Ok_0@ is Item,
        draft_index(pre.invoices@, pre.users@[ui].id) is None ==> post.invoices@.len()
            == pre.invoices@.len() + 1 && r->Ok_0@ is Invoice && post.invoices@.last()@.status
            is Draft && post.invoices@.last()@.user_id == pre.users@[ui].id,
{
}

} // verus!
