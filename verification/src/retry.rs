use crate::dto::charge::{Charge, ChargeCreatedEvent, ChargeStatus};
use crate::dto::invoice::Invoice;
use crate::dto::payment_method::PaymentMethod;
use crate::ids::format_uuid;
use crate::messages::{mk_msg_reading_invoice_unmapped, msg_reading_pm_unmapped};
use crate::store::{
    default_pm_index, first_index, has_invoice_id, invoice_index, invoices_to_charge_of,
    lemma_first_index, lemma_matching_len, lemma_matching_membership, BillingState,
};
use crate::usecase::charge_create_usecase::ChargeCreateUsecase;
use vstd::prelude::*;
use vstd::string::*;

verus! {

/// What one scheduler tick produces, invoice by invoice and in order: the
/// charges created, the events published, and the error messages collected.
/// A charge is created exactly for the eligible invoices whose owner has a
/// default payment method; every other eligible invoice contributes one
/// error message and stops nothing.
pub open spec fn retry_outcome(
    pend: Seq<Invoice>,
    pms: Seq<PaymentMethod>,
    base: int,
) -> (Seq<Charge>, Seq<ChargeCreatedEvent>, Seq<Seq<char>>)
    decreases pend.len(),
{
    if pend.len() == 0 {
        (Seq::empty(), Seq::empty(), Seq::empty())
    } else {
        let (cs, es, ms) = retry_outcome(pend.drop_last(), pms, base);
        let inv = pend.last();
        match default_pm_index(pms, inv.user_id) {
            Some(pi) => {
                let c = Charge {
                    id: (base + cs.len()) as u128,
                    invoice_id: inv.id,
                    status: ChargeStatus::Progress,
                    payment_method_id: pms[pi].id,
                };
                (cs.push(c), es.push(ChargeCreatedEvent { charge: c }), ms)
            },
            None => (cs, es, ms.push(msg_reading_pm_unmapped())),
        }
    }
}

/// The messages joined with semicolons, in order.
pub open spec fn join_semicolons(ms: Seq<Seq<char>>) -> Seq<char>
    decreases ms.len(),
{
    if ms.len() == 0 {
        Seq::empty()
    } else if ms.len() == 1 {
        ms[0]
    } else {
        join_semicolons(ms.drop_last()) + ";"@ + ms.last()
    }
}

/// What one scheduler tick does: every invoice eligible to be charged is
/// attempted, in table order; per-invoice failures are collected, not
/// propagated, and reported at the end as one semicolon-joined error.
pub open spec fn retry_post(pre: BillingState, post: BillingState, r: Result<(), String>) -> bool {
    let pend = invoices_to_charge_of(pre.invoices@);
    let outcome = retry_outcome(pend, pre.payment_methods@, pre.next_id as int);
    &&& post.users == pre.users
    &&& post.invoices == pre.invoices
    &&& post.payment_methods == pre.payment_methods
    &&& post.gateways == pre.gateways
    &&& post.gateway_integrations == pre.gateway_integrations
    &&& post.cache == pre.cache
    &&& post.charges@ == pre.charges@ + outcome.0
    &&& post.events@ == pre.events@ + outcome.1
    &&& post.next_id == pre.next_id + outcome.0.len()
    &&& if outcome.2.len() == 0 {
        r is Ok
    } else {
        r is Err && r->Err_0@ == join_semicolons(outcome.2)
    }
}

/// Among invoices with pairwise-distinct ids, looking an eligible invoice's
/// id up finds exactly that invoice.
proof fn lemma_chargeable_member(invs: Seq<Invoice>, k: int)
    requires
        0 <= k < invoices_to_charge_of(invs).len(),
        forall|a: int, b: int|
            0 <= a < b < invs.len() ==> (#[trigger] invs[a]).id != (#[trigger] invs[b]).id,
    ensures
        invoice_index(invs, invoices_to_charge_of(invs)[k].id) is Some,
        ({
            let ix = invoice_index(invs, invoices_to_charge_of(invs)[k].id).unwrap();
            0 <= ix < invs.len() && invs[ix] == invoices_to_charge_of(invs)[k]
        }),
{
    let pend = invoices_to_charge_of(invs);
    lemma_matching_membership(invs, crate::store::is_chargeable());
    let j = choose|j: int| 0 <= j < invs.len() && invs[j] == pend[k];
    let p = has_invoice_id(pend[k].id);
    lemma_first_index(invs, p);
    assert(p(invs[j]));
    match first_index(invs, p) {
        None => {
            assert(false);
        },
        Some(ix) => {
            assert(invs[ix].id == invs[j].id);
            if ix < j {
                assert(invs[ix].id != invs[j].id);
            } else if j < ix {
                assert(invs[j].id != invs[ix].id);
            }
            assert(ix == j);
        },
    }
}

/// One scheduler tick: lists every invoice eligible to be charged and
/// drives the charge orchestrator for each one. A single invoice's failure
/// does not stop the rest of the batch; the failures are reported together,
/// joined with semicolons, after the whole batch ran.
pub fn retry_charging_invoices(st: &mut BillingState) -> (r: Result<(), String>)
    requires
        old(st).wf(),
        old(st).next_id + old(st).invoices@.len() <= u128::MAX,
    ensures
        final(st).wf(),
        retry_post(*old(st), *final(st), r),
{
    let ghost pre = *old(st);
    let ghost pend = invoices_to_charge_of(pre.invoices@);
    let ghost base = pre.next_id as int;
    proof {
        lemma_matching_len(pre.invoices@, crate::store::is_chargeable());
    }
    let pending = match st.invoices_to_charge() {
        Ok(list) => list,
        Err(_) => {
            return Err(mk_msg_reading_invoice_unmapped());
        },
    };
    let usecase = ChargeCreateUsecase {  };
    let mut all_errors = String::new();
    let mut n_errors: usize = 0;
    let n = pending.len();
    let mut i: usize = 0;
    proof {
        assert(pend.take(0) =~= Seq::<Invoice>::empty());
        assert(st.charges@ =~= pre.charges@ + retry_outcome(pend.take(0), pre.payment_methods@, base).0);
        assert(st.events@ =~= pre.events@ + retry_outcome(pend.take(0), pre.payment_methods@, base).1);
    }
    while i < n
        invariant
            i <= n,
            n == pending.len(),
            pre.wf(),
            st.wf(),
            pend == invoices_to_charge_of(pre.invoices@),
            pend.len() == n,
            forall|k: int| 0 <= k < n ==> (#[trigger] pending@[k])@ == pend[k]@,
            base == pre.next_id as int,
            base + n <= u128::MAX as int,
            st.users == pre.users,
            st.invoices == pre.invoices,
            st.payment_methods == pre.payment_methods,
            st.gateways == pre.gateways,
            st.gateway_integrations == pre.gateway_integrations,
            st.cache == pre.cache,
            st.charges@ == pre.charges@ + retry_outcome(pend.take(i as int), pre.payment_methods@, base).0,
            st.events@ == pre.events@ + retry_outcome(pend.take(i as int), pre.payment_methods@, base).1,
            st.next_id == base + retry_outcome(pend.take(i as int), pre.payment_methods@, base).0.len(),
            n_errors == retry_outcome(pend.take(i as int), pre.payment_methods@, base).2.len(),
            n_errors <= i,
            all_errors@ == join_semicolons(retry_outcome(pend.take(i as int), pre.payment_methods@, base).2),
        decreases n - i,
    {
        let ghost outcome_before = retry_outcome(pend.take(i as int), pre.payment_methods@, base);
        proof {
            assert(pend.take(i + 1 as int).drop_last() =~= pend.take(i as int));
            assert(pend.take(i + 1 as int).last() == pend[i as int]);
            assert(outcome_before.0.len() + outcome_before.2.len() == i) by {
                lemma_retry_outcome_counts(pend.take(i as int), pre.payment_methods@, base);
            }
            lemma_chargeable_member(pre.invoices@, i as int);
        }
        let id_str = format_uuid(pending[i].id);
        let result = usecase.create_charge(st, id_str.as_str());
        match result {
            Ok(_) => {},
            Err(msg) => {
                if n_errors > 0 {
                    all_errors.append(";");
                }
                all_errors.append(msg.as_str());
                n_errors = n_errors + 1;
                proof {
                    let ms2 = retry_outcome(pend.take(i + 1 as int), pre.payment_methods@, base).2;
                    assert(ms2.drop_last() =~= outcome_before.2);
                    if outcome_before.2.len() == 0 {
                        assert(join_semicolons(outcome_before.2) =~= Seq::<char>::empty());
                        assert(all_errors@ =~= join_semicolons(ms2));
                    } else {
                        assert(all_errors@ =~= join_semicolons(ms2));
                    }
                }
            },
        }
        i = i + 1;
    }
    proof {
        assert(pend.take(n as int) =~= pend);
    }
    if n_errors == 0 {
        Ok(())
    } else {
        Err(all_errors)
    }
}

/// Each processed invoice yields exactly one charge or one error message.
proof fn lemma_retry_outcome_counts(pend: Seq<Invoice>, pms: Seq<PaymentMethod>, base: int)
    ensures
        retry_outcome(pend, pms, base).0.len() + retry_outcome(pend, pms, base).2.len()
            == pend.len(),
        retry_outcome(pend, pms, base).1.len() == retry_outcome(pend, pms, base).0.len(),
    decreases pend.len(),
{
    if pend.len() > 0 {
        lemma_retry_outcome_counts(pend.drop_last(), pms, base);
    }
}

} // verus!
