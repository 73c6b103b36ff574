use crate::driven::{ReadingInvoiceError, UpdatingInvoiceError};
use crate::dto::invoice::{status_of_str, Invoice, InvoiceStatus, InvoiceV};
use crate::ids::{parse_uuid, uuid_parse};
use crate::messages::{mk_msg_invalid_status, mk_msg_not_uuid, mk_msg_reading_invoice_unmapped, mk_msg_update_invoice_not_found, mk_msg_updating_invoice_unmapped, msg_invalid_status, msg_not_uuid, msg_update_invoice_not_found};
use crate::store::{invoice_index, BillingState};
use vstd::prelude::*;

verus! {

/// Drives the invoice status state machine: reads an invoice, validates the
/// requested transition, and writes the new status.
pub struct InvoiceUpdateUsecase {}

/// The transition table of the invoice status state machine. Total over all
/// pairs of statuses; every pair not listed here is rejected, and the five
/// states without outgoing transitions are terminal.
pub open spec fn can_transition(from: InvoiceStatus, to: InvoiceStatus) -> bool {
    match from {
        InvoiceStatus::Draft => to is Pending,
        InvoiceStatus::Pending => to is Paid || to is ChargedWithError,
        InvoiceStatus::ChargedWithError => to is Paid || to is Uncollectible,
        InvoiceStatus::Paid => to is Cancelled || to is Refunded || to is InProtest,
        InvoiceStatus::InProtest => to is Chargeback,
        InvoiceStatus::Cancelled => false,
        InvoiceStatus::Uncollectible => false,
        InvoiceStatus::Refunded => false,
        InvoiceStatus::Chargeback => false,
        InvoiceStatus::UnmappedStatus => false,
    }
}

/// What `update` does: the invoice id is validated before any read, the
/// invoice must exist, the transition must be in the table, and on success
/// only that invoice's status changes.
pub open spec fn update_invoice_post(
    pre: BillingState,
    post: BillingState,
    idstr: Seq<char>,
    new_status_str: Seq<char>,
    r: Result<Invoice, String>,
) -> bool {
    &&& post.users == pre.users
    &&& post.payment_methods == pre.payment_methods
    &&& post.gateways == pre.gateways
    &&& post.gateway_integrations == pre.gateway_integrations
    &&& post.charges == pre.charges
    &&& post.events == pre.events
    &&& post.cache == pre.cache
    &&& post.next_id == pre.next_id
    &&& match uuid_parse(idstr) {
        None => {
            &&& r is Err
            &&& r->Err_0@ == msg_not_uuid()
            &&& post == pre
        },
        Some(id) => match invoice_index(pre.invoices@, id) {
            None => {
                &&& r is Err
                &&& r->Err_0@ == msg_update_invoice_not_found()
                &&& post == pre
            },
            Some(ix) => {
                let ns = status_of_str(new_status_str);
                if !can_transition(pre.invoices@[ix].status, ns) {
                    &&& r is Err
                    &&& r->Err_0@ == msg_invalid_status()
                    &&& post == pre
                } else {
                    let uv = InvoiceV {
                        id: pre.invoices@[ix]@.id,
                        user_id: pre.invoices@[ix]@.user_id,
                        status: ns,
                        itens: pre.invoices@[ix]@.itens,
                    };
                    &&& r is Ok
                    &&& r->Ok_0@ == uv
                    &&& post.invoices@.len() == pre.invoices@.len()
                    &&& post.invoices@[ix]@ == uv
                    &&& forall|k: int|
                        0 <= k < post.invoices@.len() && k != ix ==> post.invoices@[k]
                            == pre.invoices@[k]
                }
            },
        },
    }
}

impl InvoiceUpdateUsecase {
    /// Moves an invoice to a new status, if the transition table allows it;
    /// a rejected transition returns a validation error and writes nothing.
    pub fn update(&self, st: &mut BillingState, invoice_id_str: &str, new_status_str: &str) -> (r:
        Result<Invoice, String>)
        requires
            old(st).wf(),
        ensures
            final(st).wf(),
            update_invoice_post(*old(st), *final(st), invoice_id_str@, new_status_str@, r),
    {
        let id = match parse_uuid(invoice_id_str) {
            Some(i) => i,
            None => {
                return Err(mk_msg_not_uuid());
            },
        };
        let invoice = match st.invoice_by_id(id) {
            Ok(inv) => inv,
            Err(ReadingInvoiceError::InvoiceNotFoundError) => {
                return Err(mk_msg_update_invoice_not_found());
            },
            Err(ReadingInvoiceError::UnmappedError) => {
                return Err(mk_msg_reading_invoice_unmapped());
            },
        };
        proof {
            crate::store::lemma_first_index(st.invoices@, crate::store::has_invoice_id(id));
        }
        let new_status = InvoiceStatus::from_str(new_status_str);
        if !Self::validate_update_status_change(invoice.status, new_status) {
            return Err(mk_msg_invalid_status());
        }
        match st.update_invoice_row(invoice.id, new_status) {
            Ok(updated) => Ok(updated),
            Err(UpdatingInvoiceError::UnmappedError) => Err(mk_msg_updating_invoice_unmapped()),
        }
    }

    /// Decides whether the state machine allows moving an invoice from
    /// status `old_status` to `new_status`. Total and side-effect free.
    pub fn validate_update_status_change(old_status: InvoiceStatus, new_status: InvoiceStatus) -> (r:
        bool)
        ensures
            r == can_transition(old_status, new_status),
    {
        match old_status {
            InvoiceStatus::Draft => matches!(new_status, InvoiceStatus::Pending),
            InvoiceStatus::Pending => matches!(
                new_status,
                InvoiceStatus::Paid | InvoiceStatus::ChargedWithError
            ),
            InvoiceStatus::ChargedWithError => matches!(
                new_status,
                InvoiceStatus::Paid | InvoiceStatus::Uncollectible
            ),
            InvoiceStatus::Paid => matches!(
                new_status,
                InvoiceStatus::Cancelled | InvoiceStatus::Refunded | InvoiceStatus::InProtest
            ),
            InvoiceStatus::InProtest => matches!(new_status, InvoiceStatus::Chargeback),
            _ => false,
        }
    }
}

} // verus!
