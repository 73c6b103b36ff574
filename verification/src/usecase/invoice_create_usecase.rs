use crate::driven::{CreatingInvoiceError, ReadingUserError};
use crate::dto::invoice::{Invoice, InvoiceStatus, InvoiceV};
use crate::dto::invoice_item::InvoiceItem;
use crate::ids::{parse_uuid, uuid_parse};
use crate::messages::{mk_msg_creating_invoice_unmapped, mk_msg_invoice_not_found, mk_msg_not_uuid, mk_msg_reading_user_unmapped, mk_msg_user_not_found, msg_creating_invoice_unmapped, msg_not_uuid, msg_user_not_found};
use crate::store::{item_views, stamped_items, user_index, BillingState};
use vstd::prelude::*;

verus! {

/// Creates an invoice for a user, in status Draft, with the supplied items.
pub struct InvoiceCreateUsecase {}

/// What `create_invoice` does: the external id is validated before any read,
/// the user must exist, and on success exactly one invoice row is appended,
/// in status Draft, holding the supplied items under fresh item ids.
pub open spec fn create_invoice_post(
    pre: BillingState,
    post: BillingState,
    ext: Seq<char>,
    itens: Seq<InvoiceItem>,
    r: Result<Invoice, String>,
) -> bool {
    match uuid_parse(ext) {
        None => {
            &&& r is Err
            &&& r->Err_0@ == msg_not_uuid()
            &&& post == pre
        },
        Some(e) => match user_index(pre.users@, e) {
            None => {
                &&& r is Err
                &&& r->Err_0@ == msg_user_not_found()
                &&& post == pre
            },
            Some(ui) => if pre.next_id + 1 + itens.len() <= u128::MAX {
                let iv = InvoiceV {
                    id: pre.next_id,
                    user_id: pre.users@[ui].id,
                    status: InvoiceStatus::Draft,
                    itens: stamped_items(item_views(itens), pre.next_id + 1),
                };
                &&& r is Ok
                &&& r->Ok_0@ == iv
                &&& post.invoices@.len() == pre.invoices@.len() + 1
                &&& post.invoices@.drop_last() == pre.invoices@
                &&& post.invoices@.last()@ == iv
                &&& post.users == pre.users
                &&& post.payment_methods == pre.payment_methods
                &&& post.gateways == pre.gateways
                &&& post.gateway_integrations == pre.gateway_integrations
                &&& post.charges == pre.charges
                &&& post.events == pre.events
                &&& post.cache == pre.cache
                &&& post.next_id == pre.next_id + 1 + itens.len()
            } else {
                &&& r is Err
                &&& r->Err_0@ == msg_creating_invoice_unmapped()
                &&& post == pre
            },
        },
    }
}

impl InvoiceCreateUsecase {
    /// Creates a Draft invoice with the supplied items for the user the
    /// external id names.
    pub fn create_invoice(
        &self,
        st: &mut BillingState,
        external_user_id: &str,
        itens: &Vec<InvoiceItem>,
    ) -> (r: Result<Invoice, String>)
        requires
            old(st).wf(),
        ensures
            final(st).wf(),
            create_invoice_post(*old(st), *final(st), external_user_id@, itens@, r),
    {
        let ext = match parse_uuid(external_user_id) {
            Some(e) => e,
            None => {
                return Err(mk_msg_not_uuid());
            },
        };
        let user = match st.user_by_external_id(ext) {
            Ok(u) => u,
            Err(ReadingUserError::UserNotFoundError) => {
                return Err(mk_msg_user_not_found());
            },
            Err(_) => {
                return Err(mk_msg_reading_user_unmapped());
            },
        };
        match st.create_invoice_row(user.id, itens) {
            Ok(inv) => Ok(inv),
            Err(CreatingInvoiceError::InvoiceNotFoundError) => Err(mk_msg_invoice_not_found()),
            Err(CreatingInvoiceError::UnmappedError) => Err(mk_msg_creating_invoice_unmapped()),
        }
    }
}

} // verus!
