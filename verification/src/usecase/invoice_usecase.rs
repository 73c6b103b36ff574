use crate::dto::invoice::Invoice;
use crate::dto::invoice_item::InvoiceItem;
use crate::store::BillingState;
use crate::usecase::invoice_create_usecase::{create_invoice_post, InvoiceCreateUsecase};
use crate::usecase::invoice_list_usecase::{list_invoices_result, InvoiceListUsecase};
use vstd::prelude::*;

verus! {

/// The combined invoice entry point the front doors call: listing a user's
/// invoices and creating one.
pub struct InvoiceUsecase {}

impl InvoiceUsecase {
    /// Returns the invoices of the user the external id names, in order.
    /// Reads only; nothing is written.
    pub fn get_by_user_id(&self, st: &BillingState, external_user_id_str: &str) -> (r: Result<
        Vec<Invoice>,
        String,
    >)
        ensures
            list_invoices_result(*st, external_user_id_str@, r),
    {
        let list = InvoiceListUsecase {  };
        list.get_by_user_id(st, external_user_id_str)
    }

    /// Creates a Draft invoice with the supplied items for the user the
    /// external id names.
    pub fn create_invoice(
        &self,
        st: &mut BillingState,
        external_user_id: &str,
        itens: &Vec<InvoiceItem>,
    ) -> (r: Result<Invoice, String>)
        requires
            old(st).wf(),
        ensures
            final(st).wf(),
            create_invoice_post(*old(st), *final(st), external_user_id@, itens@, r),
    {
        let create = InvoiceCreateUsecase {  };
        create.create_invoice(st, external_user_id, itens)
    }
}

} // verus!
