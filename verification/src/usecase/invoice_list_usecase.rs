use crate::driven::ReadingUserError;
use crate::dto::invoice::Invoice;
use crate::ids::{parse_uuid, uuid_parse};
use crate::messages::{mk_msg_not_uuid, mk_msg_reading_invoice_unmapped, mk_msg_reading_user_unmapped, mk_msg_user_not_found, msg_not_uuid, msg_user_not_found};
use crate::store::{invoices_of_user, user_index, BillingState};
use vstd::prelude::*;

verus! {

/// Lists the invoices of a user.
pub struct InvoiceListUsecase {}

/// What `get_by_user_id` returns: the external id is validated first, the
/// user must exist, and on success the user's invoices come back in order.
pub open spec fn list_invoices_result(
    st: BillingState,
    ext: Seq<char>,
    r: Result<Vec<Invoice>, String>,
) -> bool {
    match uuid_parse(ext) {
        None => r is Err && r->Err_0@ == msg_not_uuid(),
        Some(e) => match user_index(st.users@, e) {
            None => r is Err && r->Err_0@ == msg_user_not_found(),
            Some(ui) => {
                let owned = invoices_of_user(st.invoices@, st.users@[ui].id);
                &&& r is Ok
                &&& r->Ok_0@.len() == owned.len()
                &&& forall|k: int| 0 <= k < owned.len() ==> (#[trigger] r->Ok_0@[k])@ == owned[k]@
            },
        },
    }
}

impl InvoiceListUsecase {
    /// Returns the invoices of the user the external id names, in order.
    /// Reads only; nothing is written.
    pub fn get_by_user_id(&self, st: &BillingState, external_user_id_str: &str) -> (r: Result<
        Vec<Invoice>,
        String,
    >)
        ensures
            list_invoices_result(*st, external_user_id_str@, r),
    {
        let ext = match parse_uuid(external_user_id_str) {
            Some(e) => e,
            None => {
                return Err(mk_msg_not_uuid());
            },
        };
        let user = match st.user_by_external_id(ext) {
            Ok(u) => u,
            Err(ReadingUserError::UserNotFoundError) => {
                return Err(mk_msg_user_not_found());
            },
            Err(_) => {
                return Err(mk_msg_reading_user_unmapped());
            },
        };
        match st.invoices_by_user(user.id) {
            Ok(list) => Ok(list),
            Err(_) => Err(mk_msg_reading_invoice_unmapped()),
        }
    }
}

} // verus!
