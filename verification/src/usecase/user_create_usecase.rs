use crate::driven::CreatingUserError;
use crate::dto::user::User;
use crate::ids::{parse_uuid, uuid_parse};
use crate::messages::{mk_msg_creating_user_unmapped, mk_msg_not_uuid, msg_creating_user_unmapped, msg_not_uuid};
use crate::store::BillingState;
use vstd::prelude::*;

verus! {

/// Registers users that the caller's domain announces, keyed by the
/// caller-assigned external id.
pub struct UserCreateUsecase {}

/// What `create_user` does: a malformed external id is rejected before any
/// write; otherwise a user row is created under a fresh id, unless the
/// identifier space is exhausted.
pub open spec fn create_user_post(
    pre: BillingState,
    post: BillingState,
    ext: Seq<char>,
    r: Result<User, String>,
) -> bool {
    match uuid_parse(ext) {
        None => {
            &&& r is Err
            &&& r->Err_0@ == msg_not_uuid()
            &&& post == pre
        },
        Some(e) => if pre.next_id < u128::MAX {
            let u = User { id: pre.next_id, external_id: e };
            &&& r == Ok::<User, String>(u)
            &&& post.users@ == pre.users@.push(u)
            &&& post.invoices == pre.invoices
            &&& post.payment_methods == pre.payment_methods
            &&& post.gateways == pre.gateways
            &&& post.gateway_integrations == pre.gateway_integrations
            &&& post.charges == pre.charges
            &&& post.events == pre.events
            &&& post.cache == pre.cache
            &&& post.next_id == pre.next_id + 1
        } else {
            &&& r is Err
            &&& r->Err_0@ == msg_creating_user_unmapped()
            &&& post == pre
        },
    }
}

impl UserCreateUsecase {
    /// Creates the user the external id names. The external id must be a
    /// UUID; any other text is rejected with a validation error and no write.
    pub fn create_user(&self, st: &mut BillingState, external_user_id_str: &str) -> (r: Result<
        User,
        String,
    >)
        requires
            old(st).wf(),
        ensures
            final(st).wf(),
            create_user_post(*old(st), *final(st), external_user_id_str@, r),
    {
        let ext = match parse_uuid(external_user_id_str) {
            Some(e) => e,
            None => {
                return Err(mk_msg_not_uuid());
            },
        };
        match st.create_user_row(ext) {
            Ok(u) => Ok(u),
            Err(CreatingUserError::UnmappedError) => Err(mk_msg_creating_user_unmapped()),
        }
    }
}

} // verus!
