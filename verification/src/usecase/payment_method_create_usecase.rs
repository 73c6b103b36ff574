use crate::driven::{
    CreatingGatewayIntegrationError, CreatingPaymentMethodError, ReadingGatewayError,
    ReadingUserError,
};
use crate::dto::gateway_integration::GatewayIntegration;
use crate::dto::payment_method::{Method, PaymentMethod, PaymentMethodInfo};
use crate::ids::{parse_uuid, uuid_parse};
use crate::messages::{mk_msg_creating_pm_unmapped, mk_msg_gi_duplicate, mk_msg_gi_unmapped, mk_msg_no_gateway, mk_msg_not_uuid, mk_msg_reading_gateway_unmapped, mk_msg_reading_user_unmapped, mk_msg_user_not_found, msg_creating_pm_unmapped, msg_gi_duplicate, msg_gi_unmapped, msg_no_gateway, msg_not_uuid, msg_user_not_found};
use crate::store::{has_integration, user_index, BillingState};
use vstd::prelude::*;

verus! {

/// Links a user's new payment method to the active gateway: persists the
/// method, then creates a gateway integration against the highest-priority
/// gateway.
pub struct PaymentMethodCreateUsecase {}

/// What `create` does: the external id is validated first, the user must
/// exist, the gateway list must be non-empty, the payment method row is
/// persisted, and the integration against the active gateway is created
/// unless one already exists for the `(user, gateway)` pair — that conflict
/// is surfaced distinctly, and the already-persisted payment method stays.
pub open spec fn create_payment_method_post(
    pre: BillingState,
    post: BillingState,
    ext: Seq<char>,
    is_default: bool,
    method: Method,
    info: PaymentMethodInfo,
    r: Result<PaymentMethod, String>,
) -> bool {
    &&& post.users == pre.users
    &&& post.invoices == pre.invoices
    &&& post.gateways == pre.gateways
    &&& post.charges == pre.charges
    &&& post.events == pre.events
    &&& post.cache == pre.cache
    &&& match uuid_parse(ext) {
        None => {
            &&& r is Err
            &&& r->Err_0@ == msg_not_uuid()
            &&& post == pre
        },
        Some(e) => match user_index(pre.users@, e) {
            None => {
                &&& r is Err
                &&& r->Err_0@ == msg_user_not_found()
                &&& post == pre
            },
            Some(ui) => if pre.gateways@.len() == 0 {
                &&& r is Err
                &&& r->Err_0@ == msg_no_gateway()
                &&& post == pre
            } else if pre.next_id < u128::MAX {
                let uid = pre.users@[ui].id;
                let gwid = pre.gateways@[0].id;
                let pm = PaymentMethod {
                    id: pre.next_id,
                    user_id: uid,
                    is_default: is_default,
                    method: method,
                    info: info,
                };
                &&& post.payment_methods@ == pre.payment_methods@.push(pm)
                &&& if has_integration(pre.gateway_integrations@, uid, gwid) {
                    &&& r is Err
                    &&& r->Err_0@ == msg_gi_duplicate()
                    &&& post.gateway_integrations == pre.gateway_integrations
                    &&& post.next_id == pre.next_id + 1
                } else if pre.next_id + 1 < u128::MAX {
                    let gi = GatewayIntegration {
                        id: (pre.next_id + 1) as u128,
                        gateway_id: gwid,
                        user_id: uid,
                        payment_method_id: pm.id,
                        gateway_external_id: None,
                    };
                    &&& r == Ok::<PaymentMethod, String>(pm)
                    &&& post.gateway_integrations@ == pre.gateway_integrations@.push(gi)
                    &&& post.next_id == pre.next_id + 2
                } else {
                    &&& r is Err
                    &&& r->Err_0@ == msg_gi_unmapped()
                    &&& post.gateway_integrations == pre.gateway_integrations
                    &&& post.next_id == pre.next_id + 1
                }
            } else {
                &&& r is Err
                &&& r->Err_0@ == msg_creating_pm_unmapped()
                &&& post == pre
            },
        },
    }
}

impl PaymentMethodCreateUsecase {
    /// Persists a payment method for the user the external id names and
    /// links it to the active gateway. A second integration for the same
    /// `(user, gateway)` pair is rejected as a conflict; the payment method
    /// row itself is already persisted by then and stays.
    pub fn create(
        &self,
        st: &mut BillingState,
        external_user_id_str: &str,
        is_default: bool,
        method: Method,
        info: &PaymentMethodInfo,
    ) -> (r: Result<PaymentMethod, String>)
        requires
            old(st).wf(),
        ensures
            final(st).wf(),
            create_payment_method_post(
                *old(st),
                *final(st),
                external_user_id_str@,
                is_default,
                method,
                *info,
                r,
            ),
    {
        let ext = match parse_uuid(external_user_id_str) {
            Some(e) => e,
            None => {
                return Err(mk_msg_not_uuid());
            },
        };
        let user = match st.user_by_external_id(ext) {
            Ok(u) => u,
            Err(ReadingUserError::UserNotFoundError) => {
                return Err(mk_msg_user_not_found());
            },
            Err(_) => {
                return Err(mk_msg_reading_user_unmapped());
            },
        };
        let gateways = match st.gateway_priority_list() {
            Ok(gs) => gs,
            Err(ReadingGatewayError::UnmappedError) => {
                return Err(mk_msg_reading_gateway_unmapped());
            },
        };
        if gateways.len() == 0 {
            return Err(mk_msg_no_gateway());
        }
        let gateway_id = gateways[0].id;
        let pm = match st.create_payment_method_row(user.id, is_default, method, info) {
            Ok(pm) => pm,
            Err(CreatingPaymentMethodError::UnmappedError) => {
                return Err(mk_msg_creating_pm_unmapped());
            },
        };
        match st.create_gateway_integration_row(gateway_id, user.id, pm.id) {
            Ok(_) => Ok(pm),
            Err(CreatingGatewayIntegrationError::DuplicateGatewayIntegrationError) => Err(
                mk_msg_gi_duplicate(),
            ),
            Err(CreatingGatewayIntegrationError::UnmappedError) => Err(mk_msg_gi_unmapped()),
        }
    }
}

} // verus!
