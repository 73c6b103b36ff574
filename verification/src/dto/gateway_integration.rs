use vstd::prelude::*;

verus! {

/// The link record between an internal user / payment method and the
/// gateway-side identifiers. Unique per `(user_id, gateway_id)` pair.
#[derive(Debug, PartialEq)]
pub struct GatewayIntegration {
    pub id: u128,
    pub gateway_id: u128,
    pub user_id: u128,
    pub payment_method_id: u128,
    pub gateway_external_id: Option<String>,
}

impl Clone for GatewayIntegration {
    fn clone(&self) -> (r: Self)
        ensures
            r == *self,
    {
        GatewayIntegration {
            id: self.id,
            gateway_id: self.gateway_id,
            user_id: self.user_id,
            payment_method_id: self.payment_method_id,
            gateway_external_id: match &self.gateway_external_id {
                Some(s) => Some(s.clone()),
                None => None,
            },
        }
    }
}

} // verus!
