use vstd::prelude::*;

verus! {

/// Lifecycle of a charge attempt. A charge is created in `Progress`; its
/// terminal status is settled by the gateway callback path, outside this core.
#[derive(Clone, Copy, Debug, PartialEq, Eq, Structural)]
pub enum ChargeStatus {
    Failed,
    Progress,
    Succeed,
    UnmappedStatus,
}

/// The status string under which a charge status is stored and reported.
pub open spec fn charge_status_str(s: ChargeStatus) -> Seq<char> {
    match s {
        ChargeStatus::Failed => "failed"@,
        ChargeStatus::Progress => "progress"@,
        ChargeStatus::Succeed => "succeed"@,
        ChargeStatus::UnmappedStatus => "unknown"@,
    }
}

impl ChargeStatus {
    /// The status string under which this status is stored and reported.
    pub fn as_str(&self) -> (r: &'static str)
        ensures
            r@ == charge_status_str(*self),
    {
        match self {
            ChargeStatus::Failed => "failed",
            ChargeStatus::Progress => "progress",
            ChargeStatus::Succeed => "succeed",
            ChargeStatus::UnmappedStatus => "unknown",
        }
    }
}

/// An attempt to collect payment for an invoice through a payment method,
/// tracked independently of the invoice's own status.
#[derive(Clone, Copy, Debug, PartialEq, Eq, Structural)]
pub struct Charge {
    pub id: u128,
    pub invoice_id: u128,
    pub status: ChargeStatus,
    pub payment_method_id: u128,
}

/// The domain event published when a charge row has been created; the
/// message bus carries it to the settlement path.
#[derive(Clone, Copy, Debug, PartialEq, Eq, Structural)]
pub struct ChargeCreatedEvent {
    pub charge: Charge,
}

} // verus!
