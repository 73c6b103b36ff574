use crate::driven::{CreatingChargeError, ReadingInvoiceError, ReadingPaymentMethodError};
use crate::dto::charge::{Charge, ChargeCreatedEvent, ChargeStatus};
use crate::ids::{parse_uuid, uuid_parse};
use crate::messages::{mk_msg_charge_invoice_not_found, mk_msg_creating_charge_unmapped, mk_msg_kafka_producer, mk_msg_not_uuid, mk_msg_reading_invoice_unmapped, mk_msg_reading_pm_unmapped, msg_charge_invoice_not_found, msg_creating_charge_unmapped, msg_not_uuid, msg_reading_pm_unmapped};
use crate::store::{default_pm_index, invoice_index, BillingState};
use vstd::prelude::*;

verus! {

/// The charge orchestrator: resolves an invoice and its owner's default
/// payment method, persists a charge row in Progress, and publishes exactly
/// one charge-created event. Settlement itself is asynchronous and happens
/// downstream of the event.
pub struct ChargeCreateUsecase {}

/// What `create_charge` does: the invoice id is validated before any read,
/// the invoice and its owner's default payment method must exist, and on
/// success one charge row in Progress and one published event are appended.
pub open spec fn create_charge_post(
    pre: BillingState,
    post: BillingState,
    idstr: Seq<char>,
    r: Result<Charge, String>,
) -> bool {
    &&& post.users == pre.users
    &&& post.invoices == pre.invoices
    &&& post.payment_methods == pre.payment_methods
    &&& post.gateways == pre.gateways
    &&& post.gateway_integrations == pre.gateway_integrations
    &&& post.cache == pre.cache
    &&& match uuid_parse(idstr) {
        None => {
            &&& r is Err
            &&& r->Err_0@ == msg_not_uuid()
            &&& post == pre
        },
        Some(id) => match invoice_index(pre.invoices@, id) {
            None => {
                &&& r is Err
                &&& r->Err_0@ == msg_charge_invoice_not_found()
                &&& post == pre
            },
            Some(ix) => match default_pm_index(
                pre.payment_methods@,
                pre.invoices@[ix].user_id,
            ) {
                None => {
                    &&& r is Err
                    &&& r->Err_0@ == msg_reading_pm_unmapped()
                    &&& post == pre
                },
                Some(pi) => if pre.next_id < u128::MAX {
                    let c = Charge {
                        id: pre.next_id,
                        invoice_id: id,
                        status: ChargeStatus::Progress,
                        payment_method_id: pre.payment_methods@[pi].id,
                    };
                    &&& r == Ok::<Charge, String>(c)
                    &&& post.charges@ == pre.charges@.push(c)
                    &&& post.events@ == pre.events@.push(ChargeCreatedEvent { charge: c })
                    &&& post.next_id == pre.next_id + 1
                } else {
                    &&& r is Err
                    &&& r->Err_0@ == msg_creating_charge_unmapped()
                    &&& post == pre
                },
            },
        },
    }
}

impl ChargeCreateUsecase {
    /// Creates a charge in status Progress for the invoice the id names,
    /// against its owner's default payment method, and publishes one
    /// charge-created event.
    pub fn create_charge(&self, st: &mut BillingState, invoice_id_str: &str) -> (r: Result<
        Charge,
        String,
    >)
        requires
            old(st).wf(),
        ensures
            final(st).wf(),
            create_charge_post(*old(st), *final(st), invoice_id_str@, r),
    {
        let invoice_id = match parse_uuid(invoice_id_str) {
            Some(i) => i,
            None => {
                return Err(mk_msg_not_uuid());
            },
        };
        let invoice = match st.invoice_by_id(invoice_id) {
            Ok(inv) => inv,
            Err(ReadingInvoiceError::InvoiceNotFoundError) => {
                return Err(mk_msg_charge_invoice_not_found());
            },
            Err(ReadingInvoiceError::UnmappedError) => {
                return Err(mk_msg_reading_invoice_unmapped());
            },
        };
        proof {
            crate::store::lemma_first_index(
                st.invoices@,
                crate::store::has_invoice_id(invoice_id),
            );
        }
        let payment_method = match st.default_payment_method(invoice.user_id) {
            Ok(pm) => pm,
            Err(ReadingPaymentMethodError::UnmappedError) => {
                return Err(mk_msg_reading_pm_unmapped());
            },
            Err(ReadingPaymentMethodError::MethodUnexpectederror) => {
                return Err(mk_msg_reading_pm_unmapped());
            },
        };
        match st.create_charge_row(invoice.id, payment_method.id) {
            Ok(charge) => Ok(charge),
            Err(CreatingChargeError::KafkaProducerError) => Err(mk_msg_kafka_producer()),
            Err(CreatingChargeError::UnmappedError) => Err(mk_msg_creating_charge_unmapped()),
        }
    }
}

} // verus!
