use auth_plus_billing::dto::charge::ChargeStatus;
use auth_plus_billing::dto::invoice::{Invoice, InvoiceStatus};
use auth_plus_billing::dto::payment_method::{Method, PaymentMethod, PaymentMethodInfo, PixInfo};
use auth_plus_billing::get_core;
use auth_plus_billing::retry::retry_charging_invoices;
use auth_plus_billing::store::BillingState;

fn uuid_str(v: u128) -> String {
    uuid::Uuid::from_u128(v).to_string()
}

fn pix_info(key: &str) -> PaymentMethodInfo {
    PaymentMethodInfo::PixInfo(PixInfo {
        key: String::from(key),
        external_id: String::from("ABCDEFG"),
    })
}

/// Seeds one user with a Pending invoice, and a default payment method
/// where `with_payment_method` says so. Returns the invoice id.
fn seed_pending_invoice(st: &mut BillingState, with_payment_method: bool) -> u128 {
    let user_id = st.next_id;
    st.users.push(auth_plus_billing::dto::user::User {
        id: user_id,
        external_id: user_id,
    });
    st.next_id += 1;
    let invoice_id = st.next_id;
    st.invoices.push(Invoice {
        id: invoice_id,
        user_id,
        status: InvoiceStatus::Pending,
        itens: Vec::new(),
    });
    st.next_id += 1;
    if with_payment_method {
        let pm_id = st.next_id;
        st.payment_methods.push(PaymentMethod {
            id: pm_id,
            user_id,
            is_default: true,
            method: Method::Pix,
            info: pix_info("any@email.com"),
        });
        st.next_id += 1;
    }
    invoice_id
}

#[test]
fn should_succeed_creating_charge() {
    let core = get_core();
    let mut st = BillingState::new();
    let invoice_id = seed_pending_invoice(&mut st, true);
    let pm_id = st.payment_methods[0].id;
    let charge = core
        .charge
        .create
        .create_charge(&mut st, &uuid_str(invoice_id))
        .unwrap();
    assert_eq!(charge.invoice_id, invoice_id);
    assert_eq!(charge.payment_method_id, pm_id);
    assert_eq!(charge.status.as_str(), ChargeStatus::Progress.as_str());
    // exactly one charge row and exactly one published event
    assert_eq!(st.charges.len(), 1);
    assert_eq!(st.events.len(), 1);
    assert_eq!(st.events[0].charge, charge);
}

#[test]
fn charge_create_usecase_should_fail_when_uuid_is_wrong() {
    let core = get_core();
    let mut st = BillingState::new();
    let result = core.charge.create.create_charge(&mut st, "any-hash-not-uuid");
    assert_eq!(result.unwrap_err(), "external id provided isn't uuid");
    assert_eq!(st.charges.len(), 0);
}

#[test]
fn charge_fails_when_invoice_does_not_exist() {
    let core = get_core();
    let mut st = BillingState::new();
    let result = core.charge.create.create_charge(&mut st, &uuid_str(123));
    assert_eq!(result.unwrap_err(), "invoice not found");
    assert_eq!(st.charges.len(), 0);
    assert_eq!(st.events.len(), 0);
}

#[test]
fn charge_fails_when_no_default_payment_method() {
    let core = get_core();
    let mut st = BillingState::new();
    let invoice_id = seed_pending_invoice(&mut st, false);
    let result = core.charge.create.create_charge(&mut st, &uuid_str(invoice_id));
    assert_eq!(
        result.unwrap_err(),
        "ReadingPaymentMethodError::UnmappedError Something wrong happen"
    );
    assert_eq!(st.charges.len(), 0);
    assert_eq!(st.events.len(), 0);
}

#[test]
fn retry_batch_isolates_the_failing_invoice() {
    let mut st = BillingState::new();
    let first = seed_pending_invoice(&mut st, true);
    let second = seed_pending_invoice(&mut st, false);
    let third = seed_pending_invoice(&mut st, true);
    let result = retry_charging_invoices(&mut st);
    // the batch kept going past the failing second invoice
    assert_eq!(st.charges.len(), 2);
    assert_eq!(st.charges[0].invoice_id, first);
    assert_eq!(st.charges[1].invoice_id, third);
    assert_eq!(st.events.len(), 2);
    assert!(st.charges.iter().all(|c| c.invoice_id != second));
    // the aggregated error holds only the second invoice's failure
    assert_eq!(
        result.unwrap_err(),
        "ReadingPaymentMethodError::UnmappedError Something wrong happen"
    );
}

#[test]
fn retry_joins_several_failures_with_semicolons() {
    let mut st = BillingState::new();
    seed_pending_invoice(&mut st, false);
    seed_pending_invoice(&mut st, false);
    let result = retry_charging_invoices(&mut st);
    assert_eq!(st.charges.len(), 0);
    assert_eq!(
        result.unwrap_err(),
        "ReadingPaymentMethodError::UnmappedError Something wrong happen;\
ReadingPaymentMethodError::UnmappedError Something wrong happen"
    );
}

#[test]
fn retry_charging_invoices_succeeds_on_an_empty_batch() {
    let mut st = BillingState::new();
    assert!(retry_charging_invoices(&mut st).is_ok());
    assert_eq!(st.charges.len(), 0);
}

#[test]
fn retry_skips_invoices_that_are_not_pending() {
    let mut st = BillingState::new();
    let pending = seed_pending_invoice(&mut st, true);
    // a Draft and a Paid invoice for the same user: not eligible
    let user_id = st.users[0].id;
    for status in [InvoiceStatus::Draft, InvoiceStatus::Paid] {
        let id = st.next_id;
        st.invoices.push(Invoice {
            id,
            user_id,
            status,
            itens: Vec::new(),
        });
        st.next_id += 1;
    }
    assert!(retry_charging_invoices(&mut st).is_ok());
    assert_eq!(st.charges.len(), 1);
    assert_eq!(st.charges[0].invoice_id, pending);
}
