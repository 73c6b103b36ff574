use auth_plus_billing::dto::gateway::Gateway;
use auth_plus_billing::dto::invoice::{Invoice, InvoiceStatus};
use auth_plus_billing::dto::payment_method::{Method, PaymentMethodInfo, PixInfo};
use auth_plus_billing::get_core;
use auth_plus_billing::store::BillingState;

fn uuid_str(v: u128) -> String {
    uuid::Uuid::from_u128(v).to_string()
}

fn pix_info(key: &str) -> PaymentMethodInfo {
    PaymentMethodInfo::PixInfo(PixInfo {
        key: String::from(key),
        external_id: String::from("ABCDEFG"),
    })
}

fn seed_invoice(st: &mut BillingState, status: InvoiceStatus) -> u128 {
    let user_id = st.next_id;
    st.users.push(auth_plus_billing::dto::user::User {
        id: user_id,
        external_id: user_id,
    });
    st.next_id += 1;
    let invoice_id = st.next_id;
    st.invoices.push(Invoice {
        id: invoice_id,
        user_id,
        status,
        itens: Vec::new(),
    });
    st.next_id += 1;
    invoice_id
}

fn seed_gateways(st: &mut BillingState) {
    st.gateways.push(Gateway {
        id: st.next_id,
        name: String::from("stripe"),
        priority: 0,
    });
    st.next_id += 1;
    st.gateways.push(Gateway {
        id: st.next_id,
        name: String::from("fallback"),
        priority: 1,
    });
    st.next_id += 1;
}

#[test]
fn should_succeed_updating_invoice() {
    let core = get_core();
    let mut st = BillingState::new();
    let invoice_id = seed_invoice(&mut st, InvoiceStatus::Pending);
    let updated = core
        .invoice
        .update
        .update(&mut st, &uuid_str(invoice_id), "paid")
        .unwrap();
    assert_eq!(updated.status.as_str(), "paid");
    assert_eq!(st.invoices[0].status.as_str(), "paid");
}

#[test]
fn end_to_end_update_scenario() {
    // Invoice I is Pending. Cancelling is not in the table and writes
    // nothing; paying succeeds and returns status Paid.
    let core = get_core();
    let mut st = BillingState::new();
    let invoice_id = seed_invoice(&mut st, InvoiceStatus::Pending);
    let id_str = uuid_str(invoice_id);
    let rejected = core.invoice.update.update(&mut st, &id_str, "cancelled");
    assert_eq!(rejected.unwrap_err(), "Updating to invalid status");
    assert_eq!(st.invoices[0].status.as_str(), "pending");
    let updated = core.invoice.update.update(&mut st, &id_str, "paid").unwrap();
    assert_eq!(updated.status.as_str(), "paid");
}

#[test]
fn invoice_update_usecase_should_fail_when_uuid_is_wrong() {
    let core = get_core();
    let mut st = BillingState::new();
    let result = core.invoice.update.update(&mut st, "any-hash-not-uuid", "paid");
    assert_eq!(result.unwrap_err(), "external id provided isn't uuid");
}

#[test]
fn update_fails_when_invoice_does_not_exist() {
    let core = get_core();
    let mut st = BillingState::new();
    let result = core.invoice.update.update(&mut st, &uuid_str(555), "paid");
    assert_eq!(result.unwrap_err(), "Invoice not found");
}

#[test]
fn update_rejects_an_unknown_status_string() {
    let core = get_core();
    let mut st = BillingState::new();
    let invoice_id = seed_invoice(&mut st, InvoiceStatus::Pending);
    let result = core
        .invoice
        .update
        .update(&mut st, &uuid_str(invoice_id), "sideways");
    assert_eq!(result.unwrap_err(), "Updating to invalid status");
    assert_eq!(st.invoices[0].status.as_str(), "pending");
}

#[test]
fn should_succeed_creating_payment_method() {
    let core = get_core();
    let mut st = BillingState::new();
    seed_gateways(&mut st);
    let external = uuid_str(61);
    core.user.create.create_user(&mut st, &external).unwrap();
    let user_id = st.users[0].id;
    let pm = core
        .payment_method
        .create
        .create(&mut st, &external, true, Method::Pix, &pix_info("any@email.com"))
        .unwrap();
    assert_eq!(pm.user_id, user_id);
    assert!(pm.is_default);
    assert_eq!(pm.method, Method::Pix);
    assert_eq!(st.payment_methods.len(), 1);
    // the integration links the highest-priority gateway
    assert_eq!(st.gateway_integrations.len(), 1);
    assert_eq!(st.gateway_integrations[0].gateway_id, st.gateways[0].id);
    assert_eq!(st.gateway_integrations[0].user_id, user_id);
    assert_eq!(st.gateway_integrations[0].payment_method_id, pm.id);
}

#[test]
fn duplicate_gateway_integration_is_rejected() {
    let core = get_core();
    let mut st = BillingState::new();
    seed_gateways(&mut st);
    let external = uuid_str(62);
    core.user.create.create_user(&mut st, &external).unwrap();
    core.payment_method
        .create
        .create(&mut st, &external, true, Method::Pix, &pix_info("a@b.c"))
        .unwrap();
    let second = core
        .payment_method
        .create
        .create(&mut st, &external, false, Method::CreditCard, &pix_info("d@e.f"));
    assert_eq!(second.unwrap_err(), "Gateway integration already exists");
    // no second integration row was persisted
    assert_eq!(st.gateway_integrations.len(), 1);
}

#[test]
fn payment_method_create_usecase_should_fail_when_uuid_is_wrong() {
    let core = get_core();
    let mut st = BillingState::new();
    seed_gateways(&mut st);
    let result = core
        .payment_method
        .create
        .create(&mut st, "any-hash-not-uuid", true, Method::Pix, &pix_info("x"));
    assert_eq!(result.unwrap_err(), "external id provided isn't uuid");
}

#[test]
fn payment_method_create_should_fail_when_user_does_not_exist() {
    let core = get_core();
    let mut st = BillingState::new();
    seed_gateways(&mut st);
    let result = core
        .payment_method
        .create
        .create(&mut st, &uuid_str(63), true, Method::Pix, &pix_info("x"));
    assert_eq!(result.unwrap_err(), "User Not found");
    assert_eq!(st.payment_methods.len(), 0);
}

#[test]
fn payment_method_create_fails_without_gateways() {
    let core = get_core();
    let mut st = BillingState::new();
    let external = uuid_str(64);
    core.user.create.create_user(&mut st, &external).unwrap();
    let result = core
        .payment_method
        .create
        .create(&mut st, &external, true, Method::Pix, &pix_info("x"));
    assert_eq!(result.unwrap_err(), "No gateway found");
    assert_eq!(st.payment_methods.len(), 0);
}
