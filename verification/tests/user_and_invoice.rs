use auth_plus_billing::dto::invoice::InvoiceStatus;
use auth_plus_billing::dto::invoice_item::{Amount, InvoiceItem};
use auth_plus_billing::get_core;
use auth_plus_billing::store::BillingState;

fn uuid_str(v: u128) -> String {
    uuid::Uuid::from_u128(v).to_string()
}

fn item(description: &str, quantity: u16, mantissa: u64, scale: u8, currency: &str) -> InvoiceItem {
    InvoiceItem {
        id: None,
        description: String::from(description),
        quantity,
        amount: Amount { mantissa, scale },
        currency: String::from(currency),
    }
}

#[test]
fn should_succeed_creating_user() {
    let core = get_core();
    let mut st = BillingState::new();
    let external = uuid_str(7);
    let user = core.user.create.create_user(&mut st, &external).unwrap();
    assert_eq!(user.external_id, 7);
    assert_eq!(st.users.len(), 1);
    assert_eq!(st.users[0].id, user.id);
}

#[test]
fn user_create_usecase_should_fail_when_uuid_is_wrong() {
    let core = get_core();
    let mut st = BillingState::new();
    let result = core.user.create.create_user(&mut st, "any-hash-not-uuid");
    assert_eq!(result.unwrap_err(), "external id provided isn't uuid");
    assert_eq!(st.users.len(), 0);
}

#[test]
fn should_succeed_creating_invoice_by_user() {
    let core = get_core();
    let mut st = BillingState::new();
    let external = uuid_str(11);
    core.user.create.create_user(&mut st, &external).unwrap();
    let items = vec![item("deposit", 1, 19990, 2, "BRL")];
    let invoice = core
        .invoice
        .create
        .create_invoice(&mut st, &external, &items)
        .unwrap();
    assert_eq!(invoice.status.as_str(), "draft");
    assert_eq!(invoice.itens.len(), 1);
    assert!(invoice.itens[0].id.is_some());
    assert_eq!(invoice.itens[0].description, "deposit");
    assert_eq!(invoice.itens[0].amount, Amount { mantissa: 19990, scale: 2 });
    assert_eq!(invoice.itens[0].currency, "BRL");
    assert_eq!(st.invoices.len(), 1);
}

#[test]
fn invoice_create_usecase_should_fail_when_uuid_is_wrong() {
    let core = get_core();
    let mut st = BillingState::new();
    let items = vec![item("deposit", 1, 100, 0, "BRL")];
    let result = core
        .invoice
        .create
        .create_invoice(&mut st, "a-hash-not-uuid", &items);
    assert_eq!(result.unwrap_err(), "external id provided isn't uuid");
    assert_eq!(st.invoices.len(), 0);
}

#[test]
fn invoice_create_should_fail_when_user_does_not_exist() {
    let core = get_core();
    let mut st = BillingState::new();
    let items = vec![item("deposit", 1, 100, 0, "BRL")];
    let result = core
        .invoice
        .create
        .create_invoice(&mut st, &uuid_str(404), &items);
    assert_eq!(result.unwrap_err(), "User Not found");
    assert_eq!(st.invoices.len(), 0);
}

#[test]
fn should_list_invoices() {
    let core = get_core();
    let mut st = BillingState::new();
    let first = uuid_str(21);
    let second = uuid_str(22);
    core.user.create.create_user(&mut st, &first).unwrap();
    core.user.create.create_user(&mut st, &second).unwrap();
    let items = vec![item("subscription", 1, 500, 2, "BRL")];
    core.invoice
        .create
        .create_invoice(&mut st, &first, &items)
        .unwrap();
    core.invoice
        .create
        .create_invoice(&mut st, &second, &items)
        .unwrap();
    core.invoice
        .create
        .create_invoice(&mut st, &first, &items)
        .unwrap();
    let listed = core.invoice.list.get_by_user_id(&st, &first).unwrap();
    assert_eq!(listed.len(), 2);
    let owner = st.users[0].id;
    assert!(listed.iter().all(|inv| inv.user_id == owner));
}

#[test]
fn should_return_empty_list() {
    let core = get_core();
    let mut st = BillingState::new();
    let external = uuid_str(31);
    core.user.create.create_user(&mut st, &external).unwrap();
    let listed = core.invoice.list.get_by_user_id(&st, &external).unwrap();
    assert_eq!(listed.len(), 0);
}

#[test]
fn invoice_list_should_fail_when_user_does_not_exist() {
    let core = get_core();
    let st = BillingState::new();
    let result = core.invoice.list.get_by_user_id(&st, &uuid_str(99));
    assert_eq!(result.unwrap_err(), "User Not found");
}

#[test]
fn invoice_list_usecase_should_fail_when_uuid_is_wrong() {
    let core = get_core();
    let st = BillingState::new();
    let result = core.invoice.list.get_by_user_id(&st, "no-uuid-here");
    assert_eq!(result.unwrap_err(), "external id provided isn't uuid");
}

#[test]
fn item_ids_are_fresh_and_distinct() {
    let core = get_core();
    let mut st = BillingState::new();
    let external = uuid_str(41);
    core.user.create.create_user(&mut st, &external).unwrap();
    let items = vec![
        item("first", 1, 100, 2, "BRL"),
        item("second", 2, 200, 2, "BRL"),
        item("third", 3, 300, 2, "BRL"),
    ];
    let invoice = core
        .invoice
        .create
        .create_invoice(&mut st, &external, &items)
        .unwrap();
    let a = invoice.itens[0].id.unwrap();
    let b = invoice.itens[1].id.unwrap();
    let c = invoice.itens[2].id.unwrap();
    assert!(a != b && b != c && a != c);
    assert!(invoice.id != a && invoice.id != b && invoice.id != c);
}
