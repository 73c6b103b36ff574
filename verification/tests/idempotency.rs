use auth_plus_billing::dto::invoice::InvoiceStatus;
use auth_plus_billing::dto::invoice_item::{Amount, InvoiceItem};
use auth_plus_billing::get_core;
use auth_plus_billing::store::BillingState;
use auth_plus_billing::usecase::invoice_insert_item_usecase::InvoiceInsertItemResponse;

fn uuid_str(v: u128) -> String {
    uuid::Uuid::from_u128(v).to_string()
}

fn item(description: &str, quantity: u16, mantissa: u64, scale: u8, currency: &str) -> InvoiceItem {
    InvoiceItem {
        id: None,
        description: String::from(description),
        quantity,
        amount: Amount { mantissa, scale },
        currency: String::from(currency),
    }
}

fn response_items(resp: &InvoiceInsertItemResponse) -> Vec<InvoiceItem> {
    match resp {
        InvoiceInsertItemResponse::Item(list) => list.clone(),
        InvoiceInsertItemResponse::Invoice(_) => panic!("expected the appended-items shape"),
    }
}

#[test]
fn creates_a_new_draft_when_none_exists() {
    let core = get_core();
    let mut st = BillingState::new();
    let external = uuid_str(1);
    core.user.create.create_user(&mut st, &external).unwrap();
    let items = vec![item("coffee", 1, 1200, 2, "BRL")];
    let resp = core
        .invoice
        .create_or_append
        .create_invoice(&mut st, &external, &items, "key-1")
        .unwrap();
    match resp {
        InvoiceInsertItemResponse::Invoice(inv) => {
            assert_eq!(inv.status.as_str(), "draft");
            assert_eq!(inv.itens.len(), 1);
        }
        InvoiceInsertItemResponse::Item(_) => panic!("expected the new-invoice shape"),
    }
    assert_eq!(st.invoices.len(), 1);
    assert_eq!(st.cache.len(), 1);
}

#[test]
fn appends_to_the_existing_draft() {
    let core = get_core();
    let mut st = BillingState::new();
    let external = uuid_str(2);
    core.user.create.create_user(&mut st, &external).unwrap();
    let first = vec![item("coffee", 1, 1200, 2, "BRL")];
    core.invoice
        .create_or_append
        .create_invoice(&mut st, &external, &first, "key-a")
        .unwrap();
    let more = vec![item("cake", 1, 900, 2, "BRL")];
    let resp = core
        .invoice
        .create_or_append
        .create_invoice(&mut st, &external, &more, "key-b")
        .unwrap();
    let appended = response_items(&resp);
    assert_eq!(appended.len(), 1);
    assert_eq!(appended[0].description, "cake");
    assert!(appended[0].id.is_some());
    // still one invoice, now with both items
    assert_eq!(st.invoices.len(), 1);
    assert_eq!(st.invoices[0].itens.len(), 2);
}

#[test]
fn replaying_the_same_key_returns_the_stored_response_and_writes_nothing() {
    let core = get_core();
    let mut st = BillingState::new();
    let external = uuid_str(3);
    core.user.create.create_user(&mut st, &external).unwrap();
    let items = vec![item("plan", 1, 4990, 2, "BRL")];
    let r1 = core
        .invoice
        .create_or_append
        .create_invoice(&mut st, &external, &items, "same-key")
        .unwrap();
    let invoices_after_first = st.invoices.len();
    let cache_after_first = st.cache.len();
    let other_items = vec![item("something else", 9, 1, 0, "USD")];
    let r2 = core
        .invoice
        .create_or_append
        .create_invoice(&mut st, &external, &other_items, "same-key")
        .unwrap();
    // byte-identical responses: both are the same new-invoice shape
    match (&r1, &r2) {
        (InvoiceInsertItemResponse::Invoice(a), InvoiceInsertItemResponse::Invoice(b)) => {
            assert_eq!(a.id, b.id);
            assert_eq!(a.user_id, b.user_id);
            assert_eq!(a.status.as_str(), b.status.as_str());
            assert_eq!(a.itens, b.itens);
        }
        _ => panic!("replay changed the response shape"),
    }
    // the repository write happened only once, and nothing else was cached
    assert_eq!(st.invoices.len(), invoices_after_first);
    assert_eq!(st.cache.len(), cache_after_first);
    assert_eq!(st.invoices[0].itens.len(), 1);
    assert_eq!(st.invoices[0].itens[0].description, "plan");
}

#[test]
fn end_to_end_draft_and_idempotency_scenario() {
    // User U has a Draft invoice with zero items.
    let core = get_core();
    let mut st = BillingState::new();
    let external = uuid_str(0xE1);
    core.user.create.create_user(&mut st, &external).unwrap();
    let no_items: Vec<InvoiceItem> = Vec::new();
    core.invoice
        .create_or_append
        .create_invoice(&mut st, &external, &no_items, "setup-key")
        .unwrap();
    assert_eq!(st.invoices.len(), 1);
    assert_eq!(st.invoices[0].status.as_str(), "draft");
    assert_eq!(st.invoices[0].itens.len(), 0);

    // With key K1, item A lands on the existing draft I1.
    let item_a = vec![item("item A", 1, 100, 2, "BRL")];
    let r1 = core
        .invoice
        .create_or_append
        .create_invoice(&mut st, &external, &item_a, "K1")
        .unwrap();
    let appended_a = response_items(&r1);
    assert_eq!(appended_a.len(), 1);
    assert_eq!(appended_a[0].description, "item A");
    assert_eq!(st.invoices.len(), 1);
    assert_eq!(st.invoices[0].itens.len(), 1);

    // The same key K1 with item B returns the identical previous response
    // and does not add item B.
    let item_b = vec![item("item B", 1, 200, 2, "BRL")];
    let r2 = core
        .invoice
        .create_or_append
        .create_invoice(&mut st, &external, &item_b, "K1")
        .unwrap();
    let replayed = response_items(&r2);
    assert_eq!(replayed, appended_a);
    assert_eq!(st.invoices[0].itens.len(), 1);

    // A new key K2 appends item B to I1.
    let r3 = core
        .invoice
        .create_or_append
        .create_invoice(&mut st, &external, &item_b, "K2")
        .unwrap();
    let appended_b = response_items(&r3);
    assert_eq!(appended_b.len(), 1);
    assert_eq!(appended_b[0].description, "item B");
    assert_eq!(st.invoices.len(), 1);
    assert_eq!(st.invoices[0].itens.len(), 2);
    assert_eq!(st.invoices[0].itens[0].description, "item A");
    assert_eq!(st.invoices[0].itens[1].description, "item B");
}

#[test]
fn insert_item_usecase_should_fail_when_uuid_is_wrong() {
    let core = get_core();
    let mut st = BillingState::new();
    let items = vec![item("x", 1, 1, 0, "BRL")];
    let result = core
        .invoice
        .create_or_append
        .create_invoice(&mut st, "any-hash-not-uuid", &items, "k");
    assert_eq!(result.unwrap_err(), "external id provided isn't uuid");
}

#[test]
fn insert_item_usecase_should_fail_when_user_does_not_exist() {
    let core = get_core();
    let mut st = BillingState::new();
    let items = vec![item("x", 1, 1, 0, "BRL")];
    let result = core
        .invoice
        .create_or_append
        .create_invoice(&mut st, &uuid_str(77), &items, "k");
    assert_eq!(result.unwrap_err(), "User Not found");
}

#[test]
fn different_users_do_not_share_drafts() {
    let core = get_core();
    let mut st = BillingState::new();
    let first = uuid_str(51);
    let second = uuid_str(52);
    core.user.create.create_user(&mut st, &first).unwrap();
    core.user.create.create_user(&mut st, &second).unwrap();
    let items = vec![item("a", 1, 1, 0, "BRL")];
    core.invoice
        .create_or_append
        .create_invoice(&mut st, &first, &items, "k1")
        .unwrap();
    core.invoice
        .create_or_append
        .create_invoice(&mut st, &second, &items, "k2")
        .unwrap();
    // each user got an invoice of their own
    assert_eq!(st.invoices.len(), 2);
    assert!(st.invoices[0].user_id != st.invoices[1].user_id);
}
