use auth_plus_billing::config::{App, Config, Database, Kafka, Prometheus};
use auth_plus_billing::dto::invoice_item::{Amount, InvoiceItem};
use auth_plus_billing::get_core;
use auth_plus_billing::store::BillingState;
use auth_plus_billing::usecase::invoice_insert_item_usecase::InvoiceInsertItemResponse;

fn uuid_str(v: u128) -> String {
    uuid::Uuid::from_u128(v).to_string()
}

#[test]
fn prometheus_counters_start_at_zero_and_count() {
    let mut metrics = Prometheus::init();
    assert_eq!(metrics.success_count, 0);
    assert_eq!(metrics.fail_count, 0);
    metrics.observe(true);
    metrics.observe(true);
    metrics.observe(false);
    assert_eq!(metrics.success_count, 2);
    assert_eq!(metrics.fail_count, 1);
}

#[test]
fn config_holds_its_values() {
    let config = Config {
        app: App {
            env: String::from("production"),
            name: String::from("billing"),
            port: 8080,
        },
        database: Database { url: String::from("postgres://localhost/billing") },
        kafka: Kafka { url: String::from("localhost:9092") },
    };
    assert_eq!(config.app.port, 8080);
    assert_eq!(config.app.name, "billing");
    assert_eq!(config.database.url, "postgres://localhost/billing");
    assert_eq!(config.kafka.url, "localhost:9092");
}

#[test]
fn replay_preserves_multibyte_item_text() {
    // The cached response carries the item text through the serialized
    // form; characters outside ASCII must survive the round trip.
    let core = get_core();
    let mut st = BillingState::new();
    let external = uuid_str(90);
    core.user.create.create_user(&mut st, &external).unwrap();
    let items = vec![InvoiceItem {
        id: None,
        description: String::from("caf\u{e9} \u{2615} da manh\u{e3}"),
        quantity: 2,
        amount: Amount { mantissa: 1850, scale: 2 },
        currency: String::from("BRL"),
    }];
    let r1 = core
        .invoice
        .create_or_append
        .create_invoice(&mut st, &external, &items, "unicode-key")
        .unwrap();
    let empty: Vec<InvoiceItem> = Vec::new();
    let r2 = core
        .invoice
        .create_or_append
        .create_invoice(&mut st, &external, &empty, "unicode-key")
        .unwrap();
    match (&r1, &r2) {
        (InvoiceInsertItemResponse::Invoice(a), InvoiceInsertItemResponse::Invoice(b)) => {
            assert_eq!(a.itens, b.itens);
            assert_eq!(b.itens[0].description, "caf\u{e9} \u{2615} da manh\u{e3}");
            assert_eq!(b.itens[0].quantity, 2);
            assert_eq!(b.itens[0].amount, Amount { mantissa: 1850, scale: 2 });
        }
        _ => panic!("replay changed the response shape"),
    }
}
