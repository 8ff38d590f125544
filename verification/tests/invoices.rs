use invoice_service::controllers::customers::{create as create_customer, get as get_customer};
use invoice_service::controllers::invoices::{detail, get, list};
use invoice_service::error::ApiError;
use invoice_service::ids::Uuid;
use invoice_service::models::{
    Customer, CustomerInput, Invoice, InvoiceInput, InvoiceListQuery, LineItem, LineItemInput,
    PaymentAttempt,
};
use invoice_service::services::invoices::{
    create, created_event, entered, for_customer, validate_line_items,
};

fn item(description: &str, quantity: i64, unit_amount_cents: i64) -> LineItemInput {
    LineItemInput {
        description: description.to_string(),
        quantity,
        unit_amount_cents,
    }
}

fn invoice(line_items: Vec<LineItemInput>) -> InvoiceInput {
    InvoiceInput {
        customer_id: Uuid { bits: 5 },
        due_date: 741_000,
        line_items,
    }
}

fn code<T: std::fmt::Debug>(result: Result<T, ApiError>) -> (u16, &'static str, String) {
    match result {
        Err(ApiError::Client {
            status,
            code,
            message,
        }) => (status, code, message),
        other => panic!("not a client error: {other:?}"),
    }
}

fn invalid_item() -> (u16, &'static str, String) {
    (
        422,
        "invalid_line_item",
        "description, positive quantity, and non-negative unit amount are required".to_string(),
    )
}

fn overflow() -> (u16, &'static str, String) {
    (
        422,
        "amount_overflow",
        "invoice amount is too large".to_string(),
    )
}

#[test]
fn total_is_the_sum_of_the_lines() {
    let draft = create(invoice(vec![
        item("  Website work ", 2, 50000),
        item("Hosting", 1, 2000),
    ]))
    .unwrap();
    assert_eq!(draft.total_cents, 102000);
    assert_eq!(draft.status, "open");
    assert_eq!(draft.currency, "USD");
    assert_eq!(draft.due_date, 741_000);
    assert_eq!(draft.customer_id, Uuid { bits: 5 });
    assert_eq!(draft.line_items.len(), 2);
    assert_eq!(draft.line_items[0].description, "Website work");
    assert_eq!(draft.line_items[0].line_total_cents, 100000);
    assert_eq!(draft.line_items[1].quantity, 1);
    assert_eq!(draft.line_items[1].unit_amount_cents, 2000);
    assert_eq!(draft.line_items[1].line_total_cents, 2000);
}

#[test]
fn line_items_are_counted() {
    let expected = (
        422,
        "invalid_line_items",
        "at least one line item is required".to_string(),
    );
    assert_eq!(code(create(invoice(vec![]))), expected);
    let many = (0..101).map(|_| item("x", 1, 1)).collect();
    assert_eq!(code(create(invoice(many))), expected);
    let hundred = (0..100).map(|_| item("x", 1, 1)).collect();
    assert_eq!(create(invoice(hundred)).unwrap().total_cents, 100);
}

#[test]
fn line_items_are_checked() {
    for bad in [
        item(" \u{2003}\t", 1, 1),
        item(&"x".repeat(501), 1, 1),
        item("x", 0, 1),
        item("x", -1, 1),
        item("x", 1, -1),
    ] {
        assert_eq!(code(create(invoice(vec![item("ok", 1, 1), bad]))), invalid_item());
    }
    let free = item(&"x".repeat(500), 1, 0);
    assert_eq!(create(invoice(vec![free])).unwrap().total_cents, 0);
    let umlauts = item(&"\u{e4}".repeat(251), 1, 0);
    assert_eq!(code(create(invoice(vec![umlauts]))), invalid_item());
}

#[test]
fn amounts_must_fit() {
    assert_eq!(code(create(invoice(vec![item("x", 2, i64::MAX)]))), overflow());
    assert_eq!(
        code(create(invoice(vec![item("x", 1, i64::MAX), item("y", 1, 1)]))),
        overflow()
    );
    let largest = create(invoice(vec![item("x", 1, i64::MAX), item("y", 1, 0)]));
    assert_eq!(largest.unwrap().total_cents, i64::MAX);
}

#[test]
fn first_fault_decides() {
    let items = vec![item("x", 2, i64::MAX), item("", 1, 1)];
    assert_eq!(code(validate_line_items(&invoice(items))), overflow());
    let items = vec![item("", 1, 1), item("x", 2, i64::MAX)];
    assert_eq!(code(validate_line_items(&invoice(items))), invalid_item());
    let items = vec![item("x", 3, 4), item("y", 5, 6)];
    assert_eq!(validate_line_items(&invoice(items)).unwrap(), vec![12, 30]);
}

#[test]
fn customer_of_an_invoice_has_to_exist() {
    let draft = create(invoice(vec![item("x", 1, 1)])).unwrap();
    assert_eq!(for_customer(draft, true).unwrap().total_cents, 1);
    let draft = create(invoice(vec![item("x", 1, 1)])).unwrap();
    assert_eq!(
        code(for_customer(draft, false)),
        (404, "customer_not_found", "customer not found".to_string())
    );
}

#[test]
fn new_invoices_are_announced() {
    let (event_type, payload) = created_event(Uuid { bits: 1 }, 102000);
    assert_eq!(event_type, "invoice.created");
    assert_eq!(
        payload,
        "{\"currency\":\"USD\",\"invoice_id\":\"00000000-0000-0000-0000-000000000001\",\
         \"status\":\"open\",\"total_cents\":102000}"
    );
    let value: serde_json::Value = serde_json::from_str(&payload).unwrap();
    assert_eq!(value.to_string(), payload);
    let (_, payload) = created_event(Uuid { bits: 1 }, i64::MIN);
    assert!(payload.ends_with("\"total_cents\":-9223372036854775808}"));
}

#[test]
fn invoices_are_listed_by_status() {
    let query = |status: Option<&str>| InvoiceListQuery {
        status: status.map(|status| status.to_string()),
    };
    assert_eq!(list(query(None)).unwrap(), None);
    assert_eq!(list(query(Some("open"))).unwrap().as_deref(), Some("open"));
    assert_eq!(list(query(Some("paid"))).unwrap().as_deref(), Some("paid"));
    for bad in ["", "Open", "void"] {
        assert_eq!(
            code(list(query(Some(bad)))),
            (
                422,
                "invalid_status",
                "status must be open or paid".to_string()
            )
        );
    }
}

fn invoice_row() -> Invoice {
    Invoice {
        id: Uuid { bits: 1 },
        customer_id: Uuid { bits: 2 },
        status: "open".to_string(),
        currency: "USD".to_string(),
        total_cents: 3,
        due_date: 4,
        created_at: 5,
    }
}

fn line_row(bits: u128) -> LineItem {
    LineItem {
        id: Uuid { bits },
        description: "x".to_string(),
        quantity: 1,
        unit_amount_cents: 3,
        line_total_cents: 3,
    }
}

#[test]
fn invoices_are_shown_with_their_lines_and_attempts() {
    let shown = entered(invoice_row(), vec![line_row(1), line_row(2)]);
    assert_eq!(shown.invoice.id, Uuid { bits: 1 });
    assert_eq!(shown.line_items[1].id, Uuid { bits: 2 });
    assert!(shown.payment_attempts.is_empty());
    let attempt = PaymentAttempt {
        id: Uuid { bits: 7 },
        status: "failed".to_string(),
        psp_ref: None,
        failure_code: Some("card_declined".to_string()),
        created_at: 1,
        updated_at: 2,
    };
    let shown = detail(invoice_row(), vec![line_row(1)], vec![attempt]);
    assert_eq!(shown.line_items.len(), 1);
    assert_eq!(shown.payment_attempts[0].id, Uuid { bits: 7 });
}

/// Rows of invoices with their businesses, in memory.
fn table() -> Vec<(u128, Invoice)> {
    let row = |bits: u128, status: &str, created_at: i64| Invoice {
        id: Uuid { bits },
        status: status.to_string(),
        created_at,
        ..invoice_row()
    };
    vec![
        (1, row(10, "open", 1)),
        (1, row(11, "paid", 3)),
        (2, row(12, "open", 4)),
        (1, row(13, "open", 2)),
    ]
}

fn listed(business: u128, status: Option<&str>) -> Vec<u128> {
    let query = InvoiceListQuery {
        status: status.map(|status| status.to_string()),
    };
    let filter = list(query).unwrap();
    let mut rows: Vec<Invoice> = table()
        .into_iter()
        .filter(|(owner, row)| {
            *owner == business && filter.as_ref().map_or(true, |status| row.status == *status)
        })
        .map(|(_, row)| row)
        .collect();
    rows.sort_by_key(|row| -row.created_at);
    rows.iter().map(|row| row.id.bits).collect()
}

#[test]
fn open_and_paid_invoices_make_up_the_list() {
    assert_eq!(listed(1, None), vec![11, 13, 10]);
    assert_eq!(listed(1, Some("open")), vec![13, 10]);
    assert_eq!(listed(1, Some("paid")), vec![11]);
    assert_eq!(listed(2, None), vec![12]);
    assert_eq!(listed(2, Some("paid")), Vec::<u128>::new());
}

#[test]
fn invoices_are_read_by_their_own_business() {
    let read = |business: u128, id: u128| {
        let row = table()
            .into_iter()
            .find(|(owner, row)| *owner == business && row.id.bits == id)
            .map(|(_, row)| row);
        get(row)
    };
    assert_eq!(read(1, 13).unwrap().created_at, 2);
    assert_eq!(code(read(2, 13)), code(read(2, 99)));
    assert_eq!(code(read(1, 12)).1, "invoice_not_found");
}

#[test]
fn missing_rows_are_not_found() {
    assert_eq!(
        code(get(None)),
        (404, "invoice_not_found", "invoice not found".to_string())
    );
    assert_eq!(get(Some(invoice_row())).unwrap().total_cents, 3);
    assert_eq!(
        code(get_customer(None)),
        (404, "customer_not_found", "customer not found".to_string())
    );
    let row = Customer {
        id: Uuid { bits: 1 },
        name: "n".to_string(),
        email: "e".to_string(),
        created_at: 5,
    };
    assert_eq!(get_customer(Some(row)).unwrap().name, "n");
}

#[test]
fn customers_are_checked() {
    let input = |name: &str, email: &str| CustomerInput {
        name: name.to_string(),
        email: email.to_string(),
    };
    let customer = create_customer(input(" Priya Shah\n", "\tpriya@example.com ")).unwrap();
    assert_eq!(customer.name, "Priya Shah");
    assert_eq!(customer.email, "priya@example.com");
    let expected = (
        422,
        "invalid_customer",
        "name and a valid email are required".to_string(),
    );
    assert_eq!(code(create_customer(input("  ", "a@b"))), expected);
    assert_eq!(
        code(create_customer(input(&"x".repeat(201), "a@b"))),
        expected
    );
    assert_eq!(code(create_customer(input("x", "nobody"))), expected);
    let padded = format!(" {} ", "x".repeat(200));
    assert_eq!(
        create_customer(input(&padded, "@")).unwrap().name,
        "x".repeat(200)
    );
}
