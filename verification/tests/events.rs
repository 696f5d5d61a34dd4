use trusttrove::events::{
    both_confirmed, delivery_confirmed, invoice_created, invoice_defaulted, invoice_funded,
    invoice_listed, invoice_repaid, invoice_shipped, EventValue,
};

fn sym(s: &str) -> EventValue {
    EventValue::Symbol(s.to_string())
}

fn addr(s: &str) -> EventValue {
    EventValue::Address(s.to_string())
}

const ID: [u8; 32] = [7u8; 32];

#[test]
fn invoice_created_event() {
    let e = invoice_created(
        &ID,
        &"GISSUER".to_string(),
        &"GBUYER".to_string(),
        10_000_000_000,
        &"CUSDC".to_string(),
    );
    assert_eq!(
        e.topics,
        vec![
            sym("invoice_created"),
            EventValue::Bytes32(ID),
            addr("GISSUER"),
            addr("GBUYER"),
            addr("CUSDC"),
        ]
    );
    assert_eq!(e.data, EventValue::U128(10_000_000_000));
}

#[test]
fn invoice_listed_event() {
    let e = invoice_listed(&ID, 200);
    assert_eq!(e.topics, vec![sym("invoice_listed"), EventValue::Bytes32(ID)]);
    assert_eq!(e.data, EventValue::U32(200));
}

#[test]
fn invoice_funded_event() {
    let e = invoice_funded(&ID, 9_800_000_000);
    assert_eq!(e.topics, vec![sym("invoice_funded"), EventValue::Bytes32(ID)]);
    assert_eq!(e.data, EventValue::U128(9_800_000_000));
}

#[test]
fn invoice_shipped_event() {
    let e = invoice_shipped(&ID);
    assert_eq!(e.topics, vec![sym("invoice_shipped"), EventValue::Bytes32(ID)]);
    assert_eq!(e.data, EventValue::Void);
}

#[test]
fn delivery_confirmed_event() {
    let e = delivery_confirmed(&ID, &"GBUYER".to_string());
    assert_eq!(
        e.topics,
        vec![sym("delivery_confirmed"), EventValue::Bytes32(ID), addr("GBUYER")]
    );
    assert_eq!(e.data, EventValue::Void);
}

#[test]
fn both_confirmed_event() {
    let e = both_confirmed(&ID);
    assert_eq!(e.topics, vec![sym("both_confirmed"), EventValue::Bytes32(ID)]);
    assert_eq!(e.data, EventValue::Void);
}

#[test]
fn invoice_repaid_event() {
    let e = invoice_repaid(&ID, 10_000_000_000);
    assert_eq!(e.topics, vec![sym("invoice_repaid"), EventValue::Bytes32(ID)]);
    assert_eq!(e.data, EventValue::U128(10_000_000_000));
}

#[test]
fn invoice_defaulted_event() {
    let e = invoice_defaulted(&ID);
    assert_eq!(e.topics, vec![sym("invoice_defaulted"), EventValue::Bytes32(ID)]);
    assert_eq!(e.data, EventValue::Void);
}
