use trusttrove::types::{generate_invoice_id, InvoiceStatus};

#[test]
fn invoice_id_holds_big_endian_timestamp() {
    let id = generate_invoice_id(0x0102_0304_0506_0708);
    assert_eq!(&id[0..8], &[1u8, 2, 3, 4, 5, 6, 7, 8]);
    assert!(id[8..].iter().all(|b| *b == 0));
}

#[test]
fn invoice_id_matches_to_be_bytes() {
    for t in [0u64, 1, 86_400, 1_725_029_869, u64::MAX] {
        let id = generate_invoice_id(t);
        let mut expected = [0u8; 32];
        expected[0..8].copy_from_slice(&t.to_be_bytes());
        assert_eq!(id, expected);
    }
}

#[test]
fn status_equality() {
    assert_eq!(InvoiceStatus::Listed, InvoiceStatus::Listed);
    assert_ne!(InvoiceStatus::Funded, InvoiceStatus::Active);
}
