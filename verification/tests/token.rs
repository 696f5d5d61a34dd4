use trusttrove::token::MockToken;

fn acct(s: &str) -> String {
    s.to_string()
}

#[test]
fn balance_is_zero_when_nothing_stored() {
    let token = MockToken::new();
    assert_eq!(token.balance(&acct("GPOOL")), 0);
}

#[test]
fn seeded_balance_is_read_back() {
    let mut token = MockToken::new();
    token.set_balance(acct("GPOOL"), 10_000_000_000_000i128);
    assert_eq!(token.balance(&acct("GPOOL")), 10_000_000_000_000);
    assert_eq!(token.balance(&acct("GOTHER")), 0);
    token.set_balance(acct("GPOOL"), 5);
    assert_eq!(token.balance(&acct("GPOOL")), 5);
}

#[test]
fn transfer_moves_amount() {
    let mut token = MockToken::new();
    token.set_balance(acct("GLP"), 100_000_000_000_000i128);
    token.transfer(&acct("GLP"), &acct("CPOOL"), 1_000_000_000);
    assert_eq!(token.balance(&acct("GLP")), 99_999_000_000_000);
    assert_eq!(token.balance(&acct("CPOOL")), 1_000_000_000);
}

#[test]
fn transfer_conserves_combined_balance() {
    let mut token = MockToken::new();
    token.set_balance(acct("GA"), 700);
    token.set_balance(acct("GB"), 300);
    token.set_balance(acct("GC"), 42);
    token.transfer(&acct("GA"), &acct("GB"), 250);
    assert_eq!(token.balance(&acct("GA")) + token.balance(&acct("GB")), 1000);
    assert_eq!(token.balance(&acct("GA")), 450);
    assert_eq!(token.balance(&acct("GB")), 550);
    assert_eq!(token.balance(&acct("GC")), 42);
}

#[test]
fn transfer_allows_negative_sender_balance() {
    let mut token = MockToken::new();
    token.transfer(&acct("GA"), &acct("GB"), 10);
    assert_eq!(token.balance(&acct("GA")), -10);
    assert_eq!(token.balance(&acct("GB")), 10);
}

#[test]
fn self_transfer_adds_amount() {
    let mut token = MockToken::new();
    token.set_balance(acct("GA"), 100);
    token.transfer(&acct("GA"), &acct("GA"), 30);
    assert_eq!(token.balance(&acct("GA")), 130);
}

#[test]
fn transfer_round_trip_restores_balances() {
    let mut token = MockToken::new();
    token.set_balance(acct("GA"), 100);
    token.transfer(&acct("GA"), &acct("GB"), 60);
    token.transfer(&acct("GB"), &acct("GA"), 60);
    assert_eq!(token.balance(&acct("GA")), 100);
    assert_eq!(token.balance(&acct("GB")), 0);
}

#[test]
fn negative_amount_moves_funds_backwards() {
    let mut token = MockToken::new();
    token.set_balance(acct("GA"), 5);
    token.transfer(&acct("GA"), &acct("GB"), -5);
    assert_eq!(token.balance(&acct("GA")), 10);
    assert_eq!(token.balance(&acct("GB")), -5);
}
