use ledger_rewrite::account::{Account, AccountType};
use ledger_rewrite::amount::{Decimal, IncompleteAmount};
use ledger_rewrite::date::Date;
use ledger_rewrite::model::{Meta, Posting, Transaction};
use ledger_rewrite::render::{render_date, render_decimal, render_transaction, render_units};

fn posting(account: Account, units: IncompleteAmount) -> Posting {
    Posting { account, units, cost: None, price: None, flag: None, meta: Meta::new() }
}

#[test]
fn account_renders_with_single_colons() {
    let a = Account::new(
        AccountType::Income,
        vec!["Acme".to_string(), "Income-Jess".to_string()],
    );
    assert_eq!(a.render(), "Income:Acme:Income-Jess".to_string());
}

#[test]
fn account_renders_bare_root() {
    let a = Account::new(AccountType::Equity, vec![]);
    assert_eq!(a.render(), "Equity".to_string());
}

#[test]
fn date_renders_zero_padded() {
    assert_eq!(render_date(&Date::new(2021, 1, 15)), "2021-01-15".to_string());
    assert_eq!(render_date(&Date::new(987, 12, 3)), "0987-12-03".to_string());
}

#[test]
fn decimal_renders_with_fraction() {
    assert_eq!(render_decimal(&Decimal::new(-5000, 2)), "-50.00".to_string());
    assert_eq!(render_decimal(&Decimal::new(100000, 2)), "1000.00".to_string());
    assert_eq!(render_decimal(&Decimal::new(5, 2)), "0.05".to_string());
    assert_eq!(render_decimal(&Decimal::new(42, 0)), "42".to_string());
    assert_eq!(render_decimal(&Decimal::new(-1667, 2)), "-16.67".to_string());
}

#[test]
fn units_render_quantity_and_currency() {
    let a = IncompleteAmount { num: Some(Decimal::new(-50000, 2)), currency: Some("USD".to_string()) };
    assert_eq!(render_units(&a), "-500.00 USD".to_string());
    let only_currency = IncompleteAmount { num: None, currency: Some("USD".to_string()) };
    assert_eq!(render_units(&only_currency), "USD".to_string());
    let only_num = IncompleteAmount { num: Some(Decimal::new(1, 1)), currency: None };
    assert_eq!(render_units(&only_num), "0.1".to_string());
    let empty = IncompleteAmount { num: None, currency: None };
    assert_eq!(render_units(&empty), "".to_string());
}

#[test]
fn transaction_renders_header_postings_and_blank_line() {
    let t = Transaction {
        date: Date::new(2021, 1, 15),
        flag: None,
        payee: Some("Acme".to_string()),
        narration: "Paycheck".to_string(),
        tags: vec![],
        meta: Meta::new(),
        postings: vec![
            posting(
                Account::new(AccountType::Income, vec!["Acme".to_string(), "Income-Jess".to_string()]),
                IncompleteAmount { num: Some(Decimal::new(100000, 2)), currency: Some("USD".to_string()) },
            ),
        ],
    };
    let lines = render_transaction(&t);
    assert_eq!(
        lines,
        vec![
            "2021-01-15 * \"Acme\" \"Paycheck\"".to_string(),
            "    Income:Acme:Income-Jess 1000.00 USD".to_string(),
            "".to_string(),
        ]
    );
}

#[test]
fn transaction_renders_own_flag_without_payee() {
    let t = Transaction {
        date: Date::new(2020, 6, 1),
        flag: Some('!'),
        payee: None,
        narration: "Pending".to_string(),
        tags: vec![],
        meta: Meta::new(),
        postings: vec![],
    };
    let lines = render_transaction(&t);
    assert_eq!(lines, vec!["2020-06-01 ! \"Pending\"".to_string(), "".to_string()]);
}
