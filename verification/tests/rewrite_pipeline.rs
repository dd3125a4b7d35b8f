use ledger_rewrite::account::{Account, AccountType};
use ledger_rewrite::amount::{Decimal, IncompleteAmount};
use ledger_rewrite::date::Date;
use ledger_rewrite::model::{Directive, Ledger, Meta, Posting, Transaction};
use ledger_rewrite::pipeline::process_ledger;
use ledger_rewrite::rewrite::{rewrite, MarkerRule};
use ledger_rewrite::select::Selector;

fn income_posting(segments: Vec<&str>, num: Option<Decimal>, currency: &str) -> Posting {
    Posting {
        account: Account::new(
            AccountType::Income,
            segments.into_iter().map(|s| s.to_string()).collect(),
        ),
        units: IncompleteAmount { num, currency: Some(currency.to_string()) },
        cost: None,
        price: None,
        flag: None,
        meta: Meta::new(),
    }
}

fn paycheck(date: Date, num: Option<Decimal>) -> Transaction {
    Transaction {
        date,
        flag: None,
        payee: None,
        narration: "Paycheck".to_string(),
        tags: vec![],
        meta: Meta::new(),
        postings: vec![income_posting(vec!["Acme", "Income-Jess"], num, "USD")],
    }
}

fn jess_rule() -> MarkerRule {
    MarkerRule::new(
        "Income-Jess".to_string(),
        Account::new(AccountType::Expenses, vec!["Taxes-Jess".to_string()]),
    )
}

fn jess_selector() -> Selector {
    Selector::new(Date::new(2020, 12, 31), vec!["Income-Jess".to_string()])
}

#[test]
fn matched_paycheck_gets_split_posting() {
    let t = paycheck(Date::new(2021, 1, 15), Some(Decimal::new(100000, 2)));
    let selector = jess_selector();
    assert!(selector.matches(&Directive::Transaction(t)));

    let mut t = paycheck(Date::new(2021, 1, 15), Some(Decimal::new(100000, 2)));
    rewrite(&mut t, &vec![jess_rule()]);
    assert_eq!(t.postings.len(), 2);
    let added = &t.postings[1];
    assert_eq!(
        added.account,
        Account::new(AccountType::Expenses, vec!["Taxes-Jess".to_string()])
    );
    assert_eq!(added.units.num, Some(Decimal::new(-50000, 2)));
    assert_eq!(added.units.currency, Some("USD".to_string()));
    assert!(added.cost.is_none());
    assert!(added.price.is_none());
    assert!(added.flag.is_none());
    assert_eq!(added.meta.entries.len(), 0);
}

#[test]
fn earlier_transaction_does_not_match() {
    let t = paycheck(Date::new(2020, 6, 1), Some(Decimal::new(100000, 2)));
    let selector = jess_selector();
    let d = Directive::Transaction(t);
    assert!(!selector.matches(&d));

    let ledger = Ledger { directives: vec![d] };
    let lines = process_ledger(ledger, Date::new(2020, 12, 31), &vec![jess_rule()]);
    assert!(lines.is_empty());
}

#[test]
fn absent_amount_propagates_through_rewrite() {
    let mut t = paycheck(Date::new(2021, 1, 15), None);
    rewrite(&mut t, &vec![jess_rule()]);
    assert_eq!(t.postings.len(), 2);
    assert_eq!(t.postings[1].units.num, None);
    assert_eq!(t.postings[1].units.currency, Some("USD".to_string()));
}

#[test]
fn rewrite_only_appends() {
    let mut t = paycheck(Date::new(2021, 1, 15), Some(Decimal::new(100000, 2)));
    t.postings.push(income_posting(vec!["Other"], Some(Decimal::new(5, 0)), "EUR"));
    let before: Vec<Account> = t.postings.iter().map(|p| p.account.clone()).collect();
    rewrite(&mut t, &vec![jess_rule()]);
    assert!(t.postings.len() >= before.len());
    for (i, a) in before.iter().enumerate() {
        assert_eq!(&t.postings[i].account, a);
    }
    // The unmarked EUR posting derives nothing.
    assert_eq!(t.postings.len(), 3);
}

#[test]
fn non_transaction_directives_never_match() {
    let selector = jess_selector();
    assert!(!selector.matches(&Directive::Other));
    let wide_open = Selector::new(Date::new(1, 1, 1), vec!["Income-Jess".to_string()]);
    assert!(!wide_open.matches(&Directive::Other));
}

#[test]
fn matching_is_monotonic_in_the_reference_date() {
    let d = Directive::Transaction(paycheck(Date::new(2021, 1, 15), Some(Decimal::new(100000, 2))));
    let markers = vec!["Income-Jess".to_string()];
    let later = Selector::new(Date::new(2020, 12, 31), markers.clone());
    let earlier = Selector::new(Date::new(2019, 12, 31), markers);
    assert!(later.matches(&d));
    assert!(earlier.matches(&d));
}

#[test]
fn expense_account_with_marker_does_not_match() {
    let mut t = paycheck(Date::new(2021, 1, 15), Some(Decimal::new(100000, 2)));
    t.postings[0].account = Account::new(
        AccountType::Expenses,
        vec!["Acme".to_string(), "Income-Jess".to_string()],
    );
    assert!(!jess_selector().matches(&Directive::Transaction(t)));
}

#[test]
fn pipeline_renders_matched_rewritten_transactions() {
    let matched = paycheck(Date::new(2021, 1, 15), Some(Decimal::new(100000, 2)));
    let unmatched = paycheck(Date::new(2020, 6, 1), Some(Decimal::new(100000, 2)));
    let ledger = Ledger {
        directives: vec![
            Directive::Other,
            Directive::Transaction(unmatched),
            Directive::Transaction(matched),
        ],
    };
    let lines = process_ledger(ledger, Date::new(2020, 12, 31), &vec![jess_rule()]);
    assert_eq!(
        lines,
        vec![
            "2021-01-15 * \"Paycheck\"".to_string(),
            "    Income:Acme:Income-Jess 1000.00 USD".to_string(),
            "    Expenses:Taxes-Jess -500.00 USD".to_string(),
            "".to_string(),
        ]
    );
}

#[test]
fn two_markers_append_in_rule_order() {
    let mut t = Transaction {
        date: Date::new(2021, 2, 1),
        flag: None,
        payee: None,
        narration: "Joint paycheck".to_string(),
        tags: vec![],
        meta: Meta::new(),
        postings: vec![
            income_posting(vec!["Acme", "Income-Jess"], Some(Decimal::new(100000, 2)), "USD"),
            income_posting(vec!["Globex", "Income-Stan"], Some(Decimal::new(40000, 2)), "USD"),
        ],
    };
    let rules = vec![
        jess_rule(),
        MarkerRule::new(
            "Income-Stan".to_string(),
            Account::new(AccountType::Expenses, vec!["Taxes-Stan".to_string()]),
        ),
    ];
    rewrite(&mut t, &rules);
    assert_eq!(t.postings.len(), 4);
    assert_eq!(t.postings[2].account.render(), "Expenses:Taxes-Jess");
    assert_eq!(t.postings[2].units.num, Some(Decimal::new(-50000, 2)));
    assert_eq!(t.postings[3].account.render(), "Expenses:Taxes-Stan");
    assert_eq!(t.postings[3].units.num, Some(Decimal::new(-20000, 2)));
}

#[test]
fn empty_marker_set_is_a_noop() {
    let mut t = paycheck(Date::new(2021, 1, 15), Some(Decimal::new(100000, 2)));
    rewrite(&mut t, &vec![]);
    assert_eq!(t.postings.len(), 1);
}

#[test]
fn marker_with_no_matching_postings_is_a_noop() {
    let mut t = paycheck(Date::new(2021, 1, 15), Some(Decimal::new(100000, 2)));
    let rule = MarkerRule::new(
        "Income-Stan".to_string(),
        Account::new(AccountType::Expenses, vec!["Taxes-Stan".to_string()]),
    );
    rewrite(&mut t, &vec![rule]);
    assert_eq!(t.postings.len(), 1);
}

#[test]
fn account_equality_is_structural() {
    let a = Account::new(AccountType::Income, vec!["Acme".to_string(), "Income-Jess".to_string()]);
    let b = Account::new(AccountType::Income, vec!["Acme".to_string(), "Income-Jess".to_string()]);
    let c = Account::new(AccountType::Income, vec!["Acme".to_string()]);
    let d = Account::new(AccountType::Expenses, vec!["Acme".to_string(), "Income-Jess".to_string()]);
    assert_eq!(a, b);
    assert_ne!(a, c);
    assert_ne!(a, d);
}
