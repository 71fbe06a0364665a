use money_tracker::amount::parse_amount;
use money_tracker::date::Date;
use money_tracker::models::{NewAccount, NewCategory};
use money_tracker::page::{TransactionKind, TransactionMessage, Transactions};
use money_tracker::store::Store;

fn store_with_rows() -> Store {
    let mut s = Store::new();
    s.create_account(&NewAccount {
        name: "Checking".to_string(),
        account_type: "checking".to_string(),
        initial_balance: 10000,
    })
    .unwrap();
    s.create_category(&NewCategory { name: "Groceries".to_string(), is_income: false }).unwrap();
    s.create_category(&NewCategory { name: "Salary".to_string(), is_income: true }).unwrap();
    s
}

// 2024-01-15 12:00:00 UTC
const JAN_15_NOON: i64 = 1705320000;

#[test]
fn amounts_are_read_in_cents() {
    assert_eq!(parse_amount("25.50"), Some(2550));
    assert_eq!(parse_amount("25.5"), Some(2550));
    assert_eq!(parse_amount("25"), Some(2500));
    assert_eq!(parse_amount("5."), Some(500));
    assert_eq!(parse_amount(".05"), Some(5));
    assert_eq!(parse_amount("0"), Some(0));
    assert_eq!(parse_amount("184467440737095516.15"), Some(u64::MAX));
    assert_eq!(parse_amount("184467440737095516.16"), None);
    assert_eq!(parse_amount("99999999999999999999999"), None);
    assert_eq!(parse_amount(""), None);
    assert_eq!(parse_amount("."), None);
    assert_eq!(parse_amount("1.234"), None);
    assert_eq!(parse_amount("1.2.3"), None);
    assert_eq!(parse_amount("-5"), None);
    assert_eq!(parse_amount("12a"), None);
}

#[test]
fn page_starts_with_store_rows_and_empty_form() {
    let mut s = store_with_rows();
    let page = Transactions::new(&mut s, None, JAN_15_NOON);
    assert_eq!(page.currency_symbol, "USD");
    assert_eq!(page.accounts.len(), 1);
    assert_eq!(page.categories.len(), 2);
    assert!(page.transactions.is_empty());
    assert!(!page.add_transaction_view);
    assert_eq!(page.form_transaction_type, TransactionKind::Expense);
    assert_eq!(page.form_date, JAN_15_NOON);
    let eur = Transactions::new(&mut s, Some("EUR".to_string()), 0);
    assert_eq!(eur.currency_symbol, "EUR");
}

#[test]
fn submitting_the_form_stores_a_transaction() {
    let mut s = store_with_rows();
    let mut page = Transactions::new(&mut s, None, 0);
    assert!(!page.update(&mut s, TransactionMessage::AddTransaction));
    assert!(page.add_transaction_view);
    page.update(&mut s, TransactionMessage::FormAmountChanged("25.50".to_string()));
    page.update(&mut s, TransactionMessage::FormAmountChanged("oops".to_string()));
    assert_eq!(page.new_transaction_amount, 2550);
    assert_eq!(page.form_amount, "25.50");
    page.update(&mut s, TransactionMessage::FormNoteChanged("weekly shop".to_string()));
    page.update(&mut s, TransactionMessage::FormCategoryChanged(1));
    page.update(&mut s, TransactionMessage::FormTransactionTypeChanged(TransactionKind::Income));
    page.update(&mut s, TransactionMessage::FormDateChanged(JAN_15_NOON));
    assert!(page.update(&mut s, TransactionMessage::SubmitTransaction));
    assert!(!page.add_transaction_view);
    let stored = s.get_money_transactions().unwrap();
    assert_eq!(stored.len(), 1);
    assert_eq!(stored[0].amount, 2550);
    assert_eq!(stored[0].description, "weekly shop");
    assert_eq!(stored[0].transaction_category, page.categories[1].id);
    assert_eq!(stored[0].bank_account, page.accounts[0].id);
    assert!(!stored[0].is_expense);
    let when = stored[0].transaction_date;
    assert_eq!(when.date, Date::from_ymd_opt(2024, 1, 15).unwrap());
    assert_eq!((when.hour, when.minute, when.second), (12, 0, 0));
    assert!(page.transactions.is_empty());
    page.update(&mut s, TransactionMessage::UpdatePage);
    assert_eq!(page.transactions.len(), 1);
}

#[test]
fn submitting_with_a_stale_selection_stores_nothing() {
    let mut s = store_with_rows();
    let mut page = Transactions::new(&mut s, None, JAN_15_NOON);
    page.update(&mut s, TransactionMessage::FormBankAccountChanged(5));
    assert!(page.update(&mut s, TransactionMessage::SubmitTransaction));
    assert!(s.get_money_transactions().unwrap().is_empty());
    page.update(&mut s, TransactionMessage::FormBankAccountChanged(0));
    page.update(&mut s, TransactionMessage::FormDateChanged(i64::MAX));
    page.update(&mut s, TransactionMessage::SubmitTransaction);
    assert!(s.get_money_transactions().unwrap().is_empty());
    page.update(&mut s, TransactionMessage::AddTransaction);
    page.update(&mut s, TransactionMessage::CandellAddTransaction);
    assert!(!page.add_transaction_view);
}

#[test]
fn list_labels_and_day_headings() {
    let mut s = store_with_rows();
    let mut page = Transactions::new(&mut s, None, JAN_15_NOON);
    page.update(&mut s, TransactionMessage::SubmitTransaction);
    page.update(&mut s, TransactionMessage::FormDateChanged(JAN_15_NOON + 3600));
    page.update(&mut s, TransactionMessage::SubmitTransaction);
    page.update(&mut s, TransactionMessage::FormDateChanged(JAN_15_NOON + 86400));
    page.update(&mut s, TransactionMessage::SubmitTransaction);
    page.update(&mut s, TransactionMessage::FormDateChanged(0));
    page.update(&mut s, TransactionMessage::SubmitTransaction);
    page.update(&mut s, TransactionMessage::UpdatePage);
    assert_eq!(page.day_headings(), vec![true, false, true, true]);
    let groceries = page.categories[0].id;
    assert_eq!(page.category_label(groceries, "not found"), "Groceries");
    assert_eq!(page.category_label(groceries + 40, "not found"), "not found");
}
