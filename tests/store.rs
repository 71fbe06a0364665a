use money_tracker::date::{Date, DateTime};
use money_tracker::errors::DataStoreError;
use money_tracker::models::{NewAccount, NewCategory, NewMoneyTransaction};
use money_tracker::store::Store;

fn day(y: i32, m: u32, d: u32) -> Date {
    Date::from_ymd_opt(y, m, d).unwrap()
}

fn at(y: i32, m: u32, d: u32, h: u32, mi: u32, s: u32) -> DateTime {
    day(y, m, d).and_hms_opt(h, mi, s).unwrap()
}

fn account(name: &str, kind: &str, balance: i64) -> NewAccount {
    NewAccount { name: name.to_string(), account_type: kind.to_string(), initial_balance: balance }
}

fn category(name: &str, is_income: bool) -> NewCategory {
    NewCategory { name: name.to_string(), is_income }
}

fn tx(acc: i32, cat: i32, amount: u64, when: DateTime) -> NewMoneyTransaction {
    NewMoneyTransaction {
        bank_account: acc,
        transaction_category: cat,
        description: String::new(),
        amount,
        transaction_date: when,
        is_expense: true,
    }
}

/// A store with one account and two categories; returns their ids.
fn seeded() -> (Store, i32, i32, i32) {
    let mut s = Store::new();
    s.create_account(&account("Checking", "checking", 10000)).unwrap();
    s.create_category(&category("Groceries", false)).unwrap();
    s.create_category(&category("Rent", false)).unwrap();
    let a = s.get_accounts().unwrap()[0].id;
    let cats = s.get_categories().unwrap();
    (s, a, cats[0].id, cats[1].id)
}

#[test]
fn checking_groceries_scenario() {
    let mut s = Store::new();
    s.create_account(&account("Checking", "checking", 10000)).unwrap();
    let accounts = s.get_accounts().unwrap();
    assert_eq!(accounts.len(), 1);
    assert_eq!(accounts[0].name, "Checking");
    assert_eq!(accounts[0].account_type, "checking");
    assert_eq!(accounts[0].initial_balance, 10000);
    let acc = accounts[0].id;
    s.create_category(&category("Groceries", false)).unwrap();
    let cat = s.get_categories().unwrap()[0].id;
    s.create_money_transaction(&tx(acc, cat, 2550, at(2024, 1, 15, 12, 0, 0))).unwrap();
    let jan = s.calculate_expense_by_category(cat, &day(2024, 1, 1), &day(2024, 1, 31)).unwrap();
    assert_eq!(jan, 2550);
    let feb = s.calculate_expense_by_category(cat, &day(2024, 2, 1), &day(2024, 2, 28)).unwrap();
    assert_eq!(feb, 0);
}

#[test]
fn inserted_rows_read_back_with_fresh_ids() {
    let mut s = Store::new();
    s.create_account(&account("Checking", "checking", -250)).unwrap();
    s.create_account(&account("Savings", "savings", 500000)).unwrap();
    s.create_category(&category("Salary", true)).unwrap();
    let accounts = s.get_accounts().unwrap();
    assert_eq!(accounts.len(), 2);
    assert_eq!(accounts[1].name, "Savings");
    assert_eq!(accounts[1].account_type, "savings");
    assert_eq!(accounts[1].initial_balance, 500000);
    assert_eq!(accounts[0].initial_balance, -250);
    assert_ne!(accounts[0].id, accounts[1].id);
    assert_eq!(accounts[0].as_ref(), "Checking");
    let cats = s.get_categories().unwrap();
    assert_eq!(cats.len(), 1);
    assert_eq!(cats[0].name, "Salary");
    assert!(cats[0].is_income);
    let when = at(2024, 3, 5, 8, 30, 15);
    let new = NewMoneyTransaction {
        bank_account: accounts[1].id,
        transaction_category: cats[0].id,
        description: "March pay".to_string(),
        amount: 310099,
        transaction_date: when,
        is_expense: false,
    };
    s.create_money_transaction(&new).unwrap();
    let txs = s.get_money_transactions().unwrap();
    assert_eq!(txs.len(), 1);
    assert_eq!(txs[0].bank_account, accounts[1].id);
    assert_eq!(txs[0].transaction_category, cats[0].id);
    assert_eq!(txs[0].description, "March pay");
    assert_eq!(txs[0].amount, 310099);
    assert_eq!(txs[0].transaction_date, when);
    assert!(!txs[0].is_expense);
}

#[test]
fn ids_start_at_one_and_rise() {
    let mut s = Store::new();
    for name in ["a", "b", "c"] {
        s.create_category(&category(name, false)).unwrap();
    }
    let ids: Vec<i32> = s.get_categories().unwrap().iter().map(|c| c.id).collect();
    assert_eq!(ids, vec![1, 2, 3]);
}

#[test]
fn dangling_account_is_rejected_without_a_row() {
    let (mut s, a, c, _) = seeded();
    let r = s.create_money_transaction(&tx(a + 100, c, 500, at(2024, 1, 2, 0, 0, 0)));
    assert!(matches!(r, Err(DataStoreError::InsertError(_))));
    assert!(s.get_money_transactions().unwrap().is_empty());
}

#[test]
fn dangling_category_is_rejected_without_a_row() {
    let (mut s, a, c, r2) = seeded();
    let r = s.create_money_transaction(&tx(a, c.max(r2) + 1, 500, at(2024, 1, 2, 0, 0, 0)));
    assert!(matches!(r, Err(DataStoreError::InsertError(_))));
    assert!(s.get_money_transactions().unwrap().is_empty());
    let msg = r.unwrap_err().message();
    assert!(!msg.is_empty());
}

#[test]
fn total_is_zero_without_matches() {
    let (mut s, a, c, other) = seeded();
    let empty = s.calculate_expense_by_category(c, &day(2024, 1, 1), &day(2024, 12, 31)).unwrap();
    assert_eq!(empty, 0);
    s.create_money_transaction(&tx(a, other, 900, at(2024, 6, 1, 10, 0, 0))).unwrap();
    s.create_money_transaction(&tx(a, c, 900, at(2023, 6, 1, 10, 0, 0))).unwrap();
    let none = s.calculate_expense_by_category(c, &day(2024, 1, 1), &day(2024, 12, 31)).unwrap();
    assert_eq!(none, 0);
    let unknown = s.calculate_expense_by_category(999, &day(2024, 1, 1), &day(2024, 12, 31)).unwrap();
    assert_eq!(unknown, 0);
}

#[test]
fn range_covers_whole_days_only() {
    let (mut s, a, c, _) = seeded();
    s.create_money_transaction(&tx(a, c, 100, at(2024, 1, 31, 23, 59, 59))).unwrap();
    s.create_money_transaction(&tx(a, c, 7, at(2024, 2, 1, 0, 0, 1))).unwrap();
    s.create_money_transaction(&tx(a, c, 20, at(2024, 1, 1, 0, 0, 0))).unwrap();
    s.create_money_transaction(&tx(a, c, 3000, at(2023, 12, 31, 23, 59, 59))).unwrap();
    let total = s.calculate_expense_by_category(c, &day(2024, 1, 1), &day(2024, 1, 31)).unwrap();
    assert_eq!(total, 120);
    let single = s.calculate_expense_by_category(c, &day(2024, 2, 1), &day(2024, 2, 1)).unwrap();
    assert_eq!(single, 7);
    let reversed = s.calculate_expense_by_category(c, &day(2024, 1, 31), &day(2024, 1, 1)).unwrap();
    assert_eq!(reversed, 0);
}

#[test]
fn total_counts_only_its_category() {
    let (mut s, a, c, other) = seeded();
    s.create_money_transaction(&tx(a, c, 1250, at(2024, 5, 10, 9, 0, 0))).unwrap();
    s.create_money_transaction(&tx(a, other, 99999, at(2024, 5, 10, 9, 0, 0))).unwrap();
    s.create_money_transaction(&tx(a, c, 250, at(2024, 5, 20, 18, 45, 0))).unwrap();
    s.create_money_transaction(&tx(a, other, 500000, at(2024, 5, 15, 12, 0, 0))).unwrap();
    let total = s.calculate_expense_by_category(c, &day(2024, 5, 1), &day(2024, 5, 31)).unwrap();
    assert_eq!(total, 1500);
    let rent = s.calculate_expense_by_category(other, &day(2024, 5, 1), &day(2024, 5, 31)).unwrap();
    assert_eq!(rent, 599999);
}

#[test]
fn total_of_largest_amounts_does_not_wrap() {
    let (mut s, a, c, _) = seeded();
    s.create_money_transaction(&tx(a, c, u64::MAX, at(2024, 5, 10, 9, 0, 0))).unwrap();
    s.create_money_transaction(&tx(a, c, u64::MAX, at(2024, 5, 11, 9, 0, 0))).unwrap();
    let total = s.calculate_expense_by_category(c, &day(2024, 5, 1), &day(2024, 5, 31)).unwrap();
    assert_eq!(total, 2 * (u64::MAX as u128));
}

#[test]
fn repeated_reads_keep_insertion_order() {
    let (mut s, a, c, other) = seeded();
    s.create_account(&account("Savings", "savings", 0)).unwrap();
    s.create_money_transaction(&tx(a, other, 1, at(2024, 2, 1, 0, 0, 0))).unwrap();
    s.create_money_transaction(&tx(a, c, 2, at(2023, 2, 1, 0, 0, 0))).unwrap();
    s.create_money_transaction(&tx(a, c, 3, at(2025, 2, 1, 0, 0, 0))).unwrap();
    let names = |s: &mut Store| -> Vec<String> {
        s.get_accounts().unwrap().into_iter().map(|x| x.name).collect()
    };
    let first = names(&mut s);
    assert_eq!(first, vec!["Checking".to_string(), "Savings".to_string()]);
    assert_eq!(names(&mut s), first);
    let cats1: Vec<i32> = s.get_categories().unwrap().iter().map(|x| x.id).collect();
    let cats2: Vec<i32> = s.get_categories().unwrap().iter().map(|x| x.id).collect();
    assert_eq!(cats1, cats2);
    let amounts1: Vec<u64> = s.get_money_transactions().unwrap().iter().map(|x| x.amount).collect();
    let amounts2: Vec<u64> = s.get_money_transactions().unwrap().iter().map(|x| x.amount).collect();
    assert_eq!(amounts1, vec![1, 2, 3]);
    assert_eq!(amounts1, amounts2);
    let ids: Vec<i32> = s.get_money_transactions().unwrap().iter().map(|x| x.id).collect();
    assert!(ids.windows(2).all(|w| w[0] < w[1]));
}

#[test]
fn default_store_is_empty() {
    let mut s = Store::default();
    assert!(s.get_accounts().unwrap().is_empty());
    assert!(s.get_categories().unwrap().is_empty());
    assert!(s.get_money_transactions().unwrap().is_empty());
}

#[test]
fn restored_rows_keep_ids_and_order() {
    let mut s = Store::new();
    let when = at(2024, 1, 15, 12, 0, 0);
    let acc = money_tracker::models::Account {
        id: 4,
        name: "Checking".to_string(),
        account_type: "checking".to_string(),
        initial_balance: 10000,
    };
    s.restore_account(&acc).unwrap();
    let stale = money_tracker::models::Account { id: 4, ..acc };
    let r = s.restore_account(&stale);
    assert!(matches!(r, Err(DataStoreError::QueryError(_))));
    s.restore_category(&money_tracker::models::Category {
        id: 9,
        name: "Groceries".to_string(),
        is_income: false,
    })
    .unwrap();
    s.restore_money_transaction(&money_tracker::models::MoneyTransaction {
        id: 2,
        bank_account: 4,
        transaction_category: 9,
        description: String::new(),
        amount: 2550,
        transaction_date: when,
        is_expense: true,
    })
    .unwrap();
    s.create_account(&account("Savings", "savings", 0)).unwrap();
    let ids: Vec<i32> = s.get_accounts().unwrap().iter().map(|a| a.id).collect();
    assert_eq!(ids, vec![4, 5]);
    s.create_money_transaction(&tx(5, 9, 100, when)).unwrap();
    let tx_ids: Vec<i32> = s.get_money_transactions().unwrap().iter().map(|t| t.id).collect();
    assert_eq!(tx_ids, vec![2, 3]);
    let total = s.calculate_expense_by_category(9, &day(2024, 1, 15), &day(2024, 1, 15)).unwrap();
    assert_eq!(total, 2650);
}
