//! The stored records and the shapes used to insert them.
//!
//! Money is held in integer minor units (cents): balances are signed,
//! transaction amounts are non-negative magnitudes whose direction is given
//! by `is_expense`.
use vstd::prelude::*;
use crate::date::DateTime;

verus! {

/// A stored bank account.
#[derive(Debug)]
pub struct Account {
    pub id: i32,
    pub name: String,
    pub account_type: String,
    pub initial_balance: i64,
}

/// The fields of an account to be inserted; the store assigns the id.
#[derive(Debug)]
pub struct NewAccount {
    pub name: String,
    pub account_type: String,
    pub initial_balance: i64,
}

/// A stored category of income or spending.
#[derive(Debug)]
pub struct Category {
    pub id: i32,
    pub name: String,
    pub is_income: bool,
}

/// The fields of a category to be inserted.
#[derive(Debug)]
pub struct NewCategory {
    pub name: String,
    pub is_income: bool,
}

/// A stored movement of money on an account, under a category.
#[derive(Debug)]
pub struct MoneyTransaction {
    pub id: i32,
    pub bank_account: i32,
    pub transaction_category: i32,
    pub description: String,
    pub amount: u64,
    pub transaction_date: DateTime,
    pub is_expense: bool,
}

/// The fields of a transaction to be inserted.
#[derive(Debug)]
pub struct NewMoneyTransaction {
    pub bank_account: i32,
    pub transaction_category: i32,
    pub description: String,
    pub amount: u64,
    pub transaction_date: DateTime,
    pub is_expense: bool,
}

/// What an account holds, with text as character sequences.
pub struct AccountView {
    pub id: i32,
    pub name: Seq<char>,
    pub account_type: Seq<char>,
    pub initial_balance: i64,
}

/// What an account to be inserted holds.
pub struct NewAccountView {
    pub name: Seq<char>,
    pub account_type: Seq<char>,
    pub initial_balance: i64,
}

/// What a category holds.
pub struct CategoryView {
    pub id: i32,
    pub name: Seq<char>,
    pub is_income: bool,
}

/// What a category to be inserted holds.
pub struct NewCategoryView {
    pub name: Seq<char>,
    pub is_income: bool,
}

/// What a transaction holds.
pub struct TransactionView {
    pub id: i32,
    pub bank_account: i32,
    pub transaction_category: i32,
    pub description: Seq<char>,
    pub amount: u64,
    pub transaction_date: DateTime,
    pub is_expense: bool,
}

/// What a transaction to be inserted holds.
pub struct NewTransactionView {
    pub bank_account: i32,
    pub transaction_category: i32,
    pub description: Seq<char>,
    pub amount: u64,
    pub transaction_date: DateTime,
    pub is_expense: bool,
}

impl View for Account {
    type V = AccountView;

    open spec fn view(&self) -> AccountView {
        AccountView {
            id: self.id,
            name: self.name@,
            account_type: self.account_type@,
            initial_balance: self.initial_balance,
        }
    }
}

impl View for NewAccount {
    type V = NewAccountView;

    open spec fn view(&self) -> NewAccountView {
        NewAccountView {
            name: self.name@,
            account_type: self.account_type@,
            initial_balance: self.initial_balance,
        }
    }
}

impl View for Category {
    type V = CategoryView;

    open spec fn view(&self) -> CategoryView {
        CategoryView { id: self.id, name: self.name@, is_income: self.is_income }
    }
}

impl View for NewCategory {
    type V = NewCategoryView;

    open spec fn view(&self) -> NewCategoryView {
        NewCategoryView { name: self.name@, is_income: self.is_income }
    }
}

impl View for MoneyTransaction {
    type V = TransactionView;

    open spec fn view(&self) -> TransactionView {
        TransactionView {
            id: self.id,
            bank_account: self.bank_account,
            transaction_category: self.transaction_category,
            description: self.description@,
            amount: self.amount,
            transaction_date: self.transaction_date,
            is_expense: self.is_expense,
        }
    }
}

impl View for NewMoneyTransaction {
    type V = NewTransactionView;

    open spec fn view(&self) -> NewTransactionView {
        NewTransactionView {
            bank_account: self.bank_account,
            transaction_category: self.transaction_category,
            description: self.description@,
            amount: self.amount,
            transaction_date: self.transaction_date,
            is_expense: self.is_expense,
        }
    }
}

impl Account {
    /// A copy of the record.
    pub fn duplicate(&self) -> (r: Account)
        ensures
            r@ == self@,
    {
        Account {
            id: self.id,
            name: self.name.clone(),
            account_type: self.account_type.clone(),
            initial_balance: self.initial_balance,
        }
    }

    /// The name under which the account is shown.
    pub fn as_ref(&self) -> (r: &str)
        ensures
            r@ == self.name@,
    {
        self.name.as_str()
    }
}

impl Category {
    /// A copy of the record.
    pub fn duplicate(&self) -> (r: Category)
        ensures
            r@ == self@,
    {
        Category { id: self.id, name: self.name.clone(), is_income: self.is_income }
    }

    /// The name under which the category is shown.
    pub fn as_ref(&self) -> (r: &str)
        ensures
            r@ == self.name@,
    {
        self.name.as_str()
    }
}

impl MoneyTransaction {
    /// A copy of the record.
    pub fn duplicate(&self) -> (r: MoneyTransaction)
        ensures
            r@ == self@,
    {
        MoneyTransaction {
            id: self.id,
            bank_account: self.bank_account,
            transaction_category: self.transaction_category,
            description: self.description.clone(),
            amount: self.amount,
            transaction_date: self.transaction_date,
            is_expense: self.is_expense,
        }
    }
}

} // verus!
