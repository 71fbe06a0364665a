//! State and decisions of the transactions page: the list it shows and the
//! form that adds a transaction. Drawing the page is left to the caller.
use vstd::prelude::*;
use crate::amount::{amount_cents, parse_amount};
use crate::date::{Date, utc_datetime_of, utc_from_timestamp};
use crate::models::{Account, Category, MoneyTransaction, NewMoneyTransaction, NewTransactionView};
use crate::store::{Store, StoreModel};

verus! {

/// Direction chosen in the form.
#[derive(Clone, Copy, Debug, PartialEq, Eq, Structural)]
pub enum TransactionKind {
    Expense,
    Income,
}

/// Events of the transactions page.
#[derive(Debug)]
pub enum TransactionMessage {
    UpdatePage,
    AddTransaction,
    FormCategoryChanged(usize),
    FormBankAccountChanged(usize),
    FormTransactionTypeChanged(TransactionKind),
    FormNoteChanged(String),
    FormAmountChanged(String),
    FormDateChanged(i64),
    CandellAddTransaction,
    SubmitTransaction,
}

/// The transactions page: what it lists and what the form holds.
pub struct Transactions {
    pub currency_symbol: String,
    pub add_transaction_view: bool,
    pub categories: Vec<Category>,
    pub accounts: Vec<Account>,
    pub form_transaction_type: TransactionKind,
    pub form_selectected_category: Option<usize>,
    pub transactions: Vec<MoneyTransaction>,
    pub form_selected_bank_account: Option<usize>,
    pub form_note: String,
    pub form_amount: String,
    /// Seconds since 1970-01-01 00:00:00 UTC.
    pub form_date: i64,
    /// Amount of the form, in cents.
    pub new_transaction_amount: u64,
}

/// Date shown above the first transaction when it lies on another day.
pub open spec fn epoch_day() -> Date {
    Date { year: 1970, month: 1, day: 1 }
}

/// Whether the `i`-th transaction of `txs` opens a new day in the list: its
/// day differs from the one before it, or from 1970-01-01 for the first.
pub open spec fn opens_day(txs: Seq<MoneyTransaction>, i: int) -> bool {
    if i == 0 {
        txs[0].transaction_date.date != epoch_day()
    } else {
        txs[i].transaction_date.date != txs[i - 1].transaction_date.date
    }
}

impl Transactions {
    /// The page lists exactly what the store holds.
    pub open spec fn shows(&self, m: StoreModel) -> bool {
        &&& self.transactions.len() == m.transactions.len()
        &&& forall|i: int|
            0 <= i < m.transactions.len() ==> (#[trigger] self.transactions@[i])@ == m.transactions[i]
        &&& self.categories.len() == m.categories.len()
        &&& forall|i: int|
            0 <= i < m.categories.len() ==> (#[trigger] self.categories@[i])@ == m.categories[i]
        &&& self.accounts.len() == m.accounts.len()
        &&& forall|i: int|
            0 <= i < m.accounts.len() ==> (#[trigger] self.accounts@[i])@ == m.accounts[i]
    }

    /// The transaction that the form describes, where both selections name
    /// a listed row and the date is a representable instant.
    pub open spec fn submission(&self) -> Option<NewTransactionView> {
        let a = self.form_selected_bank_account;
        let c = self.form_selectected_category;
        if a is Some && a->0 < self.accounts.len() && c is Some && c->0 < self.categories.len()
            && utc_datetime_of(self.form_date) is Some {
            Some(
                NewTransactionView {
                    bank_account: self.accounts@[a->0 as int].id,
                    transaction_category: self.categories@[c->0 as int].id,
                    description: self.form_note@,
                    amount: self.new_transaction_amount,
                    transaction_date: utc_datetime_of(self.form_date)->0,
                    is_expense: self.form_transaction_type == TransactionKind::Expense,
                },
            )
        } else {
            None
        }
    }

    /// The page as first shown: the store's rows, the given currency symbol
    /// or "USD", the list rather than the form, and an empty expense form
    /// dated `now` with the first category and account selected.
    pub fn new(store: &mut Store, currency_symbol: Option<String>, now: i64) -> (r: Transactions)
        requires
            old(store).wf(),
        ensures
            final(store).wf(),
            final(store)@ == old(store)@,
            r.shows(old(store)@),
            r.currency_symbol@ == match currency_symbol {
                Some(s) => s@,
                None => "USD"@,
            },
            !r.add_transaction_view,
            r.form_transaction_type == TransactionKind::Expense,
            r.form_selectected_category == Some(0usize),
            r.form_selected_bank_account == Some(0usize),
            r.form_note@.len() == 0,
            r.form_amount@.len() == 0,
            r.form_date == now,
            r.new_transaction_amount == 0,
    {
        let transactions = store.get_money_transactions().unwrap();
        let categories = store.get_categories().unwrap();
        let accounts = store.get_accounts().unwrap();
        let currency_symbol = match currency_symbol {
            Some(s) => s,
            None => "USD".to_string(),
        };
        Transactions {
            currency_symbol,
            add_transaction_view: false,
            categories,
            accounts,
            form_transaction_type: TransactionKind::Expense,
            form_selectected_category: Some(0),
            transactions,
            form_selected_bank_account: Some(0),
            form_note: String::new(),
            form_amount: String::new(),
            form_date: now,
            new_transaction_amount: 0,
        }
    }

    /// Handles one event. Returns whether the page should be brought up to
    /// date with the store afterwards, which it asks after a submission.
    pub fn update(&mut self, store: &mut Store, message: TransactionMessage) -> (refresh: bool)
        requires
            old(store).wf(),
        ensures
            final(store).wf(),
            refresh == (message is SubmitTransaction),
            match message {
                TransactionMessage::UpdatePage => {
                    &&& final(store)@ == old(store)@
                    &&& final(self).shows(old(store)@)
                    &&& *final(self) == Transactions {
                        transactions: final(self).transactions,
                        categories: final(self).categories,
                        accounts: final(self).accounts,
                        ..*old(self)
                    }
                },
                TransactionMessage::AddTransaction => {
                    &&& final(store)@ == old(store)@
                    &&& *final(self) == Transactions { add_transaction_view: true, ..*old(self) }
                },
                TransactionMessage::FormCategoryChanged(i) => {
                    &&& final(store)@ == old(store)@
                    &&& *final(self) == Transactions {
                        form_selectected_category: Some(i),
                        ..*old(self)
                    }
                },
                TransactionMessage::FormBankAccountChanged(i) => {
                    &&& final(store)@ == old(store)@
                    &&& *final(self) == Transactions {
                        form_selected_bank_account: Some(i),
                        ..*old(self)
                    }
                },
                TransactionMessage::FormTransactionTypeChanged(k) => {
                    &&& final(store)@ == old(store)@
                    &&& *final(self) == Transactions { form_transaction_type: k, ..*old(self) }
                },
                TransactionMessage::FormNoteChanged(note) => {
                    &&& final(store)@ == old(store)@
                    &&& *final(self) == Transactions { form_note: note, ..*old(self) }
                },
                TransactionMessage::FormAmountChanged(text) => {
                    &&& final(store)@ == old(store)@
                    &&& *final(self) == match amount_cents(text@) {
                        Some(v) => Transactions {
                            new_transaction_amount: v,
                            form_amount: text,
                            ..*old(self)
                        },
                        None => *old(self),
                    }
                },
                TransactionMessage::FormDateChanged(d) => {
                    &&& final(store)@ == old(store)@
                    &&& *final(self) == Transactions { form_date: d, ..*old(self) }
                },
                TransactionMessage::CandellAddTransaction => {
                    &&& final(store)@ == old(store)@
                    &&& *final(self) == Transactions { add_transaction_view: false, ..*old(self) }
                },
                TransactionMessage::SubmitTransaction => {
                    &&& *final(self) == Transactions { add_transaction_view: false, ..*old(self) }
                    &&& final(store)@ == match old(self).submission() {
                        Some(n) => if old(store)@.accepts_transaction(n) {
                            old(store)@.with_transaction(n)
                        } else {
                            old(store)@
                        },
                        None => old(store)@,
                    }
                },
            },
    {
        match message {
            TransactionMessage::UpdatePage => {
                self.transactions = store.get_money_transactions().unwrap();
                self.categories = store.get_categories().unwrap();
                self.accounts = store.get_accounts().unwrap();
                false
            },
            TransactionMessage::AddTransaction => {
                self.add_transaction_view = true;
                false
            },
            TransactionMessage::FormCategoryChanged(selected) => {
                self.form_selectected_category = Some(selected);
                false
            },
            TransactionMessage::FormBankAccountChanged(selected) => {
                self.form_selected_bank_account = Some(selected);
                false
            },
            TransactionMessage::FormTransactionTypeChanged(kind) => {
                self.form_transaction_type = kind;
                false
            },
            TransactionMessage::FormNoteChanged(note) => {
                self.form_note = note;
                false
            },
            TransactionMessage::FormAmountChanged(new_amount) => {
                match parse_amount(new_amount.as_str()) {
                    Some(parsed) => {
                        self.new_transaction_amount = parsed;
                        self.form_amount = new_amount;
                    },
                    None => {},
                }
                false
            },
            TransactionMessage::SubmitTransaction => {
                match self.form_submission() {
                    Some(new_transaction) => {
                        let _ = store.create_money_transaction(&new_transaction);
                    },
                    None => {},
                }
                self.add_transaction_view = false;
                true
            },
            TransactionMessage::CandellAddTransaction => {
                self.add_transaction_view = false;
                false
            },
            TransactionMessage::FormDateChanged(date) => {
                self.form_date = date;
                false
            },
        }
    }

    /// The transaction that the form describes, as `submission` says.
    fn form_submission(&self) -> (r: Option<NewMoneyTransaction>)
        ensures
            match r {
                Some(n) => self.submission() == Some(n@) && n.transaction_date.wf(),
                None => self.submission() is None,
            },
    {
        let a = match self.form_selected_bank_account {
            Some(a) => a,
            None => return None,
        };
        let c = match self.form_selectected_category {
            Some(c) => c,
            None => return None,
        };
        if a >= self.accounts.len() || c >= self.categories.len() {
            return None;
        }
        let when = match utc_from_timestamp(self.form_date) {
            Some(t) => t,
            None => return None,
        };
        Some(
            NewMoneyTransaction {
                bank_account: self.accounts[a].id,
                transaction_category: self.categories[c].id,
                description: self.form_note.clone(),
                amount: self.new_transaction_amount,
                transaction_date: when,
                is_expense: self.form_transaction_type == TransactionKind::Expense,
            },
        )
    }

    /// The name of the listed category with this id, or `not_found` where
    /// none is listed; the first such category where several are.
    pub fn category_label(&self, category_id: i32, not_found: &str) -> (r: String)
        ensures
            (exists|i: int|
                0 <= i < self.categories.len() && #[trigger] self.categories@[i].id == category_id
                && r@ == self.categories@[i].name@ && forall|j: int|
                0 <= j < i ==> self.categories@[j].id != category_id) || ((forall|i: int|
                0 <= i < self.categories.len() ==> #[trigger] self.categories@[i].id != category_id)
                && r@ == not_found@),
    {
        let mut i: usize = 0;
        while i < self.categories.len()
            invariant
                i <= self.categories.len(),
                forall|j: int| 0 <= j < i ==> self.categories@[j].id != category_id,
            decreases self.categories.len() - i,
        {
            if self.categories[i].id == category_id {
                return self.categories[i].name.clone();
            }
            i = i + 1;
        }
        not_found.to_string()
    }

    /// For each listed transaction, whether a day heading goes above it.
    pub fn day_headings(&self) -> (r: Vec<bool>)
        ensures
            r.len() == self.transactions.len(),
            forall|i: int| 0 <= i < r.len() ==> r@[i] == opens_day(self.transactions@, i),
    {
        let mut out: Vec<bool> = Vec::new();
        let mut last = Date { year: 1970, month: 1, day: 1 };
        let mut i: usize = 0;
        while i < self.transactions.len()
            invariant
                i <= self.transactions.len(),
                out.len() == i,
                forall|k: int| 0 <= k < i ==> out@[k] == opens_day(self.transactions@, k),
                i == 0 ==> last == epoch_day(),
                i > 0 ==> last == self.transactions@[i - 1].transaction_date.date,
            decreases self.transactions.len() - i,
        {
            let day = self.transactions[i].transaction_date.date;
            out.push(day != last);
            last = day;
            i = i + 1;
        }
        out
    }
}

} // verus!
