//! The store: three tables with generated ids, foreign-key checks on
//! transactions, and expense totals over whole-day date ranges.
use vstd::prelude::*;
use crate::date::{Date, DateTime, datetime_le};
use crate::errors::DataStoreError;
use crate::models::{
    Account, AccountView, Category, CategoryView, MoneyTransaction, NewAccount,
    NewAccountView, NewCategory, NewCategoryView, NewMoneyTransaction, NewTransactionView,
    TransactionView,
};

verus! {

/// Largest id that a row can be given.
pub const MAX_ID: i64 = 2147483647;

/// The content of a store: each table in insertion order, and the id that
/// each table hands out next.
pub struct StoreModel {
    pub accounts: Seq<AccountView>,
    pub categories: Seq<CategoryView>,
    pub transactions: Seq<TransactionView>,
    pub next_account_id: int,
    pub next_category_id: int,
    pub next_transaction_id: int,
}

/// Ids that rise strictly along the table, all positive and below `next`.
pub open spec fn ids_ascending_below(ids: Seq<i32>, next: int) -> bool {
    &&& 1 <= next <= MAX_ID + 1
    &&& forall|i: int, j: int| 0 <= i < j < ids.len() ==> ids[i] < ids[j]
    &&& forall|i: int| 0 <= i < ids.len() ==> 1 <= #[trigger] ids[i] < next
}

/// First instant of a range of whole days that opens on `start`.
pub open spec fn range_start(start: Date) -> DateTime {
    DateTime { date: start, hour: 0, minute: 0, second: 0 }
}

/// Last instant of a range of whole days that closes on `end`.
pub open spec fn range_end(end: Date) -> DateTime {
    DateTime { date: end, hour: 23, minute: 59, second: 59 }
}

/// `t` falls between the start of day `start` and the end of day `end`,
/// both ends included.
pub open spec fn in_day_range(t: DateTime, start: Date, end: Date) -> bool {
    datetime_le(range_start(start), t) && datetime_le(t, range_end(end))
}

/// The transaction counts toward the expense total of `category_id` over
/// the days from `start` to `end`.
pub open spec fn counts_toward(
    t: TransactionView,
    category_id: i32,
    start: Date,
    end: Date,
) -> bool {
    t.transaction_category == category_id && in_day_range(t.transaction_date, start, end)
}

/// Sum of the amounts of the transactions of `txs` that count toward the
/// expense total of `category_id` over the days from `start` to `end`.
pub open spec fn expense_total(
    txs: Seq<TransactionView>,
    category_id: i32,
    start: Date,
    end: Date,
) -> nat
    decreases txs.len(),
{
    if txs.len() == 0 {
        0
    } else {
        expense_total(txs.drop_last(), category_id, start, end) + if counts_toward(
            txs.last(),
            category_id,
            start,
            end,
        ) {
            txs.last().amount as nat
        } else {
            0
        }
    }
}

impl StoreModel {
    /// Ids of the account table, in table order.
    pub open spec fn account_ids(&self) -> Seq<i32> {
        self.accounts.map_values(|a: AccountView| a.id)
    }

    /// Ids of the category table, in table order.
    pub open spec fn category_ids(&self) -> Seq<i32> {
        self.categories.map_values(|c: CategoryView| c.id)
    }

    /// Ids of the transaction table, in table order.
    pub open spec fn transaction_ids(&self) -> Seq<i32> {
        self.transactions.map_values(|t: TransactionView| t.id)
    }

    /// Ids rise along each table and stay below the next one handed out, and
    /// every stored date is a real instant.
    pub open spec fn wf(&self) -> bool {
        &&& ids_ascending_below(self.account_ids(), self.next_account_id)
        &&& ids_ascending_below(self.category_ids(), self.next_category_id)
        &&& ids_ascending_below(self.transaction_ids(), self.next_transaction_id)
        &&& forall|i: int|
            0 <= i < self.transactions.len() ==> (#[trigger] self.transactions[i]).transaction_date.wf()
    }

    /// An account with this id is stored.
    pub open spec fn has_account(&self, id: i32) -> bool {
        exists|i: int| 0 <= i < self.accounts.len() && #[trigger] self.accounts[i].id == id
    }

    /// A category with this id is stored.
    pub open spec fn has_category(&self, id: i32) -> bool {
        exists|i: int| 0 <= i < self.categories.len() && #[trigger] self.categories[i].id == id
    }

    /// The account table can still hand out an id.
    pub open spec fn account_id_left(&self) -> bool {
        self.next_account_id <= MAX_ID
    }

    /// The category table can still hand out an id.
    pub open spec fn category_id_left(&self) -> bool {
        self.next_category_id <= MAX_ID
    }

    /// The transaction table can still hand out an id.
    pub open spec fn transaction_id_left(&self) -> bool {
        self.next_transaction_id <= MAX_ID
    }

    /// A transaction can be inserted: an id is left and both references
    /// name stored rows.
    pub open spec fn accepts_transaction(&self, new: NewTransactionView) -> bool {
        &&& self.transaction_id_left()
        &&& self.has_account(new.bank_account)
        &&& self.has_category(new.transaction_category)
    }

    /// The store after inserting an account under the next id.
    pub open spec fn with_account(self, new: NewAccountView) -> StoreModel {
        StoreModel {
            accounts: self.accounts.push(
                AccountView {
                    id: self.next_account_id as i32,
                    name: new.name,
                    account_type: new.account_type,
                    initial_balance: new.initial_balance,
                },
            ),
            next_account_id: self.next_account_id + 1,
            ..self
        }
    }

    /// The store after inserting a category under the next id.
    pub open spec fn with_category(self, new: NewCategoryView) -> StoreModel {
        StoreModel {
            categories: self.categories.push(
                CategoryView {
                    id: self.next_category_id as i32,
                    name: new.name,
                    is_income: new.is_income,
                },
            ),
            next_category_id: self.next_category_id + 1,
            ..self
        }
    }

    /// The store after inserting a transaction under the next id.
    pub open spec fn with_transaction(self, new: NewTransactionView) -> StoreModel {
        StoreModel {
            transactions: self.transactions.push(
                TransactionView {
                    id: self.next_transaction_id as i32,
                    bank_account: new.bank_account,
                    transaction_category: new.transaction_category,
                    description: new.description,
                    amount: new.amount,
                    transaction_date: new.transaction_date,
                    is_expense: new.is_expense,
                },
            ),
            next_transaction_id: self.next_transaction_id + 1,
            ..self
        }
    }

    /// The store after loading an account row that was stored earlier,
    /// keeping its id; the table then hands out ids above it.
    pub open spec fn with_restored_account(self, row: AccountView) -> StoreModel {
        StoreModel {
            accounts: self.accounts.push(row),
            next_account_id: row.id + 1,
            ..self
        }
    }

    /// The store after loading a category row that was stored earlier.
    pub open spec fn with_restored_category(self, row: CategoryView) -> StoreModel {
        StoreModel {
            categories: self.categories.push(row),
            next_category_id: row.id + 1,
            ..self
        }
    }

    /// The store after loading a transaction row that was stored earlier.
    pub open spec fn with_restored_transaction(self, row: TransactionView) -> StoreModel {
        StoreModel {
            transactions: self.transactions.push(row),
            next_transaction_id: row.id + 1,
            ..self
        }
    }
}

/// The sole owner of the tables; every read and write goes through it.
pub struct Store {
    accounts: Vec<Account>,
    categories: Vec<Category>,
    transactions: Vec<MoneyTransaction>,
    next_account_id: i64,
    next_category_id: i64,
    next_transaction_id: i64,
}

impl View for Store {
    type V = StoreModel;

    closed spec fn view(&self) -> StoreModel {
        StoreModel {
            accounts: self.accounts@.map_values(|a: Account| a@),
            categories: self.categories@.map_values(|c: Category| c@),
            transactions: self.transactions@.map_values(|t: MoneyTransaction| t@),
            next_account_id: self.next_account_id as int,
            next_category_id: self.next_category_id as int,
            next_transaction_id: self.next_transaction_id as int,
        }
    }
}

impl Store {
    /// The store's content is well formed.
    pub closed spec fn wf(&self) -> bool {
        self@.wf()
    }

    /// An empty store whose tables hand out ids from 1.
    pub fn new() -> (r: Store)
        ensures
            r.wf(),
            r@.accounts.len() == 0,
            r@.categories.len() == 0,
            r@.transactions.len() == 0,
            r@.next_account_id == 1,
            r@.next_category_id == 1,
            r@.next_transaction_id == 1,
    {
        let r = Store {
            accounts: Vec::new(),
            categories: Vec::new(),
            transactions: Vec::new(),
            next_account_id: 1,
            next_category_id: 1,
            next_transaction_id: 1,
        };
        assert(r@.accounts =~= Seq::empty());
        assert(r@.categories =~= Seq::empty());
        assert(r@.transactions =~= Seq::empty());
        r
    }

    /// Inserts an account under the next id; fails with `InsertError`, and
    /// leaves the store as it was, where the table has no id left.
    pub fn create_account(&mut self, new_account: &NewAccount) -> (r: Result<(), DataStoreError>)
        requires
            old(self).wf(),
        ensures
            final(self).wf(),
            r is Ok <==> old(self)@.account_id_left(),
            r is Ok ==> final(self)@ == old(self)@.with_account(new_account@),
            r is Err ==> final(self)@ == old(self)@ && r->Err_0 is InsertError,
    {
        if self.next_account_id > MAX_ID {
            return Err(DataStoreError::InsertError("account table has no id left".to_string()));
        }
        let ghost before = self@;
        let row = Account {
            id: self.next_account_id as i32,
            name: new_account.name.clone(),
            account_type: new_account.account_type.clone(),
            initial_balance: new_account.initial_balance,
        };
        self.accounts.push(row);
        self.next_account_id = self.next_account_id + 1;
        assert(self@.accounts =~= before.with_account(new_account@).accounts);
        assert(self@.account_ids() =~= before.account_ids().push(row.id));
        Ok(())
    }

    /// All accounts, in insertion order.
    pub fn get_accounts(&mut self) -> (r: Result<Vec<Account>, DataStoreError>)
        requires
            old(self).wf(),
        ensures
            final(self).wf(),
            final(self)@ == old(self)@,
            r is Ok,
            r is Ok ==> r->Ok_0@.len() == old(self)@.accounts.len(),
            r is Ok ==> forall|i: int|
                0 <= i < old(self)@.accounts.len() ==> (#[trigger] r->Ok_0@[i])@ == old(self)@.accounts[i],
    {
        let mut out: Vec<Account> = Vec::new();
        let mut i: usize = 0;
        while i < self.accounts.len()
            invariant
                i <= self.accounts.len(),
                out@.map_values(|a: Account| a@) =~= self@.accounts.take(i as int),
            decreases self.accounts.len() - i,
        {
            out.push(self.accounts[i].duplicate());
            i = i + 1;
            assert(self@.accounts.take(i as int) =~= self@.accounts.take(i - 1).push(
                self.accounts@[i - 1]@,
            ));
        }
        assert(self@.accounts.take(i as int) =~= self@.accounts);
        Ok(out)
    }

    /// Inserts a category under the next id; fails with `InsertError`, and
    /// leaves the store as it was, where the table has no id left.
    pub fn create_category(&mut self, new_category: &NewCategory) -> (r: Result<(), DataStoreError>)
        requires
            old(self).wf(),
        ensures
            final(self).wf(),
            r is Ok <==> old(self)@.category_id_left(),
            r is Ok ==> final(self)@ == old(self)@.with_category(new_category@),
            r is Err ==> final(self)@ == old(self)@ && r->Err_0 is InsertError,
    {
        if self.next_category_id > MAX_ID {
            return Err(DataStoreError::InsertError("category table has no id left".to_string()));
        }
        let ghost before = self@;
        let row = Category {
            id: self.next_category_id as i32,
            name: new_category.name.clone(),
            is_income: new_category.is_income,
        };
        self.categories.push(row);
        self.next_category_id = self.next_category_id + 1;
        assert(self@.categories =~= before.with_category(new_category@).categories);
        assert(self@.category_ids() =~= before.category_ids().push(row.id));
        Ok(())
    }

    /// All categories, in insertion order.
    pub fn get_categories(&mut self) -> (r: Result<Vec<Category>, DataStoreError>)
        requires
            old(self).wf(),
        ensures
            final(self).wf(),
            final(self)@ == old(self)@,
            r is Ok,
            r is Ok ==> r->Ok_0@.len() == old(self)@.categories.len(),
            r is Ok ==> forall|i: int|
                0 <= i < old(self)@.categories.len() ==> (#[trigger] r->Ok_0@[i])@ == old(self)@.categories[i],
    {
        let mut out: Vec<Category> = Vec::new();
        let mut i: usize = 0;
        while i < self.categories.len()
            invariant
                i <= self.categories.len(),
                out@.map_values(|c: Category| c@) =~= self@.categories.take(i as int),
            decreases self.categories.len() - i,
        {
            out.push(self.categories[i].duplicate());
            i = i + 1;
            assert(self@.categories.take(i as int) =~= self@.categories.take(i - 1).push(
                self.categories@[i - 1]@,
            ));
        }
        assert(self@.categories.take(i as int) =~= self@.categories);
        Ok(out)
    }
    /// Whether an account with this id is stored.
    fn account_exists(&self, id: i32) -> (r: bool)
        ensures
            r == self@.has_account(id),
    {
        let mut i: usize = 0;
        while i < self.accounts.len()
            invariant
                i <= self.accounts.len(),
                forall|k: int| 0 <= k < i ==> self@.accounts[k].id != id,
            decreases self.accounts.len() - i,
        {
            if self.accounts[i].id == id {
                assert(self@.accounts[i as int].id == id);
                return true;
            }
            i = i + 1;
        }
        false
    }

    /// Whether a category with this id is stored.
    fn category_exists(&self, id: i32) -> (r: bool)
        ensures
            r == self@.has_category(id),
    {
        let mut i: usize = 0;
        while i < self.categories.len()
            invariant
                i <= self.categories.len(),
                forall|k: int| 0 <= k < i ==> self@.categories[k].id != id,
            decreases self.categories.len() - i,
        {
            if self.categories[i].id == id {
                assert(self@.categories[i as int].id == id);
                return true;
            }
            i = i + 1;
        }
        false
    }

    /// Inserts a transaction under the next id. Fails with `InsertError`, and
    /// leaves the store as it was, where the account or the category it
    /// names is not stored or the table has no id left.
    pub fn create_money_transaction(
        &mut self,
        new_money_transaction: &NewMoneyTransaction,
    ) -> (r: Result<(), DataStoreError>)
        requires
            old(self).wf(),
            new_money_transaction.transaction_date.wf(),
        ensures
            final(self).wf(),
            r is Ok <==> old(self)@.accepts_transaction(new_money_transaction@),
            r is Ok ==> final(self)@ == old(self)@.with_transaction(new_money_transaction@),
            r is Err ==> final(self)@ == old(self)@ && r->Err_0 is InsertError,
    {
        if self.next_transaction_id > MAX_ID {
            return Err(
                DataStoreError::InsertError("money_transaction table has no id left".to_string()),
            );
        }
        if !self.account_exists(new_money_transaction.bank_account) || !self.category_exists(
            new_money_transaction.transaction_category,
        ) {
            return Err(DataStoreError::InsertError("FOREIGN KEY constraint failed".to_string()));
        }
        let ghost before = self@;
        let row = MoneyTransaction {
            id: self.next_transaction_id as i32,
            bank_account: new_money_transaction.bank_account,
            transaction_category: new_money_transaction.transaction_category,
            description: new_money_transaction.description.clone(),
            amount: new_money_transaction.amount,
            transaction_date: new_money_transaction.transaction_date,
            is_expense: new_money_transaction.is_expense,
        };
        self.transactions.push(row);
        self.next_transaction_id = self.next_transaction_id + 1;
        assert(self@.transactions =~= before.with_transaction(new_money_transaction@).transactions);
        assert(self@.transaction_ids() =~= before.transaction_ids().push(row.id));
        assert forall|i: int| 0 <= i < self@.transactions.len() implies (
        #[trigger] self@.transactions[i]).transaction_date.wf() by {
            if i < before.transactions.len() {
                assert(self@.transactions[i] == before.transactions[i]);
            }
        }
        Ok(())
    }

    /// All transactions, in insertion order, which is ascending id order.
    pub fn get_money_transactions(&mut self) -> (r: Result<Vec<MoneyTransaction>, DataStoreError>)
        requires
            old(self).wf(),
        ensures
            final(self).wf(),
            final(self)@ == old(self)@,
            r is Ok,
            r is Ok ==> r->Ok_0@.len() == old(self)@.transactions.len(),
            r is Ok ==> forall|i: int|
                0 <= i < old(self)@.transactions.len() ==> (#[trigger] r->Ok_0@[i])@ == old(self)@.transactions[i],
    {
        let mut out: Vec<MoneyTransaction> = Vec::new();
        let mut i: usize = 0;
        while i < self.transactions.len()
            invariant
                i <= self.transactions.len(),
                out@.map_values(|t: MoneyTransaction| t@) =~= self@.transactions.take(i as int),
            decreases self.transactions.len() - i,
        {
            out.push(self.transactions[i].duplicate());
            i = i + 1;
            assert(self@.transactions.take(i as int) =~= self@.transactions.take(i - 1).push(
                self.transactions@[i - 1]@,
            ));
        }
        assert(self@.transactions.take(i as int) =~= self@.transactions);
        Ok(out)
    }

    /// Sum of the amounts of the transactions under `category_id` dated from
    /// `start_date` 00:00:00 to `end_date` 23:59:59, both included; 0 where
    /// none matches.
    pub fn calculate_expense_by_category(
        &mut self,
        category_id: i32,
        start_date: &Date,
        end_date: &Date,
    ) -> (r: Result<u128, DataStoreError>)
        requires
            old(self).wf(),
            start_date.wf(),
            end_date.wf(),
        ensures
            final(self).wf(),
            final(self)@ == old(self)@,
            r is Ok,
            r is Ok ==> r->Ok_0 == expense_total(
                old(self)@.transactions,
                category_id,
                *start_date,
                *end_date,
            ),
    {
        let from = start_date.start_of_day();
        let until = end_date.end_of_day();
        let ghost txs = self@.transactions;
        let mut total: u128 = 0;
        let mut i: usize = 0;
        while i < self.transactions.len()
            invariant
                i <= self.transactions.len(),
                txs == self@.transactions,
                self@.wf(),
                from == range_start(*start_date),
                until == range_end(*end_date),
                from.wf(),
                until.wf(),
                total == expense_total(txs.take(i as int), category_id, *start_date, *end_date),
                total <= i * 0xffff_ffff_ffff_ffffu64,
            decreases self.transactions.len() - i,
        {
            let t = &self.transactions[i];
            assert(txs.take(i + 1).drop_last() =~= txs.take(i as int));
            assert(txs.take(i + 1).last() == t@);
            assert(t.transaction_date.wf()) by {
                assert(txs[i as int].transaction_date.wf());
            }
            if t.transaction_category == category_id && from.is_at_or_before(&t.transaction_date)
                && t.transaction_date.is_at_or_before(&until) {
                assert(total + t.amount <= (i + 1) * 0xffff_ffff_ffff_ffffu64) by (nonlinear_arith)
                    requires
                        total <= i * 0xffff_ffff_ffff_ffffu64,
                        t.amount <= 0xffff_ffff_ffff_ffffu64,
                ;
                assert((i + 1) * 0xffff_ffff_ffff_ffffu64 <= 0x1_0000_0000_0000_0000 * 0xffff_ffff_ffff_ffffu64) by (nonlinear_arith)
                    requires
                        i < 0x1_0000_0000_0000_0000int,
                ;
                total = total + t.amount as u128;
            } else {
                assert(total <= (i + 1) * 0xffff_ffff_ffff_ffffu64) by (nonlinear_arith)
                    requires
                        total <= i * 0xffff_ffff_ffff_ffffu64,
                ;
            }
            i = i + 1;
        }
        assert(txs.take(i as int) =~= txs);
        Ok(total)
    }

    /// Loads an account row kept from an earlier session, with its id. Rows
    /// come in ascending id order: one whose id is not above every present
    /// id fails with `QueryError` and changes nothing.
    pub fn restore_account(&mut self, row: &Account) -> (r: Result<(), DataStoreError>)
        requires
            old(self).wf(),
        ensures
            final(self).wf(),
            r is Ok <==> old(self)@.next_account_id <= row.id,
            r is Ok ==> final(self)@ == old(self)@.with_restored_account(row@),
            r is Err ==> final(self)@ == old(self)@ && r->Err_0 is QueryError,
    {
        if (row.id as i64) < self.next_account_id {
            return Err(DataStoreError::QueryError("account rows out of id order".to_string()));
        }
        let ghost before = self@;
        let copy = row.duplicate();
        self.accounts.push(copy);
        self.next_account_id = row.id as i64 + 1;
        assert(self@.accounts =~= before.with_restored_account(row@).accounts);
        assert(self@.account_ids() =~= before.account_ids().push(row.id));
        Ok(())
    }

    /// Loads a category row kept from an earlier session, as
    /// `restore_account` does for accounts.
    pub fn restore_category(&mut self, row: &Category) -> (r: Result<(), DataStoreError>)
        requires
            old(self).wf(),
        ensures
            final(self).wf(),
            r is Ok <==> old(self)@.next_category_id <= row.id,
            r is Ok ==> final(self)@ == old(self)@.with_restored_category(row@),
            r is Err ==> final(self)@ == old(self)@ && r->Err_0 is QueryError,
    {
        if (row.id as i64) < self.next_category_id {
            return Err(DataStoreError::QueryError("category rows out of id order".to_string()));
        }
        let ghost before = self@;
        let copy = row.duplicate();
        self.categories.push(copy);
        self.next_category_id = row.id as i64 + 1;
        assert(self@.categories =~= before.with_restored_category(row@).categories);
        assert(self@.category_ids() =~= before.category_ids().push(row.id));
        Ok(())
    }

    /// Loads a transaction row kept from an earlier session, as
    /// `restore_account` does for accounts. The rows it names need not be
    /// present any more.
    pub fn restore_money_transaction(&mut self, row: &MoneyTransaction) -> (r: Result<(), DataStoreError>)
        requires
            old(self).wf(),
            row.transaction_date.wf(),
        ensures
            final(self).wf(),
            r is Ok <==> old(self)@.next_transaction_id <= row.id,
            r is Ok ==> final(self)@ == old(self)@.with_restored_transaction(row@),
            r is Err ==> final(self)@ == old(self)@ && r->Err_0 is QueryError,
    {
        if (row.id as i64) < self.next_transaction_id {
            return Err(
                DataStoreError::QueryError("money_transaction rows out of id order".to_string()),
            );
        }
        let ghost before = self@;
        let copy = row.duplicate();
        self.transactions.push(copy);
        self.next_transaction_id = row.id as i64 + 1;
        assert(self@.transactions =~= before.with_restored_transaction(row@).transactions);
        assert(self@.transaction_ids() =~= before.transaction_ids().push(row.id));
        assert forall|i: int| 0 <= i < self@.transactions.len() implies (
        #[trigger] self@.transactions[i]).transaction_date.wf() by {
            if i < before.transactions.len() {
                assert(self@.transactions[i] == before.transactions[i]);
            }
        }
        Ok(())
    }
}

impl Default for Store {
    /// An empty store, as `Store::new`.
    fn default() -> (r: Store)
        ensures
            r.wf(),
            r@.accounts.len() == 0,
            r@.categories.len() == 0,
            r@.transactions.len() == 0,
    {
        Store::new()
    }
}

} // verus!
