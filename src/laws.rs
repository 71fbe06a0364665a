//! Properties of the store that relate several of its operations.
use vstd::prelude::*;
use crate::date::{Date, DateTime, date_before, date_le};
use crate::models::{NewAccountView, NewCategoryView, NewTransactionView, TransactionView};
use crate::store::{StoreModel, counts_toward, expense_total, in_day_range};

verus! {

/// Inserting an account and reading the table back yields every earlier row
/// unchanged followed by a row that holds exactly the inserted fields, under
/// an id that no earlier row has; the store stays well formed.
pub proof fn law_account_round_trip(m: StoreModel, new: NewAccountView)
    requires
        m.wf(),
        m.account_id_left(),
    ensures
        ({
            let after = m.with_account(new);
            let row = after.accounts.last();
            &&& after.wf()
            &&& after.accounts.len() == m.accounts.len() + 1
            &&& after.accounts.drop_last() == m.accounts
            &&& row.name == new.name
            &&& row.account_type == new.account_type
            &&& row.initial_balance == new.initial_balance
            &&& forall|i: int| 0 <= i < m.accounts.len() ==> m.accounts[i].id != row.id
        }),
{
    let after = m.with_account(new);
    assert(after.accounts.drop_last() =~= m.accounts);
    assert(after.account_ids() =~= m.account_ids().push(m.next_account_id as i32));
    assert forall|i: int| 0 <= i < m.accounts.len() implies m.accounts[i].id
        != after.accounts.last().id by {
        assert(m.account_ids()[i] == m.accounts[i].id);
    }
}

/// Inserting a category and reading the table back yields every earlier row
/// unchanged followed by a row that holds exactly the inserted fields, under
/// an id that no earlier row has; the store stays well formed.
pub proof fn law_category_round_trip(m: StoreModel, new: NewCategoryView)
    requires
        m.wf(),
        m.category_id_left(),
    ensures
        ({
            let after = m.with_category(new);
            let row = after.categories.last();
            &&& after.wf()
            &&& after.categories.len() == m.categories.len() + 1
            &&& after.categories.drop_last() == m.categories
            &&& row.name == new.name
            &&& row.is_income == new.is_income
            &&& forall|i: int| 0 <= i < m.categories.len() ==> m.categories[i].id != row.id
        }),
{
    let after = m.with_category(new);
    assert(after.categories.drop_last() =~= m.categories);
    assert(after.category_ids() =~= m.category_ids().push(m.next_category_id as i32));
    assert forall|i: int| 0 <= i < m.categories.len() implies m.categories[i].id
        != after.categories.last().id by {
        assert(m.category_ids()[i] == m.categories[i].id);
    }
}

/// Inserting an accepted transaction and reading the table back yields every
/// earlier row unchanged followed by a row that holds exactly the inserted
/// fields, under an id that no earlier row has; the store stays well formed.
pub proof fn law_transaction_round_trip(m: StoreModel, new: NewTransactionView)
    requires
        m.wf(),
        new.transaction_date.wf(),
        m.accepts_transaction(new),
    ensures
        ({
            let after = m.with_transaction(new);
            let row = after.transactions.last();
            &&& after.wf()
            &&& after.transactions.len() == m.transactions.len() + 1
            &&& after.transactions.drop_last() == m.transactions
            &&& row.bank_account == new.bank_account
            &&& row.transaction_category == new.transaction_category
            &&& row.description == new.description
            &&& row.amount == new.amount
            &&& row.transaction_date == new.transaction_date
            &&& row.is_expense == new.is_expense
            &&& forall|i: int| 0 <= i < m.transactions.len() ==> m.transactions[i].id != row.id
        }),
{
    let after = m.with_transaction(new);
    assert(after.transactions.drop_last() =~= m.transactions);
    assert(after.transaction_ids() =~= m.transaction_ids().push(m.next_transaction_id as i32));
    assert forall|i: int| 0 <= i < m.transactions.len() implies m.transactions[i].id
        != after.transactions.last().id by {
        assert(m.transaction_ids()[i] == m.transactions[i].id);
    }
    assert forall|i: int| 0 <= i < after.transactions.len() implies (
    #[trigger] after.transactions[i]).transaction_date.wf() by {
        if i < m.transactions.len() {
            assert(after.transactions[i] == m.transactions[i]);
        }
    }
}

/// Each table lists its rows in the order they were inserted: ids rise
/// strictly along it, and every insert appends a row whose id exceeds all
/// present ones.
pub proof fn law_rows_in_insertion_order(m: StoreModel, new: NewAccountView)
    requires
        m.wf(),
    ensures
        forall|i: int, j: int|
            0 <= i < j < m.accounts.len() ==> m.accounts[i].id < m.accounts[j].id,
        forall|i: int, j: int|
            0 <= i < j < m.categories.len() ==> m.categories[i].id < m.categories[j].id,
        forall|i: int, j: int|
            0 <= i < j < m.transactions.len() ==> m.transactions[i].id < m.transactions[j].id,
        m.account_id_left() ==> forall|i: int|
            0 <= i < m.accounts.len() ==> m.accounts[i].id < m.with_account(new).accounts.last().id,
{
    assert forall|i: int, j: int| 0 <= i < j < m.accounts.len() implies m.accounts[i].id
        < m.accounts[j].id by {
        assert(m.account_ids()[i] < m.account_ids()[j]);
    }
    assert forall|i: int, j: int| 0 <= i < j < m.categories.len() implies m.categories[i].id
        < m.categories[j].id by {
        assert(m.category_ids()[i] < m.category_ids()[j]);
    }
    assert forall|i: int, j: int| 0 <= i < j < m.transactions.len() implies m.transactions[i].id
        < m.transactions[j].id by {
        assert(m.transaction_ids()[i] < m.transaction_ids()[j]);
    }
    assert forall|i: int| 0 <= i < m.accounts.len() implies m.accounts[i].id < m.next_account_id by {
        assert(m.account_ids()[i] == m.accounts[i].id);
    }
}

/// Where no transaction counts toward it, the expense total is 0.
pub proof fn law_total_zero_without_match(
    txs: Seq<TransactionView>,
    category_id: i32,
    start: Date,
    end: Date,
)
    requires
        forall|i: int| 0 <= i < txs.len() ==> !counts_toward(#[trigger] txs[i], category_id, start, end),
    ensures
        expense_total(txs, category_id, start, end) == 0,
    decreases txs.len(),
{
    if txs.len() > 0 {
        let rest = txs.drop_last();
        assert forall|i: int| 0 <= i < rest.len() implies !counts_toward(#[trigger] rest[i], category_id, start, end) by {
            assert(rest[i] == txs[i]);
        }
        law_total_zero_without_match(rest, category_id, start, end);
        assert(!counts_toward(txs[txs.len() - 1], category_id, start, end));
    }
}

/// The range covers whole days: any instant of the day `end`, up to
/// 23:59:59, is in it, as is any instant of the day `start`; no instant of
/// a later day than `end` is, from 00:00:00 on.
pub proof fn law_whole_day_bounds(t: DateTime, start: Date, end: Date)
    requires
        t.wf(),
        date_le(start, end),
    ensures
        t.date == end ==> in_day_range(t, start, end),
        t.date == start ==> in_day_range(t, start, end),
        date_before(end, t.date) ==> !in_day_range(t, start, end),
{
}

/// The expense total of a category is the total over that category's own
/// transactions alone: transactions of other categories, whatever their
/// dates and amounts, add nothing.
pub proof fn law_total_ignores_other_categories(
    txs: Seq<TransactionView>,
    category_id: i32,
    start: Date,
    end: Date,
)
    ensures
        expense_total(txs, category_id, start, end) == expense_total(
            txs.filter(|t: TransactionView| t.transaction_category == category_id),
            category_id,
            start,
            end,
        ),
    decreases txs.len(),
{
    let pred = |t: TransactionView| t.transaction_category == category_id;
    if txs.len() > 0 {
        let rest = txs.drop_last();
        law_total_ignores_other_categories(rest, category_id, start, end);
        assert(txs == rest.push(txs.last()));
        rest.lemma_filter_push(txs.last(), pred);
        if pred(txs.last()) {
            let f = rest.filter(pred).push(txs.last());
            assert(f.drop_last() =~= rest.filter(pred));
        }
    }
}

} // verus!
