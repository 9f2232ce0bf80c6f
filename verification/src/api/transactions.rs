//! Reading the ledger.

use vstd::prelude::*;

use crate::clock::Timestamp;

use crate::api::Paged;
use crate::api::PagingRequest;
use crate::api::lemma_filter_none;
use crate::api::lemma_filter_step;
use crate::api::paged;
use crate::entity::transaction;
use crate::entity::transaction::GetTransaction;
use crate::entity::transaction::GetTransactionView;
use crate::store::Store;

verus! {

/// Which entries of the ledger to list: those written after `from` and
/// before `to`, where these are given.
#[derive(Debug, Clone, Copy, PartialEq, Eq)]
pub struct TransactionFilter {
    pub from: Option<Timestamp>,
    pub to: Option<Timestamp>,
    pub paging: PagingRequest,
}

impl TransactionFilter {
    /// Whether `entry` is listed.
    pub open spec fn spec_matches(self, entry: transaction::ModelView) -> bool {
        &&& self.from matches Some(from) ==> entry.created_at.spec_is_after(from)
        &&& self.to matches Some(to) ==> to.spec_is_after(entry.created_at)
    }

    /// The rule that picks the entries that are listed.
    pub open spec fn rule(self) -> spec_fn(transaction::ModelView) -> bool {
        |entry: transaction::ModelView| self.spec_matches(entry)
    }

    /// Whether `entry` is listed.
    pub fn matches(&self, entry: &transaction::Model) -> (r: bool)
        ensures
            r == self.spec_matches(entry@),
    {
        let late_enough = match &self.from {
            Some(from) => entry.created_at.is_after(*from),
            None => true,
        };
        let early_enough = match &self.to {
            Some(to) => to.is_after(entry.created_at),
            None => true,
        };
        late_enough && early_enough
    }
}

/// The rows as contracts speak of them.
pub open spec fn shown_entries(rows: Seq<GetTransaction>) -> Seq<GetTransactionView> {
    rows.map_values(|entry: GetTransaction| entry@)
}

/// The rows as contracts speak of them.
pub open spec fn shown(entries: Seq<transaction::ModelView>) -> Seq<GetTransactionView> {
    entries.map_values(|entry: transaction::ModelView| entry.shown())
}

/// The page `params.paging` of the ledger entries that `params` lists, in
/// the order of their keys, with the number of all of them. Each amount
/// is shown as it was written.
pub fn get_transaction_list(params: &TransactionFilter, db: &Store) -> (page: Paged<
    GetTransaction,
>)
    ensures
        page.count == db@.transactions.filter(params.rule()).len(),
        shown_entries(page.items@) == shown(db@.transactions.filter(params.rule())).subrange(
            params.paging.spec_start(page.count as int),
            params.paging.spec_end(page.count as int),
        ),
{
    let mut rows: Vec<GetTransaction> = Vec::new();
    let mut i: usize = 0;
    proof {
        lemma_filter_none(db@.transactions, params.rule());
    }
    while i < db.transactions.len()
        invariant
            i <= db.transactions.len(),
            shown_entries(rows@) =~= shown(db@.transactions.take(i as int).filter(params.rule())),
        decreases db.transactions.len() - i,
    {
        proof {
            lemma_filter_step(db@.transactions, i as int, params.rule());
        }
        if params.matches(&db.transactions[i]) {
            let ghost listed = rows@;
            let ghost passed = db@.transactions.take(i as int).filter(params.rule());
            rows.push(GetTransaction::from((db.transactions[i].duplicate(), None)));
            assert(shown_entries(rows@) =~= shown_entries(listed).push(
                db@.transactions[i as int].shown(),
            ));
            assert(shown(passed.push(db@.transactions[i as int])) =~= shown(passed).push(
                db@.transactions[i as int].shown(),
            ));
        }
        i += 1;
    }
    assert(db@.transactions.take(i as int) =~= db@.transactions);
    let ghost all = rows@;
    let page = paged(rows, params.paging);
    assert(shown_entries(page.items@) =~= shown_entries(all).subrange(
        params.paging.spec_start(page.count as int),
        params.paging.spec_end(page.count as int),
    ));
    page
}

} // verus!
