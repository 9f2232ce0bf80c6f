//! The operations of the engine, one function for each request, and the
//! values that requests and responses are made of.

use vstd::prelude::*;

use crate::utils::errors::AError;

pub mod auth;
pub mod books;
pub mod orders;
pub mod stats;
pub mod transactions;

verus! {

/// A response that says no more than a message.
#[derive(Debug, Clone, PartialEq, Eq)]
pub struct GeneralResponse {
    pub message: String,
}

impl GeneralResponse {
    /// The response that tells a client of the failure `e`: its message.
    pub fn from_error(e: &AError) -> (response: GeneralResponse)
        ensures
            response.message@ == e.message@,
    {
        GeneralResponse { message: e.message.clone() }
    }
}

/// Which part of a list to return: pages are counted from zero.
#[derive(Debug, Clone, Copy, PartialEq, Eq)]
pub struct PagingRequest {
    pub page: u64,
    pub page_size: u64,
}

/// The smaller of two numbers.
pub open spec fn spec_min(a: int, b: int) -> int {
    if a <= b {
        a
    } else {
        b
    }
}

impl PagingRequest {
    /// The position of the first row of the page in a list of `total`
    /// rows: `page` pages of `page_size` rows in, or the end of the list
    /// where the list is shorter.
    pub open spec fn spec_start(self, total: int) -> int {
        spec_min(self.page * self.page_size, total)
    }

    /// The position after the last row of the page in a list of `total`
    /// rows.
    pub open spec fn spec_end(self, total: int) -> int {
        spec_min(self.page * self.page_size + self.page_size, total)
    }

    /// The number of rows that lie before the page, where that is a
    /// number of 64 bits: beyond it no list has a row.
    pub fn offset(&self) -> (rows: Option<u64>)
        ensures
            rows == if self.page * self.page_size <= u64::MAX {
                Some((self.page * self.page_size) as u64)
            } else {
                None::<u64>
            },
    {
        assert(self.page * self.page_size <= 0xFFFF_FFFF_FFFF_FFFF * 0xFFFF_FFFF_FFFF_FFFF)
            by (nonlinear_arith)
            requires
                0 <= self.page <= 0xFFFF_FFFF_FFFF_FFFF,
                0 <= self.page_size <= 0xFFFF_FFFF_FFFF_FFFF,
        ;
        let rows: u128 = self.page as u128 * self.page_size as u128;
        if rows <= u64::MAX as u128 {
            Some(rows as u64)
        } else {
            None
        }
    }

    /// The rows of a list of `total` rows that are on the page, as the
    /// positions of the first and after the last.
    pub fn bounds(&self, total: usize) -> (range: (usize, usize))
        ensures
            range.0 == self.spec_start(total as int),
            range.1 == self.spec_end(total as int),
            range.0 <= range.1 <= total,
    {
        assert(self.page * self.page_size <= 0xFFFF_FFFF_FFFF_FFFF * 0xFFFF_FFFF_FFFF_FFFF)
            by (nonlinear_arith)
            requires
                0 <= self.page <= 0xFFFF_FFFF_FFFF_FFFF,
                0 <= self.page_size <= 0xFFFF_FFFF_FFFF_FFFF,
        ;
        let offset: u128 = self.page as u128 * self.page_size as u128;
        let limit: u128 = offset + self.page_size as u128;
        let start: usize = if offset < total as u128 {
            offset as usize
        } else {
            total
        };
        let end: usize = if limit < total as u128 {
            limit as usize
        } else {
            total
        };
        (start, end)
    }
}

/// One page of a list, with the number of rows of the whole list.
#[derive(Debug, Clone, PartialEq, Eq)]
pub struct Paged<T> {
    pub count: usize,
    pub items: Vec<T>,
}

/// The page `request` of `items`, with the number of all the items.
pub fn paged<T>(items: Vec<T>, request: PagingRequest) -> (page: Paged<T>)
    ensures
        page.count == items@.len(),
        page.items@ == items@.subrange(
            request.spec_start(items@.len() as int),
            request.spec_end(items@.len() as int),
        ),
{
    let mut items = items;
    let count = items.len();
    let (start, end) = request.bounds(count);
    items.truncate(end);
    let page = items.split_off(start);
    Paged { count, items: page }
}

/// Filtering one row more keeps what was filtered so far and adds the row
/// if it passes.
pub proof fn lemma_filter_step<A>(s: Seq<A>, i: int, pred: spec_fn(A) -> bool)
    requires
        0 <= i < s.len(),
    ensures
        s.take(i + 1).filter(pred) == if pred(s[i]) {
            s.take(i).filter(pred).push(s[i])
        } else {
            s.take(i).filter(pred)
        },
{
    reveal(Seq::filter);
    assert(s.take(i + 1).drop_last() =~= s.take(i));
}

/// Nothing passes a filter where there is nothing.
pub proof fn lemma_filter_none<A>(s: Seq<A>, pred: spec_fn(A) -> bool)
    ensures
        s.take(0).filter(pred) == Seq::<A>::empty(),
{
    reveal(Seq::filter);
    assert(s.take(0) =~= Seq::<A>::empty());
}

} // verus!
