//! The persisted state as one value: the table of books, the table of
//! tickets and the ledger, with the mathematical model that every
//! operation of the engine is held to.
//!
//! An operation is a function from the state before to the state after
//! and a result. It either takes effect as a whole or fails and leaves
//! the state as it was.

use vstd::prelude::*;

use crate::clock::Timestamp;

use crate::entity::TicketType;
use crate::entity::book;
use crate::entity::order_list;
use crate::entity::order_list::GetOrder;
use crate::entity::order_list::GetOrderView;
use crate::entity::order_list::NewOrderView;
use crate::entity::transaction;
use crate::utils::errors::AError;
use crate::utils::errors::AErrorView;
use crate::utils::errors::StatusCode;
use crate::utils::errors::spec_error;
use crate::workflow;

verus! {

/// The three tables. Tickets and ledger entries are numbered from 1 in
/// the order in which they were written, and no row is ever removed.
#[derive(Debug, Clone, PartialEq, Eq)]
pub struct Store {
    pub books: Vec<book::Model>,
    pub orders: Vec<order_list::Model>,
    pub transactions: Vec<transaction::Model>,
}

/// What a `Store` stands for in contracts: its three tables, row by row.
pub struct StoreState {
    pub books: Seq<book::ModelView>,
    pub orders: Seq<order_list::ModelView>,
    pub transactions: Seq<transaction::ModelView>,
}

impl View for Store {
    type V = StoreState;

    open spec fn view(&self) -> StoreState {
        StoreState {
            books: self.books@.map_values(|b: book::Model| b@),
            orders: self.orders@.map_values(|o: order_list::Model| o@),
            transactions: self.transactions@.map_values(|t: transaction::Model| t@),
        }
    }
}

/// What is reported where the tickets have used up their keys.
pub open spec fn order_id_exhausted() -> AErrorView {
    spec_error(StatusCode::InternalServerError, "Order id is out of range"@)
}

/// What is reported where the ledger has used up its keys.
pub open spec fn transaction_id_exhausted() -> AErrorView {
    spec_error(StatusCode::InternalServerError, "Transaction id is out of range"@)
}

/// Whether the book at position `i` of `books` has the key `isbn`.
pub open spec fn book_is_at(books: Seq<book::ModelView>, i: int, isbn: Seq<char>) -> bool {
    0 <= i < books.len() && books[i].isbn == isbn
}

/// The position of the book `isbn` in `books`, where there is one.
pub open spec fn index_of_book(books: Seq<book::ModelView>, isbn: Seq<char>) -> int {
    choose|i: int| book_is_at(books, i, isbn)
}

/// Whether the entry at position `k` of `entries` records a payment of the
/// ticket `id`.
pub open spec fn entry_is_of(entries: Seq<transaction::ModelView>, k: int, id: int) -> bool {
    0 <= k < entries.len() && entries[k].ticket_id == id
}

/// The position of an entry of the ticket `id` in `entries`, where there
/// is one.
pub open spec fn index_of_entry(entries: Seq<transaction::ModelView>, id: int) -> int {
    choose|k: int| entry_is_of(entries, k, id)
}

impl StoreState {
    /// The state without a book, a ticket or a ledger entry.
    pub open spec fn empty() -> StoreState {
        StoreState { books: Seq::empty(), orders: Seq::empty(), transactions: Seq::empty() }
    }

    /// Whether the book at position `i` is the one with the key `isbn`.
    pub open spec fn is_book_at(self, i: int, isbn: Seq<char>) -> bool {
        book_is_at(self.books, i, isbn)
    }

    /// Whether the store knows the book `isbn`.
    pub open spec fn has_book(self, isbn: Seq<char>) -> bool {
        exists|i: int| book_is_at(self.books, i, isbn)
    }

    /// The position of the book `isbn`, where there is one.
    pub open spec fn book_index(self, isbn: Seq<char>) -> int {
        index_of_book(self.books, isbn)
    }

    /// The book `isbn`, where the store knows it.
    pub open spec fn book(self, isbn: Seq<char>) -> book::ModelView {
        self.books[self.book_index(isbn)]
    }

    /// Whether there is a ticket `id`.
    pub open spec fn has_order(self, id: int) -> bool {
        1 <= id <= self.orders.len()
    }

    /// The ticket `id`, where there is one.
    pub open spec fn order(self, id: int) -> order_list::ModelView {
        self.orders[id - 1]
    }

    /// Whether the ledger entry at position `k` records a payment of the
    /// ticket `id`.
    pub open spec fn is_entry_of(self, k: int, id: int) -> bool {
        entry_is_of(self.transactions, k, id)
    }

    /// Whether the ledger holds an entry for the ticket `id`.
    pub open spec fn has_entry(self, id: int) -> bool {
        exists|k: int| entry_is_of(self.transactions, k, id)
    }

    /// The position of the ledger entry of the ticket `id`, where there
    /// is one.
    pub open spec fn entry_index(self, id: int) -> int {
        index_of_entry(self.transactions, id)
    }

    /// What holds of the tables between any two operations.
    pub open spec fn wf(self) -> bool {
        &&& self.books_wf()
        &&& self.orders_wf()
        &&& self.ledger_wf()
    }

    /// No counter of a book is negative, and no two books share a key.
    pub open spec fn books_wf(self) -> bool {
        &&& forall|i: int| 0 <= i < self.books.len() ==> (#[trigger] self.books[i]).wf()
        &&& forall|i: int, j: int|
            0 <= i < j < self.books.len() ==> (#[trigger] self.books[i]).isbn != (
            #[trigger] self.books[j]).isbn
    }

    /// Tickets are numbered from 1 without a gap, and each is for at least
    /// one copy.
    pub open spec fn orders_wf(self) -> bool {
        &&& self.orders.len() <= i32::MAX
        &&& forall|i: int|
            0 <= i < self.orders.len() ==> {
                &&& (#[trigger] self.orders[i]).id == i + 1
                &&& self.orders[i].total_count > 0
            }
    }

    /// Ledger entries are numbered from 1 without a gap. Each records the
    /// payment of a paid ticket, with the signed price of that ticket; no
    /// ticket has two; and every paid ticket has one.
    pub open spec fn ledger_wf(self) -> bool {
        &&& self.transactions.len() <= i64::MAX
        &&& forall|k: int|
            0 <= k < self.transactions.len() ==> {
                let entry = #[trigger] self.transactions[k];
                &&& entry.id == k + 1
                &&& self.has_order(entry.ticket_id)
                &&& self.order(entry.ticket_id).is_paid()
                &&& entry.total_price == self.order(entry.ticket_id).signed_price()
            }
        &&& forall|k: int, l: int|
            0 <= k < l < self.transactions.len() ==> (#[trigger] self.transactions[k]).ticket_id
                != (#[trigger] self.transactions[l]).ticket_id
        &&& forall|i: int|
            0 <= i < self.orders.len() && (#[trigger] self.orders[i]).is_paid()
                ==> self.has_entry(i + 1)
    }

    /// The state with `row` in the place of the ticket `row.id`.
    pub open spec fn with_order(self, row: order_list::ModelView) -> StoreState {
        StoreState { orders: self.orders.update(row.id - 1, row), ..self }
    }

    /// The state with `row` in the place of the book with its key.
    pub open spec fn with_book(self, row: book::ModelView) -> StoreState {
        StoreState { books: self.books.update(self.book_index(row.isbn), row), ..self }
    }

    /// The state with one more ledger entry, numbered after the last.
    pub open spec fn with_transaction(self, entry: transaction::ActiveModelView) -> StoreState {
        StoreState {
            transactions: self.transactions.push(
                entry.into_model(self.transactions.len() as int + 1),
            ),
            ..self
        }
    }

    /// The state with one more ticket, numbered after the last.
    pub open spec fn with_new_order(self, order: order_list::ActiveModelView) -> StoreState {
        StoreState { orders: self.orders.push(order.into_model(self.orders.len() as int + 1)), ..self }
    }

    /// The ticket `id` as the store has it.
    pub open spec fn find_order(self, id: int) -> Option<order_list::ModelView> {
        if self.has_order(id) {
            Some(self.order(id))
        } else {
            None
        }
    }

    /// The book `isbn` as the store has it.
    pub open spec fn find_book(self, isbn: Seq<char>) -> Option<book::ModelView> {
        if self.has_book(isbn) {
            Some(self.book(isbn))
        } else {
            None
        }
    }

    /// The book of the ticket `id` as the store has it.
    pub open spec fn book_of_order(self, id: int) -> Option<book::ModelView> {
        match self.find_order(id) {
            Some(order) => self.find_book(order.book_isbn),
            None => None,
        }
    }

    /// The tickets of type `typ` as a client sees them, in the order of
    /// their keys.
    pub open spec fn orders_of_type(self, typ: TicketType) -> Seq<GetOrderView> {
        self.orders.filter(is_of_type(typ)).map_values(|order: order_list::ModelView| order.shown())
    }

    /// Writes the ticket `opened` under the next key, while there is one.
    pub open spec fn open_order(self, opened: order_list::ActiveModelView) -> (
        StoreState,
        Result<GetOrderView, AErrorView>,
    ) {
        if self.orders.len() >= i32::MAX {
            (self, Err(order_id_exhausted()))
        } else {
            (
                self.with_new_order(opened),
                Ok(opened.into_model(self.orders.len() as int + 1).shown()),
            )
        }
    }

    /// The state with one more book, where there is one to add.
    pub open spec fn with_new_book(self, created: Option<book::ModelView>) -> StoreState {
        match created {
            Some(row) => StoreState { books: self.books.push(row), ..self },
            None => self,
        }
    }

    /// Records the book `isbn`, with no copy anywhere, unless the store
    /// knows it. A book that the store does not know must be described.
    pub open spec fn create_if_absent(self, isbn: Seq<char>, info: Option<book::NewBookInfoView>) -> (
        StoreState,
        Result<(), AErrorView>,
    ) {
        match workflow::spec_create_if_absent(isbn, self.has_book(isbn), info) {
            Err(e) => (self, Err(e)),
            Ok(created) => (self.with_new_book(created), Ok(())),
        }
    }

    /// Adds `delta` copies of the book `isbn` to the warehouse, or takes
    /// them out when `delta` is negative.
    pub open spec fn adjust_inventory(self, isbn: Seq<char>, delta: int) -> (
        StoreState,
        Result<book::ModelView, AErrorView>,
    ) {
        match workflow::spec_adjust_inventory(self.find_book(isbn), delta) {
            Err(e) => (self, Err(e)),
            Ok(book) => (self.with_book(book), Ok(book)),
        }
    }

    /// Adds `delta` copies of the book `isbn` to the shelf, or takes them
    /// off when `delta` is negative.
    pub open spec fn adjust_shelf(self, isbn: Seq<char>, delta: int) -> (
        StoreState,
        Result<book::ModelView, AErrorView>,
    ) {
        match workflow::spec_adjust_shelf(self.find_book(isbn), delta) {
            Err(e) => (self, Err(e)),
            Ok(book) => (self.with_book(book), Ok(book)),
        }
    }

    /// Moves `count` copies of the book `isbn` from the warehouse to the
    /// shelf, or back when `count` is negative.
    pub open spec fn put_on_shelf(self, isbn: Seq<char>, count: int) -> (
        StoreState,
        Result<book::ModelView, AErrorView>,
    ) {
        match workflow::spec_put_on_shelf(self.find_book(isbn), count) {
            Err(e) => (self, Err(e)),
            Ok(book) => (self.with_book(book), Ok(book)),
        }
    }

    /// Replaces the description of the book `isbn`.
    pub open spec fn update_book(self, isbn: Seq<char>, update: book::UpdateBookView) -> (
        StoreState,
        Result<book::ModelView, AErrorView>,
    ) {
        match workflow::spec_update_book(self.find_book(isbn), update) {
            Err(e) => (self, Err(e)),
            Ok(book) => (self.with_book(book), Ok(book)),
        }
    }

    /// Opens a sell ticket for a book that the store knows.
    pub open spec fn sell_book(self, order: NewOrderView, operator_id: int, now: Timestamp) -> (
        StoreState,
        Result<GetOrderView, AErrorView>,
    ) {
        match workflow::spec_sell_book(order, self.has_book(order.book_isbn), operator_id, now) {
            Err(e) => (self, Err(e)),
            Ok(opened) => self.open_order(opened),
        }
    }

    /// Opens a stock ticket, and records the book first where the store
    /// does not know it and the request describes it.
    pub open spec fn stock_book(self, order: NewOrderView, operator_id: int, now: Timestamp) -> (
        StoreState,
        Result<GetOrderView, AErrorView>,
    ) {
        match workflow::spec_stock_book(order, self.has_book(order.book_isbn), operator_id, now) {
            Err(e) => (self, Err(e)),
            Ok((created, opened)) => if self.orders.len() >= i32::MAX {
                (self, Err(order_id_exhausted()))
            } else {
                self.with_new_book(created).open_order(opened)
            },
        }
    }

    /// Pays a pending sell ticket: the ticket is done, its copies leave
    /// the shelf, and the ledger gains its price.
    pub open spec fn pay_sell(self, id: int, now: Timestamp) -> (
        StoreState,
        Result<GetOrderView, AErrorView>,
    ) {
        match workflow::spec_pay_sell(self.find_order(id), self.book_of_order(id), now) {
            Err(e) => (self, Err(e)),
            Ok((order, book, payment)) => if self.transactions.len() >= i64::MAX {
                (self, Err(transaction_id_exhausted()))
            } else {
                (
                    self.with_order(order).with_book(book).with_transaction(payment),
                    Ok(order.shown()),
                )
            },
        }
    }

    /// Revokes a pending ticket of type `typ`. Nothing else changes.
    pub open spec fn revoke(self, id: int, typ: TicketType, now: Timestamp) -> (
        StoreState,
        Result<GetOrderView, AErrorView>,
    ) {
        match workflow::spec_revoke(self.find_order(id), typ, now) {
            Err(e) => (self, Err(e)),
            Ok(order) => (self.with_order(order), Ok(order.shown())),
        }
    }

    /// Revokes a pending sell ticket.
    pub open spec fn revoke_sell(self, id: int, now: Timestamp) -> (
        StoreState,
        Result<GetOrderView, AErrorView>,
    ) {
        self.revoke(id, TicketType::Sell, now)
    }

    /// Revokes a pending stock ticket.
    pub open spec fn revoke_stock(self, id: int, now: Timestamp) -> (
        StoreState,
        Result<GetOrderView, AErrorView>,
    ) {
        self.revoke(id, TicketType::Stock, now)
    }

    /// Pays a pending stock ticket: the ticket is paid, and the ledger
    /// loses its price. The books are not there yet.
    pub open spec fn pay_stock(self, id: int, now: Timestamp) -> (
        StoreState,
        Result<GetOrderView, AErrorView>,
    ) {
        match workflow::spec_pay_stock(self.find_order(id), now) {
            Err(e) => (self, Err(e)),
            Ok((order, payment)) => if self.transactions.len() >= i64::MAX {
                (self, Err(transaction_id_exhausted()))
            } else {
                (self.with_order(order).with_transaction(payment), Ok(order.shown()))
            },
        }
    }

    /// Confirms a paid stock ticket: the ticket is done, and its copies
    /// are in the warehouse.
    pub open spec fn confirm_stock(self, id: int, now: Timestamp) -> (
        StoreState,
        Result<GetOrderView, AErrorView>,
    ) {
        match workflow::spec_confirm_stock(self.find_order(id), self.book_of_order(id), now) {
            Err(e) => (self, Err(e)),
            Ok((order, book)) => (self.with_order(order).with_book(book), Ok(order.shown())),
        }
    }
}

/// The rule that picks the tickets of type `typ`.
pub open spec fn is_of_type(typ: TicketType) -> spec_fn(order_list::ModelView) -> bool {
    |order: order_list::ModelView| order.typ == typ
}

/// The rows as contracts speak of them.
pub open spec fn shown_orders(rows: Seq<GetOrder>) -> Seq<GetOrderView> {
    rows.map_values(|order: GetOrder| order@)
}

/// The outcome `r` as contracts speak of it: rows and failures by what
/// they stand for.
pub open spec fn shown_view(r: Result<GetOrder, AError>) -> Result<GetOrderView, AErrorView> {
    match r {
        Ok(order) => Ok(order@),
        Err(e) => Err(e@),
    }
}

/// In a table without two books of one key, the book found at a position
/// is the book of its key.
pub proof fn lemma_book_index(s: StoreState, i: int)
    requires
        s.books_wf(),
        0 <= i < s.books.len(),
    ensures
        s.has_book(s.books[i].isbn),
        s.book_index(s.books[i].isbn) == i,
        s.book(s.books[i].isbn) == s.books[i],
{
    let isbn = s.books[i].isbn;
    assert(s.is_book_at(i, isbn));
    let j = s.book_index(isbn);
    assert(s.is_book_at(j, isbn));
    if i < j {
        assert(s.books[i].isbn != s.books[j].isbn);
    } else if j < i {
        assert(s.books[j].isbn != s.books[i].isbn);
    }
}

impl Store {
    /// Whether the tables are valid, so that any operation may be asked of
    /// the store.
    pub open spec fn wf(&self) -> bool {
        self@.wf()
    }

    /// A store without a book, a ticket or a ledger entry.
    pub fn new() -> (db: Store)
        ensures
            db@ == StoreState::empty(),
            db.wf(),
    {
        let db = Store { books: Vec::new(), orders: Vec::new(), transactions: Vec::new() };
        assert(db@.books =~= Seq::empty());
        assert(db@.orders =~= Seq::empty());
        assert(db@.transactions =~= Seq::empty());
        db
    }

    /// Whether the book at position `i` has a key of its own among the
    /// books after it.
    fn key_is_new(&self, i: usize) -> (r: bool)
        requires
            i < self.books.len(),
        ensures
            r == forall|j: int|
                i < j < self.books.len() ==> self@.books[i as int].isbn != (
                #[trigger] self@.books[j]).isbn,
    {
        let mut j: usize = i + 1;
        while j < self.books.len()
            invariant
                i < j <= self.books.len(),
                forall|k: int|
                    i < k < j ==> self@.books[i as int].isbn != (#[trigger] self@.books[k]).isbn,
            decreases self.books.len() - j,
        {
            if self.books[i].isbn == self.books[j].isbn {
                assert(self@.books[i as int].isbn == self@.books[j as int].isbn);
                return false;
            }
            j += 1;
        }
        true
    }

    /// Whether no counter of a book is negative and no two books share a
    /// key.
    fn books_are_valid(&self) -> (r: bool)
        ensures
            r == self@.books_wf(),
    {
        let mut i: usize = 0;
        while i < self.books.len()
            invariant
                i <= self.books.len(),
                forall|k: int| 0 <= k < i ==> (#[trigger] self@.books[k]).wf(),
                forall|k: int, j: int|
                    0 <= k < i && k < j < self.books.len() ==> (#[trigger] self@.books[k]).isbn != (
                    #[trigger] self@.books[j]).isbn,
            decreases self.books.len() - i,
        {
            if self.books[i].inventory_count < 0 || self.books[i].on_shelf_count < 0 {
                assert(!self@.books[i as int].wf());
                return false;
            }
            if !self.key_is_new(i) {
                return false;
            }
            i += 1;
        }
        true
    }

    /// Whether the tickets are numbered from 1 without a gap and each is
    /// for at least one copy.
    fn orders_are_valid(&self) -> (r: bool)
        ensures
            r == self@.orders_wf(),
    {
        if self.orders.len() > i32::MAX as usize {
            return false;
        }
        let mut i: usize = 0;
        while i < self.orders.len()
            invariant
                i <= self.orders.len() <= i32::MAX,
                forall|k: int|
                    0 <= k < i ==> (#[trigger] self@.orders[k]).id == k + 1
                        && self@.orders[k].total_count > 0,
            decreases self.orders.len() - i,
        {
            if self.orders[i].id as i64 != i as i64 + 1 || self.orders[i].total_count <= 0 {
                assert(!(self@.orders[i as int].id == i + 1 && self@.orders[i as int].total_count
                    > 0));
                return false;
            }
            i += 1;
        }
        true
    }

    /// Whether the ledger entry at position `k` is the only one of its
    /// ticket among the entries after it.
    fn entry_is_single(&self, k: usize) -> (r: bool)
        requires
            k < self.transactions.len(),
        ensures
            r == forall|l: int|
                k < l < self.transactions.len() ==> self@.transactions[k as int].ticket_id != (
                #[trigger] self@.transactions[l]).ticket_id,
    {
        let mut l: usize = k + 1;
        while l < self.transactions.len()
            invariant
                k < l <= self.transactions.len(),
                forall|m: int|
                    k < m < l ==> self@.transactions[k as int].ticket_id != (
                    #[trigger] self@.transactions[m]).ticket_id,
            decreases self.transactions.len() - l,
        {
            if self.transactions[k].ticket_id == self.transactions[l].ticket_id {
                assert(self@.transactions[k as int].ticket_id
                    == self@.transactions[l as int].ticket_id);
                return false;
            }
            l += 1;
        }
        true
    }

    /// Whether the ledger holds an entry for the ticket `id`.
    fn has_entry(&self, id: i32) -> (r: bool)
        ensures
            r == self@.has_entry(id as int),
    {
        let mut k: usize = 0;
        while k < self.transactions.len()
            invariant
                k <= self.transactions.len(),
                forall|m: int| 0 <= m < k ==> !entry_is_of(self@.transactions, m, id as int),
            decreases self.transactions.len() - k,
        {
            if self.transactions[k].ticket_id == id {
                assert(entry_is_of(self@.transactions, k as int, id as int));
                return true;
            }
            k += 1;
        }
        false
    }

    /// Whether every entry of the ledger is numbered by its place and
    /// records the payment of a paid ticket, with its signed price, and
    /// no ticket has two entries.
    fn entries_are_valid(&self) -> (r: bool)
        ensures
            r == {
                &&& self@.transactions.len() <= i64::MAX
                &&& forall|k: int|
                    0 <= k < self@.transactions.len() ==> {
                        let entry = #[trigger] self@.transactions[k];
                        &&& entry.id == k + 1
                        &&& self@.has_order(entry.ticket_id)
                        &&& self@.order(entry.ticket_id).is_paid()
                        &&& entry.total_price == self@.order(entry.ticket_id).signed_price()
                    }
                &&& forall|k: int, l: int|
                    0 <= k < l < self@.transactions.len() ==> (
                    #[trigger] self@.transactions[k]).ticket_id != (
                    #[trigger] self@.transactions[l]).ticket_id
            },
    {
        if self.transactions.len() as u64 > i64::MAX as u64 {
            return false;
        }
        let mut k: usize = 0;
        while k < self.transactions.len()
            invariant
                k <= self.transactions.len() <= i64::MAX,
                forall|m: int|
                    0 <= m < k ==> {
                        let entry = #[trigger] self@.transactions[m];
                        &&& entry.id == m + 1
                        &&& self@.has_order(entry.ticket_id)
                        &&& self@.order(entry.ticket_id).is_paid()
                        &&& entry.total_price == self@.order(entry.ticket_id).signed_price()
                    },
                forall|m: int, l: int|
                    0 <= m < k && m < l < self@.transactions.len() ==> (
                    #[trigger] self@.transactions[m]).ticket_id != (
                    #[trigger] self@.transactions[l]).ticket_id,
            decreases self.transactions.len() - k,
        {
            let entry = &self.transactions[k];
            let ghost row = self@.transactions[k as int];
            if entry.id != k as i64 + 1 {
                assert(!(row.id == k + 1));
                return false;
            }
            match self.find_order(entry.ticket_id) {
                None => {
                    assert(!self@.has_order(row.ticket_id));
                    return false;
                },
                Some(i) => {
                    let order = &self.orders[i];
                    if !order.is_paid() || entry.total_price != order.typ.signed(order.total_price) {
                        assert(!(self@.order(row.ticket_id).is_paid() && row.total_price
                            == self@.order(row.ticket_id).signed_price()));
                        return false;
                    }
                },
            }
            if !self.entry_is_single(k) {
                return false;
            }
            k += 1;
        }
        true
    }

    /// Whether every paid ticket has an entry in the ledger.
    fn payments_are_recorded(&self) -> (r: bool)
        requires
            self.orders.len() <= i32::MAX,
        ensures
            r == forall|i: int|
                0 <= i < self@.orders.len() && (#[trigger] self@.orders[i]).is_paid()
                    ==> self@.has_entry(i + 1),
    {
        let mut i: usize = 0;
        while i < self.orders.len()
            invariant
                i <= self.orders.len() <= i32::MAX,
                forall|k: int|
                    0 <= k < i && (#[trigger] self@.orders[k]).is_paid() ==> self@.has_entry(k + 1),
            decreases self.orders.len() - i,
        {
            if self.orders[i].is_paid() && !self.has_entry((i + 1) as i32) {
                assert(self@.orders[i as int].is_paid() && !self@.has_entry(i + 1));
                return false;
            }
            i += 1;
        }
        true
    }

    /// Whether the tables are valid: whether any operation may be asked
    /// of the store as it is.
    pub fn is_valid(&self) -> (r: bool)
        ensures
            r == self.wf(),
    {
        self.books_are_valid() && self.orders_are_valid() && self.entries_are_valid()
            && self.payments_are_recorded()
    }

    /// Writes `row` back in the place of the ticket at position `i`.
    pub(crate) fn save_order(&mut self, i: usize, row: order_list::Model)
        requires
            i < old(self).orders.len(),
            row@.id == i + 1,
        ensures
            final(self)@ == old(self)@.with_order(row@),
    {
        self.orders.set(i, row);
        assert(self@.orders =~= old(self)@.orders.update(i as int, row@));
    }

    /// Writes `row` back in the place of the book at position `i`.
    pub(crate) fn save_book(&mut self, i: usize, row: book::Model)
        requires
            i < old(self).books.len(),
            i == old(self)@.book_index(row@.isbn),
        ensures
            final(self)@ == old(self)@.with_book(row@),
    {
        self.books.set(i, row);
        assert(self@.books =~= old(self)@.books.update(i as int, row@));
    }

    /// Appends `row` to the table of books.
    pub(crate) fn insert_book(&mut self, row: book::Model)
        ensures
            final(self)@ == (StoreState { books: old(self)@.books.push(row@), ..old(self)@ }),
    {
        self.books.push(row);
        assert(self@.books =~= old(self)@.books.push(row@));
    }

    /// Appends `order` to the table of tickets under the next key, and
    /// returns the row as it was written.
    pub(crate) fn insert_order(&mut self, order: order_list::ActiveModel) -> (row: order_list::Model)
        requires
            old(self).orders.len() < i32::MAX,
        ensures
            final(self)@ == old(self)@.with_new_order(order@),
            row@ == order@.into_model(old(self)@.orders.len() as int + 1),
    {
        let id: i32 = (self.orders.len() + 1) as i32;
        let row = order.into_model(id);
        let written = row.duplicate();
        self.orders.push(row);
        assert(self@.orders =~= old(self)@.orders.push(written@));
        written
    }

    /// Appends `entry` to the ledger under the next key.
    pub(crate) fn insert_transaction(&mut self, entry: transaction::ActiveModel)
        requires
            old(self).transactions.len() < i64::MAX,
        ensures
            final(self)@ == old(self)@.with_transaction(entry@),
    {
        let id: i64 = (self.transactions.len() as u64 + 1) as i64;
        let row = entry.into_model(id);
        self.transactions.push(row);
        assert(self@.transactions =~= old(self)@.transactions.push(
            entry@.into_model(old(self)@.transactions.len() as int + 1),
        ));
    }

    /// The position of the book `isbn` in the table, if it is there.
    pub fn find_book(&self, isbn: &String) -> (found: Option<usize>)
        requires
            self@.books_wf(),
        ensures
            found is Some <==> self@.has_book(isbn@),
            found matches Some(i) ==> i as int == self@.book_index(isbn@) && i < self.books.len(),
    {
        let mut i: usize = 0;
        while i < self.books.len()
            invariant
                i <= self.books.len(),
                self@.books_wf(),
                forall|j: int| 0 <= j < i ==> !book_is_at(self@.books, j, isbn@),
            decreases self.books.len() - i,
        {
            if self.books[i].isbn == *isbn {
                proof {
                    lemma_book_index(self@, i as int);
                }
                return Some(i);
            }
            i += 1;
        }
        None
    }

    /// A copy of the book `isbn`, if the store has it.
    pub fn book(&self, isbn: &String) -> (found: Option<book::Model>)
        requires
            self@.books_wf(),
        ensures
            workflow::book_view(found) == self@.find_book(isbn@),
    {
        match self.find_book(isbn) {
            Some(i) => Some(self.books[i].duplicate()),
            None => None,
        }
    }

    /// A copy of the ticket `id`, if the store has it.
    pub fn order(&self, id: i32) -> (found: Option<order_list::Model>)
        ensures
            workflow::order_view(found) == self@.find_order(id as int),
    {
        match self.find_order(id) {
            Some(i) => Some(self.orders[i].duplicate()),
            None => None,
        }
    }

    /// The position of the ticket `id` in the table, if it is there.
    pub fn find_order(&self, id: i32) -> (found: Option<usize>)
        ensures
            found is Some <==> self@.has_order(id as int),
            found matches Some(i) ==> i as int == id - 1 && i < self.orders.len(),
    {
        if id >= 1 && id as usize <= self.orders.len() {
            Some((id - 1) as usize)
        } else {
            None
        }
    }
}

} // verus!
