//! What a report covers, and the figures it shows.

use vstd::prelude::*;
use vstd::string::StringExecFns;

use crate::clock::Timestamp;

use crate::api::books::book_views;
use crate::api::lemma_filter_none;
use crate::api::lemma_filter_step;
use crate::api::spec_min;
use crate::clock::now;
use crate::constants::user_type::SUPER_ADMIN;
use crate::entity::TicketStatus;
use crate::entity::TicketType;
use crate::entity::book;
use crate::entity::order_list;
use crate::entity::user;
use crate::store::Store;
use crate::store::StoreState;
use crate::utils::errors::AError;
use crate::utils::errors::AErrorView;
use crate::utils::errors::StatusCode;
use crate::utils::errors::internal_server_error;
use crate::utils::errors::spec_error;

verus! {

/// How far back a report looks.
#[derive(Debug, Clone, Copy, PartialEq, Eq, Structural)]
pub enum StatSpan {
    Day,
    Week,
    Month,
    All,
}

/// Which tickets a figure of a report counts: those of one type, in one
/// status where one is named, opened by one user where one is named, and
/// opened fewer than so many whole days ago where a number is named.
#[derive(Debug, Clone, Copy, PartialEq, Eq)]
pub struct OrderQuery {
    pub typ: TicketType,
    pub status: Option<TicketStatus>,
    pub operator_id: Option<i32>,
    pub days: Option<i64>,
}

impl OrderQuery {
    /// Every ticket of type `typ`.
    pub fn find(typ: TicketType) -> (query: OrderQuery)
        ensures
            query == (OrderQuery { typ, status: None, operator_id: None, days: None }),
    {
        OrderQuery { typ, status: None, operator_id: None, days: None }
    }

    /// The same tickets, of those in the status `status` only.
    pub fn filter_status(self, status: TicketStatus) -> (query: OrderQuery)
        ensures
            query == (OrderQuery { status: Some(status), ..self }),
    {
        OrderQuery { typ: self.typ, status: Some(status), operator_id: self.operator_id, days: self.days }
    }

    /// Whether the figure counts the ticket `order` at the time `now`.
    pub open spec fn spec_matches(self, order: order_list::ModelView, now: Timestamp) -> bool {
        &&& order.typ == self.typ
        &&& self.status matches Some(status) ==> order.status == status
        &&& self.operator_id matches Some(id) ==> order.operator_id == id
        &&& self.days matches Some(days) ==> now.spec_days_since(order.created_at) < days
    }

    /// Whether the figure counts the ticket `order` at the time `now`.
    pub fn matches(&self, order: &order_list::Model, now: &Timestamp) -> (r: bool)
        ensures
            r == self.spec_matches(order@, *now),
    {
        let of_status = match self.status {
            Some(status) => order.status == status,
            None => true,
        };
        let of_operator = match self.operator_id {
            Some(id) => order.operator_id == id,
            None => true,
        };
        let recent = match self.days {
            Some(days) => now.days_since(order.created_at) < days,
            None => true,
        };
        order.typ == self.typ && of_status && of_operator && recent
    }
}

/// The copies on the tickets among `orders` that `query` counts at `now`.
pub open spec fn total_count(
    orders: Seq<order_list::ModelView>,
    query: OrderQuery,
    now: Timestamp,
) -> int
    decreases orders.len(),
{
    if orders.len() == 0 {
        0
    } else {
        total_count(orders.drop_last(), query, now) + if query.spec_matches(orders.last(), now) {
            orders.last().total_count
        } else {
            0
        }
    }
}

/// The number of tickets among `orders` that `query` counts at `now`.
pub open spec fn matching(
    orders: Seq<order_list::ModelView>,
    query: OrderQuery,
    now: Timestamp,
) -> int
    decreases orders.len(),
{
    if orders.len() == 0 {
        0
    } else {
        matching(orders.drop_last(), query, now) + if query.spec_matches(orders.last(), now) {
            1int
        } else {
            0int
        }
    }
}

/// The copies in the warehouse, over all of `books`.
pub open spec fn total_inventory(books: Seq<book::ModelView>) -> int
    decreases books.len(),
{
    if books.len() == 0 {
        0
    } else {
        total_inventory(books.drop_last()) + books.last().inventory_count
    }
}

/// What is reported where a figure does not fit.
pub open spec fn out_of_range() -> AErrorView {
    spec_error(StatusCode::InternalServerError, "Total count is out of range"@)
}

/// What is reported where a figure has no ticket to count.
pub open spec fn nothing_to_count() -> AErrorView {
    spec_error(StatusCode::InternalServerError, "Nothing to count"@)
}

/// The figure `total` as a report shows it: a number of 32 bits, or a
/// failure where it does not fit.
pub open spec fn spec_figure(total: int) -> Result<i32, AErrorView> {
    if i32::MIN <= total <= i32::MAX {
        Ok(total as i32)
    } else {
        Err(out_of_range())
    }
}

/// The outcome `r` as contracts speak of it: rows and failures by what
/// they stand for.
pub open spec fn figure_view(r: Result<i32, AError>) -> Result<i32, AErrorView> {
    match r {
        Ok(n) => Ok(n),
        Err(e) => Err(e@),
    }
}

/// The figure that a report shows for the sum `total` as the database
/// gives it: a number of 32 bits; a failure where it does not fit, and
/// where there was nothing to add up and the database gives no sum.
pub open spec fn spec_figure_of(total: Option<i64>) -> Result<i32, AErrorView> {
    match total {
        Some(total) => spec_figure(total as int),
        None => Err(nothing_to_count()),
    }
}

/// The figure that a report shows for the sum `total` as the database
/// gives it. Fails where the sum does not fit in 32 bits, and where
/// there was nothing to add up.
pub fn figure_of(total: Option<i64>) -> (r: Result<i32, AError>)
    ensures
        figure_view(r) == spec_figure_of(total),
{
    match total {
        Some(total) => figure(total as i128),
        None => Err(internal_server_error("Nothing to count")),
    }
}

/// The figure that a report shows for the sum `total` as the database
/// gives it, where nothing to add up counts as zero. Fails where the sum
/// does not fit in 32 bits.
pub fn figure_or_zero(total: Option<i64>) -> (r: Result<i32, AError>)
    ensures
        figure_view(r) == spec_figure(
            match total {
                Some(total) => total as int,
                None => 0,
            },
        ),
{
    match total {
        Some(total) => figure(total as i128),
        None => Ok(0),
    }
}

fn figure(total: i128) -> (r: Result<i32, AError>)
    ensures
        figure_view(r) == spec_figure(total as int),
{
    if total < i32::MIN as i128 || total > i32::MAX as i128 {
        Err(internal_server_error("Total count is out of range"))
    } else {
        Ok(total as i32)
    }
}

/// Adds up the copies on the tickets that `query` counts at `now`, and
/// counts those tickets.
fn sum_counts(query: &OrderQuery, now: &Timestamp, db: &Store) -> (r: (i128, usize))
    ensures
        r.0 == total_count(db@.orders, *query, *now),
        r.1 == matching(db@.orders, *query, *now),
{
    let mut total: i128 = 0;
    let mut rows: usize = 0;
    let mut i: usize = 0;
    assert(db@.orders.take(0) =~= Seq::empty());
    while i < db.orders.len()
        invariant
            i <= db.orders.len(),
            total == total_count(db@.orders.take(i as int), *query, *now),
            rows == matching(db@.orders.take(i as int), *query, *now),
            rows <= i,
            -0x8000_0000 * i <= total <= 0x8000_0000 * i,
        decreases db.orders.len() - i,
    {
        assert(db@.orders.take(i + 1).drop_last() =~= db@.orders.take(i as int));
        if query.matches(&db.orders[i], now) {
            total = total + db.orders[i].total_count as i128;
            rows = rows + 1;
        }
        i += 1;
    }
    assert(db@.orders.take(i as int) =~= db@.orders);
    (total, rows)
}

impl StatSpan {
    /// The tickets of `query` that the report looks back on.
    pub fn with_constraint(&self, query: OrderQuery) -> (limited: OrderQuery)
        ensures
            limited == (OrderQuery { days: self.spec_days(), ..query }),
    {
        OrderQuery {
            typ: query.typ,
            status: query.status,
            operator_id: query.operator_id,
            days: self.days(),
        }
    }

    /// The number of days that the report looks back, where it is limited.
    pub open spec fn spec_days(&self) -> Option<i64> {
        match self {
            StatSpan::Day => Some(1i64),
            StatSpan::Week => Some(7i64),
            StatSpan::Month => Some(30i64),
            StatSpan::All => None,
        }
    }

    /// The number of days that the report looks back, where it is
    /// limited at all: a week has 7, a month 30.
    #[verifier::when_used_as_spec(spec_days)]
    pub fn days(&self) -> (days: Option<i64>)
        ensures
            days == self.spec_days(),
    {
        match self {
            StatSpan::Day => Some(1),
            StatSpan::Week => Some(7),
            StatSpan::Month => Some(30),
            StatSpan::All => None,
        }
    }
}

/// What a report is asked to cover.
#[derive(Debug, Clone, Copy, PartialEq, Eq)]
pub struct StatOption {
    pub span: StatSpan,
    /// Whether to cover the tickets of every user. Only a super
    /// administrator is heard on this.
    pub all: Option<bool>,
}

impl StatOption {
    /// Whether the report covers the tickets of `user` alone.
    pub open spec fn spec_should_filter_user(self, user: user::ModelView) -> bool {
        !(self.all == Some(true)) || user.role != SUPER_ADMIN@
    }

    /// The tickets of type `typ` that the report covers when `user` asks
    /// for it.
    pub open spec fn query(self, typ: TicketType, user: user::ModelView) -> OrderQuery {
        OrderQuery {
            typ,
            status: None,
            operator_id: if self.spec_should_filter_user(user) {
                Some(user.id as i32)
            } else {
                None
            },
            days: self.span.spec_days(),
        }
    }

    /// The tickets of `query` that the report covers when `user` asks for
    /// it: those that it looks back on, of `user` alone unless `user` may
    /// and does ask for all.
    pub fn with_constraint(&self, query: OrderQuery, user: &user::Model) -> (limited: OrderQuery)
        ensures
            limited == (OrderQuery {
                days: self.span.spec_days(),
                operator_id: if self.spec_should_filter_user(user@) {
                    Some(user.id)
                } else {
                    query.operator_id
                },
                ..query
            }),
    {
        let query = self.span.with_constraint(query);
        if self.should_filter_user(user) {
            OrderQuery {
                typ: query.typ,
                status: query.status,
                operator_id: Some(user.id),
                days: query.days,
            }
        } else {
            query
        }
    }

    /// Whether the report covers the tickets of `user` alone: it does,
    /// unless `user` is a super administrator and asked for all.
    pub fn should_filter_user(&self, user: &user::Model) -> (r: bool)
        ensures
            r == self.spec_should_filter_user(user@),
    {
        !self.all.unwrap_or(false) || user.role != String::from_str(SUPER_ADMIN)
    }
}

/// Copies bought in: all of them, and those paid but not yet confirmed.
#[derive(Debug, Clone, Copy, PartialEq, Eq, Structural)]
pub struct StatStock {
    pub total_stock_count: i32,
    pub total_waiting_for_confirm_count: i32,
}

/// Copies sold: on all sell tickets, and on those that are done.
#[derive(Debug, Clone, Copy, PartialEq, Eq, Structural)]
pub struct StatSell {
    pub total_sell_count: i32,
    pub total_done_count: i32,
}

/// The books of the store: the copies in the warehouse, and the number
/// of titles.
#[derive(Debug, Clone, Copy, PartialEq, Eq, Structural)]
pub struct StatBook {
    pub total_inventory_count: i32,
    pub total_book_count: i32,
}

impl StoreState {
    /// The report on the books.
    pub open spec fn stat_book(self) -> Result<StatBook, AErrorView> {
        match spec_figure(total_inventory(self.books)) {
            Err(e) => Err(e),
            Ok(total_inventory_count) => match spec_figure(self.books.len() as int) {
                Err(e) => Err(e),
                Ok(total_book_count) => Ok(StatBook { total_inventory_count, total_book_count }),
            },
        }
    }

    /// The report on what was sold: the copies on the tickets that `query`
    /// counts, and on those of them that are done.
    pub open spec fn stat_sell(self, query: OrderQuery, now: Timestamp) -> Result<
        StatSell,
        AErrorView,
    > {
        let done = OrderQuery { status: Some(TicketStatus::Done), ..query };
        match spec_figure(total_count(self.orders, query, now)) {
            Err(e) => Err(e),
            Ok(total_sell_count) => match spec_figure(total_count(self.orders, done, now)) {
                Err(e) => Err(e),
                Ok(total_done_count) => Ok(StatSell { total_sell_count, total_done_count }),
            },
        }
    }

    /// The report on what was bought in. There is no report where there
    /// is nothing to count.
    pub open spec fn stat_stock(self, query: OrderQuery, now: Timestamp) -> Result<
        StatStock,
        AErrorView,
    > {
        let waiting = OrderQuery { status: Some(TicketStatus::StockPaid), ..query };
        if matching(self.orders, query, now) == 0 {
            Err(nothing_to_count())
        } else {
            match spec_figure(total_count(self.orders, query, now)) {
                Err(e) => Err(e),
                Ok(total_stock_count) => if matching(self.orders, waiting, now) == 0 {
                    Err(nothing_to_count())
                } else {
                    match spec_figure(total_count(self.orders, waiting, now)) {
                        Err(e) => Err(e),
                        Ok(total_waiting_for_confirm_count) => Ok(
                            StatStock { total_stock_count, total_waiting_for_confirm_count },
                        ),
                    }
                },
            }
        }
    }
}

/// The outcome `r` as contracts speak of it: rows and failures by what
/// they stand for.
pub open spec fn stat_view<T>(r: Result<T, AError>) -> Result<T, AErrorView> {
    match r {
        Ok(stat) => Ok(stat),
        Err(e) => Err(e@),
    }
}

/// The report on the books: the copies in the warehouse over all books,
/// and the number of books. Fails where a figure does not fit in 32
/// bits.
pub fn stat_book(db: &Store) -> (r: Result<StatBook, AError>)
    ensures
        stat_view(r) == db@.stat_book(),
{
    let mut total: i128 = 0;
    let mut i: usize = 0;
    assert(db@.books.take(0) =~= Seq::empty());
    while i < db.books.len()
        invariant
            i <= db.books.len(),
            total == total_inventory(db@.books.take(i as int)),
            -0x8000_0000 * i <= total <= 0x8000_0000 * i,
        decreases db.books.len() - i,
    {
        assert(db@.books.take(i + 1).drop_last() =~= db@.books.take(i as int));
        total = total + db.books[i].inventory_count as i128;
        i += 1;
    }
    assert(db@.books.take(i as int) =~= db@.books);
    let total_inventory_count = match figure(total) {
        Ok(n) => n,
        Err(e) => {
            return Err(e);
        },
    };
    let total_book_count = match figure(db.books.len() as i128) {
        Ok(n) => n,
        Err(e) => {
            return Err(e);
        },
    };
    Ok(StatBook { total_inventory_count, total_book_count })
}

/// The report on what was sold, as `param` asks for it and `user` may
/// see it at the time `now`: the copies on all sell tickets, and on
/// those that are done. Fails where a figure does not fit in 32 bits.
pub fn stat_sell_at(param: &StatOption, user: &user::Model, now: &Timestamp, db: &Store) -> (r:
    Result<StatSell, AError>)
    ensures
        stat_view(r) == db@.stat_sell(
            param.query(TicketType::Sell, user@),
            *now,
        ),
{
    let query = param.with_constraint(OrderQuery::find(TicketType::Sell), user);
    let (all, _) = sum_counts(&query, now, db);
    let total_sell_count = match figure(all) {
        Ok(n) => n,
        Err(e) => {
            return Err(e);
        },
    };
    let (done, _) = sum_counts(&query.filter_status(TicketStatus::Done), now, db);
    let total_done_count = match figure(done) {
        Ok(n) => n,
        Err(e) => {
            return Err(e);
        },
    };
    Ok(StatSell { total_sell_count, total_done_count })
}

/// The report on what was bought in, as `param` asks for it and `user`
/// may see it at the time `now`: the copies on all stock tickets, and on
/// those that are paid and wait to be confirmed. Fails where there is no
/// ticket to count for a figure, or a figure does not fit in 32 bits.
pub fn stat_stock_at(param: &StatOption, user: &user::Model, now: &Timestamp, db: &Store) -> (r:
    Result<StatStock, AError>)
    ensures
        stat_view(r) == db@.stat_stock(
            param.query(TicketType::Stock, user@),
            *now,
        ),
{
    let query = param.with_constraint(OrderQuery::find(TicketType::Stock), user);
    let (all, rows) = sum_counts(&query, now, db);
    if rows == 0 {
        return Err(internal_server_error("Nothing to count"));
    }
    let total_stock_count = match figure(all) {
        Ok(n) => n,
        Err(e) => {
            return Err(e);
        },
    };
    let (waiting, rows) = sum_counts(&query.filter_status(TicketStatus::StockPaid), now, db);
    if rows == 0 {
        return Err(internal_server_error("Nothing to count"));
    }
    let total_waiting_for_confirm_count = match figure(waiting) {
        Ok(n) => n,
        Err(e) => {
            return Err(e);
        },
    };
    Ok(StatStock { total_stock_count, total_waiting_for_confirm_count })
}

/// The report on what was sold, as of now.
pub fn stat_sell(param: &StatOption, user: &user::Model, db: &Store) -> (r: Result<StatSell, AError>)
    ensures
        exists|t: Timestamp|
            stat_view(r) == #[trigger] db@.stat_sell(
                param.query(TicketType::Sell, user@),
                t,
            ),
{
    let t = now();
    stat_sell_at(param, user, &t, db)
}

/// The report on what was bought in, as of now.
pub fn stat_stock(param: &StatOption, user: &user::Model, db: &Store) -> (r: Result<
    StatStock,
    AError,
>)
    ensures
        exists|t: Timestamp|
            stat_view(r) == #[trigger] db@.stat_stock(
                param.query(TicketType::Stock, user@),
                t,
            ),
{
    let t = now();
    stat_stock_at(param, user, &t, db)
}

/// What was paid: taken in on sell tickets, and spent on stock tickets.
/// Both are amounts of the smallest unit of the currency, and neither
/// carries a sign.
#[derive(Debug, Clone, Copy, PartialEq, Eq, Structural)]
pub struct StatTransaction {
    pub total_sell_price: u64,
    pub total_stock_paid_price: u64,
}

/// Whether the report `query` counts the ledger entry `entry` at `now`:
/// the entry was written in the days that the report looks back on, and
/// its ticket is there and is one of those that the report covers,
/// whatever the status of the ticket.
pub open spec fn counts_entry(
    entry: crate::entity::transaction::ModelView,
    orders: Seq<order_list::ModelView>,
    query: OrderQuery,
    now: Timestamp,
) -> bool {
    let order = orders[entry.ticket_id - 1];
    &&& 1 <= entry.ticket_id <= orders.len()
    &&& order.typ == query.typ
    &&& query.operator_id matches Some(id) ==> order.operator_id == id
    &&& query.days matches Some(days) ==> now.spec_days_since(entry.created_at) < days
}

/// The prices of the tickets whose payments, among `entries`, the report
/// `query` counts at `now`.
pub open spec fn total_paid(
    entries: Seq<crate::entity::transaction::ModelView>,
    orders: Seq<order_list::ModelView>,
    query: OrderQuery,
    now: Timestamp,
) -> int
    decreases entries.len(),
{
    if entries.len() == 0 {
        0
    } else {
        total_paid(entries.drop_last(), orders, query, now) + if counts_entry(
            entries.last(),
            orders,
            query,
            now,
        ) {
            orders[entries.last().ticket_id - 1].total_price
        } else {
            0
        }
    }
}

/// The sum `total` as a report shows it: a number of 64 bits without a
/// sign, or a failure where it does not fit.
pub open spec fn spec_amount(total: int) -> Result<u64, AErrorView> {
    if 0 <= total <= u64::MAX {
        Ok(total as u64)
    } else {
        Err(spec_error(StatusCode::InternalServerError, "Total price is out of range"@))
    }
}

/// The outcome `r` as contracts speak of it: rows and failures by what
/// they stand for.
pub open spec fn amount_view(r: Result<u64, AError>) -> Result<u64, AErrorView> {
    match r {
        Ok(n) => Ok(n),
        Err(e) => Err(e@),
    }
}

/// Adds up the prices of the tickets whose payments `query` counts at
/// `now`.
fn sum_paid(query: &OrderQuery, now: &Timestamp, db: &Store) -> (r: Result<u64, AError>)
    ensures
        amount_view(r) == spec_amount(total_paid(db@.transactions, db@.orders, *query, *now)),
{
    let mut total: u128 = 0;
    let mut i: usize = 0;
    assert(db@.transactions.take(0) =~= Seq::empty());
    while i < db.transactions.len()
        invariant
            i <= db.transactions.len(),
            total == total_paid(db@.transactions.take(i as int), db@.orders, *query, *now),
            0 <= total <= 0x1_0000_0000 * i,
        decreases db.transactions.len() - i,
    {
        assert(db@.transactions.take(i + 1).drop_last() =~= db@.transactions.take(i as int));
        let entry = &db.transactions[i];
        match db.find_order(entry.ticket_id) {
            Some(at) => {
                let order = &db.orders[at];
                let of_operator = match query.operator_id {
                    Some(id) => order.operator_id == id,
                    None => true,
                };
                let recent = match query.days {
                    Some(days) => now.days_since(entry.created_at) < days,
                    None => true,
                };
                if order.typ == query.typ && of_operator && recent {
                    total = total + order.total_price as u128;
                }
            },
            None => {},
        }
        i += 1;
    }
    assert(db@.transactions.take(i as int) =~= db@.transactions);
    if total > u64::MAX as u128 {
        Err(internal_server_error("Total price is out of range"))
    } else {
        Ok(total as u64)
    }
}

impl StoreState {
    /// The report on what was paid.
    pub open spec fn stat_transaction(self, sold: OrderQuery, bought: OrderQuery, now: Timestamp) -> Result<
        StatTransaction,
        AErrorView,
    > {
        match spec_amount(total_paid(self.transactions, self.orders, sold, now)) {
            Err(e) => Err(e),
            Ok(total_sell_price) => match spec_amount(
                total_paid(self.transactions, self.orders, bought, now),
            ) {
                Err(e) => Err(e),
                Ok(total_stock_paid_price) => Ok(
                    StatTransaction { total_sell_price, total_stock_paid_price },
                ),
            },
        }
    }
}

/// The report on what was paid, as `param` asks for it and `user` may see
/// it at the time `now`: the prices of the sell tickets and of the stock
/// tickets whose payments fall in the days that the report looks back
/// on. Fails where a sum does not fit in 64 bits.
pub fn stat_transaction_at(
    param: &StatOption,
    user: &user::Model,
    now: &Timestamp,
    db: &Store,
) -> (r: Result<StatTransaction, AError>)
    ensures
        stat_view(r) == db@.stat_transaction(
            param.query(TicketType::Sell, user@),
            param.query(TicketType::Stock, user@),
            *now,
        ),
{
    let sold = param.with_constraint(OrderQuery::find(TicketType::Sell), user);
    let total_sell_price = match sum_paid(&sold, now, db) {
        Ok(n) => n,
        Err(e) => {
            return Err(e);
        },
    };
    let bought = param.with_constraint(OrderQuery::find(TicketType::Stock), user);
    let total_stock_paid_price = match sum_paid(&bought, now, db) {
        Ok(n) => n,
        Err(e) => {
            return Err(e);
        },
    };
    Ok(StatTransaction { total_sell_price, total_stock_paid_price })
}

/// The report on what was paid, as of now.
pub fn stat_transaction(param: &StatOption, user: &user::Model, db: &Store) -> (r: Result<
    StatTransaction,
    AError,
>)
    ensures
        exists|t: Timestamp|
            stat_view(r) == #[trigger] db@.stat_transaction(
                param.query(TicketType::Sell, user@),
                param.query(TicketType::Stock, user@),
                t,
            ),
{
    let t = now();
    stat_transaction_at(param, user, &t, db)
}

/// A book that was sold, with the copies sold.
#[derive(Debug, Clone, PartialEq, Eq)]
pub struct StatBestsell {
    pub isbn: String,
    pub info: book::NewBookInfo,
    pub total_sell_count: i32,
}

/// What a `StatBestsell` stands for in contracts: its texts as sequences of
/// characters, its numbers without bounds.
pub struct StatBestsellView {
    pub isbn: Seq<char>,
    pub info: book::NewBookInfoView,
    pub total_sell_count: int,
}

impl View for StatBestsell {
    type V = StatBestsellView;

    open spec fn view(&self) -> StatBestsellView {
        StatBestsellView {
            isbn: self.isbn@,
            info: self.info@,
            total_sell_count: self.total_sell_count as int,
        }
    }
}

/// The copies of the book `isbn` on the tickets among `orders` that
/// `query` counts at `now`.
pub open spec fn copies_of(
    orders: Seq<order_list::ModelView>,
    isbn: Seq<char>,
    query: OrderQuery,
    now: Timestamp,
) -> int
    decreases orders.len(),
{
    if orders.len() == 0 {
        0
    } else {
        copies_of(orders.drop_last(), isbn, query, now) + if query.spec_matches(
            orders.last(),
            now,
        ) && orders.last().book_isbn == isbn {
            orders.last().total_count
        } else {
            0
        }
    }
}

/// The number of tickets for the book `isbn` among `orders` that `query`
/// counts at `now`.
pub open spec fn tickets_of(
    orders: Seq<order_list::ModelView>,
    isbn: Seq<char>,
    query: OrderQuery,
    now: Timestamp,
) -> int
    decreases orders.len(),
{
    if orders.len() == 0 {
        0
    } else {
        tickets_of(orders.drop_last(), isbn, query, now) + if query.spec_matches(
            orders.last(),
            now,
        ) && orders.last().book_isbn == isbn {
            1int
        } else {
            0int
        }
    }
}

/// The rule that picks the books with a ticket that `query` counts.
pub open spec fn has_sales(
    orders: Seq<order_list::ModelView>,
    query: OrderQuery,
    now: Timestamp,
) -> spec_fn(book::ModelView) -> bool {
    |row: book::ModelView| tickets_of(orders, row.isbn, query, now) > 0
}

/// Whether the copies sold of `row` fit in 32 bits.
pub open spec fn copies_fit(
    orders: Seq<order_list::ModelView>,
    row: book::ModelView,
    query: OrderQuery,
    now: Timestamp,
) -> bool {
    i32::MIN <= copies_of(orders, row.isbn, query, now) <= i32::MAX
}

/// The book `row` with the copies sold of it.
pub open spec fn sold(
    orders: Seq<order_list::ModelView>,
    query: OrderQuery,
    now: Timestamp,
) -> spec_fn(book::ModelView) -> StatBestsellView {
    |row: book::ModelView|
        StatBestsellView {
            isbn: row.isbn,
            info: row.info(),
            total_sell_count: copies_of(orders, row.isbn, query, now),
        }
}

/// The tickets that count as sales in the days of `span`: the sell
/// tickets that are done.
pub open spec fn sales_in(span: StatSpan) -> OrderQuery {
    OrderQuery {
        typ: TicketType::Sell,
        status: Some(TicketStatus::Done),
        operator_id: None,
        days: span.spec_days(),
    }
}

impl StoreState {
    /// The first ten of the books with a sale that `query` counts, in the
    /// order in which the books were recorded.
    pub open spec fn sold_books(self, query: OrderQuery, now: Timestamp) -> Seq<
        book::ModelView,
    > {
        let all = self.books.filter(has_sales(self.orders, query, now));
        all.take(spec_min(10, all.len() as int))
    }

    /// The report on the books that were sold.
    pub open spec fn stat_bestsell(self, query: OrderQuery, now: Timestamp) -> Result<
        Seq<StatBestsellView>,
        AErrorView,
    > {
        let top = self.sold_books(query, now);
        if forall|k: int| 0 <= k < top.len() ==> copies_fit(self.orders, #[trigger] top[k], query, now) {
            Ok(top.map_values(sold(self.orders, query, now)))
        } else {
            Err(out_of_range())
        }
    }
}

/// Adds up the copies of the book `isbn` on the tickets that `query`
/// counts at `now`, and counts those tickets.
fn sum_counts_of(isbn: &String, query: &OrderQuery, now: &Timestamp, db: &Store) -> (r: (
    i128,
    usize,
))
    ensures
        r.0 == copies_of(db@.orders, isbn@, *query, *now),
        r.1 == tickets_of(db@.orders, isbn@, *query, *now),
{
    let mut total: i128 = 0;
    let mut rows: usize = 0;
    let mut i: usize = 0;
    assert(db@.orders.take(0) =~= Seq::empty());
    while i < db.orders.len()
        invariant
            i <= db.orders.len(),
            total == copies_of(db@.orders.take(i as int), isbn@, *query, *now),
            rows == tickets_of(db@.orders.take(i as int), isbn@, *query, *now),
            rows <= i,
            -0x8000_0000 * i <= total <= 0x8000_0000 * i,
        decreases db.orders.len() - i,
    {
        assert(db@.orders.take(i + 1).drop_last() =~= db@.orders.take(i as int));
        if query.matches(&db.orders[i], now) && db.orders[i].book_isbn == *isbn {
            total = total + db.orders[i].total_count as i128;
            rows = rows + 1;
        }
        i += 1;
    }
    assert(db@.orders.take(i as int) =~= db@.orders);
    (total, rows)
}

/// The outcome `r` as contracts speak of it: rows and failures by what
/// they stand for.
pub open spec fn bestsell_view(r: Result<Vec<StatBestsell>, AError>) -> Result<
    Seq<StatBestsellView>,
    AErrorView,
> {
    match r {
        Ok(rows) => Ok(rows@.map_values(|row: StatBestsell| row@)),
        Err(e) => Err(e@),
    }
}

/// The report on the books that were sold in the days that `param` looks
/// back on from the time `now`: the first ten of the books with a sale,
/// in the order in which the books were recorded, each with the copies
/// on its sell tickets that are done. Fails where a figure does not fit
/// in 32 bits.
pub fn stat_bestsell_at(param: &StatOption, now: &Timestamp, db: &Store) -> (r: Result<
    Vec<StatBestsell>,
    AError,
>)
    ensures
        bestsell_view(r) == db@.stat_bestsell(sales_in(param.span), *now),
{
    let query = param.span.with_constraint(OrderQuery::find(TicketType::Sell)).filter_status(
        TicketStatus::Done,
    );
    let ghost rule = has_sales(db@.orders, query, *now);
    let mut found: Vec<book::Model> = Vec::new();
    let mut i: usize = 0;
    proof {
        lemma_filter_none(db@.books, rule);
    }
    while i < db.books.len()
        invariant
            i <= db.books.len(),
            rule == has_sales(db@.orders, query, *now),
            book_views(found@) =~= db@.books.take(i as int).filter(rule),
        decreases db.books.len() - i,
    {
        proof {
            lemma_filter_step(db@.books, i as int, rule);
        }
        let (_, rows) = sum_counts_of(&db.books[i].isbn, &query, now, db);
        if rows > 0 {
            let ghost listed = found@;
            found.push(db.books[i].duplicate());
            assert(book_views(found@) =~= book_views(listed).push(db@.books[i as int]));
        }
        i += 1;
    }
    assert(db@.books.take(i as int) =~= db@.books);
    found.truncate(10);
    let ghost top = db@.sold_books(query, *now);
    assert(book_views(found@) =~= top);
    let mut shown: Vec<StatBestsell> = Vec::new();
    let mut k: usize = 0;
    while k < found.len()
        invariant
            k <= found.len(),
            query == sales_in(param.span),
            book_views(found@) == top,
            top == db@.sold_books(query, *now),
            forall|m: int| 0 <= m < k ==> copies_fit(db@.orders, #[trigger] top[m], query, *now),
            shown@.map_values(|row: StatBestsell| row@) =~= top.take(k as int).map_values(
                sold(db@.orders, query, *now),
            ),
        decreases found.len() - k,
    {
        let (total, _) = sum_counts_of(&found[k].isbn, &query, now, db);
        assert(found@[k as int]@ == top[k as int]);
        let total_sell_count = match figure(total) {
            Ok(n) => n,
            Err(e) => {
                assert(!copies_fit(db@.orders, top[k as int], query, *now));
                return Err(e);
            },
        };
        let ghost listed = shown@;
        shown.push(
            StatBestsell { isbn: found[k].isbn.clone(), info: found[k].info(), total_sell_count },
        );
        assert(shown@.map_values(|row: StatBestsell| row@) =~= listed.map_values(
            |row: StatBestsell| row@,
        ).push(sold(db@.orders, query, *now)(top[k as int])));
        k += 1;
    }
    assert(top.take(k as int) =~= top);
    Ok(shown)
}

/// The report on the books that were sold, as of now.
pub fn stat_bestsell(param: &StatOption, db: &Store) -> (r: Result<Vec<StatBestsell>, AError>)
    ensures
        exists|t: Timestamp|
            bestsell_view(r) == #[trigger] db@.stat_bestsell(sales_in(param.span), t),
{
    let t = now();
    stat_bestsell_at(param, &t, db)
}

} // verus!
