//! The decisions of every operation, as functions from the rows that the
//! operation reads to the rows that it writes. Whoever keeps the rows
//! reads them, asks here, and writes what comes back, all or nothing.

use vstd::prelude::*;

use crate::clock::Timestamp;

use crate::entity::TicketStatus;
use crate::entity::TicketType;
use crate::entity::book;
use crate::entity::order_list;
use crate::entity::order_list::NewOrder;
use crate::entity::order_list::NewOrderView;
use crate::entity::transaction;
use crate::utils::errors::AError;
use crate::utils::errors::AErrorView;
use crate::utils::errors::StatusCode;
use crate::utils::errors::conflict;
use crate::utils::errors::not_found;
use crate::utils::errors::spec_error;
use crate::utils::errors::unprocessable_entity;

verus! {

/// What is reported where the ticket is not there.
pub open spec fn order_not_found() -> AErrorView {
    spec_error(StatusCode::NotFound, "Order not found"@)
}

/// What is reported where the book is not there.
pub open spec fn book_not_found() -> AErrorView {
    spec_error(StatusCode::NotFound, "Book not found"@)
}

/// The book among `book` that has the key `isbn`, if that is the one.
pub open spec fn book_of_key(book: Option<book::ModelView>, isbn: Seq<char>) -> Option<
    book::ModelView,
> {
    match book {
        Some(row) => if row.isbn == isbn {
            Some(row)
        } else {
            None
        },
        None => None,
    }
}

/// The compare-and-set on the ticket `order` as it was read: the row as
/// it is to be written back, or why it is not.
pub open spec fn spec_change_order_status(
    order: Option<order_list::ModelView>,
    expected_status: TicketStatus,
    expected_type: TicketType,
    new_status: TicketStatus,
    now: Timestamp,
) -> Result<order_list::ModelView, AErrorView> {
    match order {
        None => Err(order_not_found()),
        Some(row) => row.change_status(expected_status, expected_type, new_status, now),
    }
}

/// The compare-and-set on the ticket `order` together with the ledger
/// entry for its payment.
pub open spec fn spec_pay_order(
    order: Option<order_list::ModelView>,
    expected_status: TicketStatus,
    expected_type: TicketType,
    new_status: TicketStatus,
    now: Timestamp,
) -> Result<(order_list::ModelView, transaction::ActiveModelView), AErrorView> {
    match spec_change_order_status(order, expected_status, expected_type, new_status, now) {
        Err(e) => Err(e),
        Ok(row) => Ok((row, transaction::ActiveModelView::from_order(row, now))),
    }
}

/// The sell ticket that `order` opens, where `known` tells whether the
/// store knows the book.
pub open spec fn spec_sell_book(
    order: NewOrderView,
    known: bool,
    operator_id: int,
    now: Timestamp,
) -> Result<order_list::ActiveModelView, AErrorView> {
    if order.total_count <= 0 {
        Err(spec_error(StatusCode::UnprocessableEntity, "Total count must be positive"@))
    } else if !known {
        Err(book_not_found())
    } else {
        Ok(order.into_active_model(operator_id, TicketType::Sell, now))
    }
}

/// The book to record before anything is done with the book `isbn`,
/// where `known` tells whether the store knows the book: none where it
/// does, the book described by `info` where it does not.
pub open spec fn spec_create_if_absent(
    isbn: Seq<char>,
    known: bool,
    info: Option<book::NewBookInfoView>,
) -> Result<Option<book::ModelView>, AErrorView> {
    if known {
        Ok(None)
    } else {
        match info {
            None => Err(
                spec_error(StatusCode::UnprocessableEntity, "Book not found and info not provided"@),
            ),
            Some(info) => Ok(Some(book::ModelView::created(isbn, info))),
        }
    }
}

/// The stock ticket that `order` opens, and the book to record first,
/// where `known` tells whether the store knows the book.
pub open spec fn spec_stock_book(
    order: NewOrderView,
    known: bool,
    operator_id: int,
    now: Timestamp,
) -> Result<(Option<book::ModelView>, order_list::ActiveModelView), AErrorView> {
    if order.total_count <= 0 {
        Err(spec_error(StatusCode::UnprocessableEntity, "Total count must be greater than 0"@))
    } else {
        match spec_create_if_absent(order.book_isbn, known, order.book) {
            Err(e) => Err(e),
            Ok(created) => Ok(
                (created, order.into_active_model(operator_id, TicketType::Stock, now)),
            ),
        }
    }
}

/// The payment of the sell ticket `order`, where `book` is the book of
/// the ticket as the store has it: the ticket done, the book with the
/// copies off its shelf, and the ledger entry.
pub open spec fn spec_pay_sell(
    order: Option<order_list::ModelView>,
    book: Option<book::ModelView>,
    now: Timestamp,
) -> Result<(order_list::ModelView, book::ModelView, transaction::ActiveModelView), AErrorView> {
    match spec_pay_order(order, TicketStatus::Pending, TicketType::Sell, TicketStatus::Done, now) {
        Err(e) => Err(e),
        Ok((paid, payment)) => match book_of_key(book, paid.book_isbn) {
            None => Err(book_not_found()),
            Some(row) => if row.on_shelf_count < paid.total_count {
                Err(spec_error(StatusCode::Conflict, "Not enough books on shelf"@))
            } else {
                match row.adjust_shelf(-paid.total_count) {
                    Err(e) => Err(e),
                    Ok(sold) => Ok((paid, sold, payment)),
                }
            },
        },
    }
}

/// The payment of the stock ticket `order`: the ticket paid, and the
/// ledger entry.
pub open spec fn spec_pay_stock(order: Option<order_list::ModelView>, now: Timestamp) -> Result<
    (order_list::ModelView, transaction::ActiveModelView),
    AErrorView,
> {
    spec_pay_order(order, TicketStatus::Pending, TicketType::Stock, TicketStatus::StockPaid, now)
}

/// The pending ticket `order` of type `typ`, revoked.
pub open spec fn spec_revoke(
    order: Option<order_list::ModelView>,
    typ: TicketType,
    now: Timestamp,
) -> Result<order_list::ModelView, AErrorView> {
    spec_change_order_status(order, TicketStatus::Pending, typ, TicketStatus::Revoked, now)
}

/// The confirmation of the paid stock ticket `order`, where `book` is
/// the book of the ticket as the store has it: the ticket done, and the
/// book with the copies in its warehouse.
pub open spec fn spec_confirm_stock(
    order: Option<order_list::ModelView>,
    book: Option<book::ModelView>,
    now: Timestamp,
) -> Result<(order_list::ModelView, book::ModelView), AErrorView> {
    match spec_change_order_status(
        order,
        TicketStatus::StockPaid,
        TicketType::Stock,
        TicketStatus::Done,
        now,
    ) {
        Err(e) => Err(e),
        Ok(done) => match book_of_key(book, done.book_isbn) {
            None => Err(spec_error(StatusCode::NotFound, "Cannot find the book"@)),
            Some(row) => match row.adjust_inventory(done.total_count) {
                Err(e) => Err(e),
                Ok(stocked) => Ok((done, stocked)),
            },
        },
    }
}

/// The book `book`, as the store has it, with `count` copies moved from
/// the warehouse to the shelf.
pub open spec fn spec_put_on_shelf(book: Option<book::ModelView>, count: int) -> Result<
    book::ModelView,
    AErrorView,
> {
    match book {
        None => Err(book_not_found()),
        Some(row) => row.put_on_shelf(count),
    }
}

/// The book `book`, as the store has it, with `delta` copies more in the
/// warehouse.
pub open spec fn spec_adjust_inventory(book: Option<book::ModelView>, delta: int) -> Result<
    book::ModelView,
    AErrorView,
> {
    match book {
        None => Err(book_not_found()),
        Some(row) => row.adjust_inventory(delta),
    }
}

/// The book `book`, as the store has it, with `delta` copies more on the
/// shelf.
pub open spec fn spec_adjust_shelf(book: Option<book::ModelView>, delta: int) -> Result<
    book::ModelView,
    AErrorView,
> {
    match book {
        None => Err(book_not_found()),
        Some(row) => row.adjust_shelf(delta),
    }
}

/// The book `book`, as the store has it, with its description replaced.
pub open spec fn spec_update_book(book: Option<book::ModelView>, update: book::UpdateBookView) -> Result<
    book::ModelView,
    AErrorView,
> {
    match book {
        None => Err(book_not_found()),
        Some(row) => Ok(row.updated(update)),
    }
}

/// The row, where there is one, as contracts speak of it.
pub open spec fn order_view(order: Option<order_list::Model>) -> Option<order_list::ModelView> {
    match order {
        Some(row) => Some(row@),
        None => None,
    }
}

/// The row, where there is one, as contracts speak of it.
pub open spec fn book_view(book: Option<book::Model>) -> Option<book::ModelView> {
    match book {
        Some(row) => Some(row@),
        None => None,
    }
}

/// The row, where there is one, as contracts speak of it.
pub open spec fn info_view(info: Option<book::NewBookInfo>) -> Option<book::NewBookInfoView> {
    match info {
        Some(info) => Some(info@),
        None => None,
    }
}

/// The outcome `r` as contracts speak of it: rows and failures by what
/// they stand for.
pub open spec fn paid_view(r: Result<(order_list::Model, transaction::ActiveModel), AError>) -> Result<
    (order_list::ModelView, transaction::ActiveModelView),
    AErrorView,
> {
    match r {
        Ok((order, payment)) => Ok((order@, payment@)),
        Err(e) => Err(e@),
    }
}

/// The outcome `r` as contracts speak of it: rows and failures by what
/// they stand for.
pub open spec fn sold_view(
    r: Result<(order_list::Model, book::Model, transaction::ActiveModel), AError>,
) -> Result<(order_list::ModelView, book::ModelView, transaction::ActiveModelView), AErrorView> {
    match r {
        Ok((order, book, payment)) => Ok((order@, book@, payment@)),
        Err(e) => Err(e@),
    }
}

/// The outcome `r` as contracts speak of it: rows and failures by what
/// they stand for.
pub open spec fn confirmed_view(r: Result<(order_list::Model, book::Model), AError>) -> Result<
    (order_list::ModelView, book::ModelView),
    AErrorView,
> {
    match r {
        Ok((order, book)) => Ok((order@, book@)),
        Err(e) => Err(e@),
    }
}

/// The outcome `r` as contracts speak of it: rows and failures by what
/// they stand for.
pub open spec fn opened_view(r: Result<order_list::ActiveModel, AError>) -> Result<
    order_list::ActiveModelView,
    AErrorView,
> {
    match r {
        Ok(order) => Ok(order@),
        Err(e) => Err(e@),
    }
}

/// The outcome `r` as contracts speak of it: rows and failures by what
/// they stand for.
pub open spec fn stocked_view(
    r: Result<(Option<book::Model>, order_list::ActiveModel), AError>,
) -> Result<(Option<book::ModelView>, order_list::ActiveModelView), AErrorView> {
    match r {
        Ok((book, order)) => Ok((book_view(book), order@)),
        Err(e) => Err(e@),
    }
}

/// The outcome `r` as contracts speak of it: rows and failures by what
/// they stand for.
pub open spec fn created_view(r: Result<Option<book::Model>, AError>) -> Result<
    Option<book::ModelView>,
    AErrorView,
> {
    match r {
        Ok(book) => Ok(book_view(book)),
        Err(e) => Err(e@),
    }
}

/// The compare-and-set on the ticket `order` as it was read, at the time
/// `now`. Fails when there is no such ticket, and with a conflict that
/// names the expected and the actual value when the ticket is not in the
/// status, or else not of the type, that the caller expects.
pub fn change_order_status(
    order: Option<order_list::Model>,
    expected_status: TicketStatus,
    expected_type: TicketType,
    new_status: TicketStatus,
    now: Timestamp,
) -> (r: Result<order_list::Model, AError>)
    ensures
        order_list::result_view(r) == spec_change_order_status(
            order_view(order),
            expected_status,
            expected_type,
            new_status,
            now,
        ),
{
    match order {
        None => Err(not_found("Order not found")),
        Some(row) => row.change_status(expected_status, expected_type, new_status, now),
    }
}

/// The compare-and-set on the ticket `order` as it was read, together
/// with the ledger entry for its payment, both made at the time `now`.
pub fn pay_order(
    order: Option<order_list::Model>,
    expected_status: TicketStatus,
    expected_type: TicketType,
    new_status: TicketStatus,
    now: Timestamp,
) -> (r: Result<(order_list::Model, transaction::ActiveModel), AError>)
    ensures
        paid_view(r) == spec_pay_order(
            order_view(order),
            expected_status,
            expected_type,
            new_status,
            now,
        ),
{
    let row = match change_order_status(order, expected_status, expected_type, new_status, now) {
        Ok(row) => row,
        Err(e) => {
            return Err(e);
        },
    };
    let payment = transaction::ActiveModel::from_order_at(&row, now);
    Ok((row, payment))
}

/// The sell ticket that `order` opens for `operator_id` at the time
/// `now`, where `known` tells whether the store knows the book. The
/// count must be positive and the book known.
pub fn sell_book(order: NewOrder, known: bool, operator_id: i32, now: Timestamp) -> (r: Result<
    order_list::ActiveModel,
    AError,
>)
    ensures
        opened_view(r) == spec_sell_book(order@, known, operator_id as int, now),
{
    if order.total_count <= 0 {
        return Err(unprocessable_entity("Total count must be positive"));
    }
    if !known {
        return Err(not_found("Book not found"));
    }
    Ok(order.into_active_model_at(operator_id, TicketType::Sell, now))
}

/// The book to record before anything is done with the book `isbn`,
/// where `known` tells whether the store knows the book: none where it
/// does, and the book described by `info`, with no copy anywhere, where
/// it does not. Fails where the store does not know the book and nothing
/// describes it.
pub fn create_if_absent(isbn: &String, known: bool, info: Option<book::NewBookInfo>) -> (r: Result<
    Option<book::Model>,
    AError,
>)
    ensures
        created_view(r) == spec_create_if_absent(isbn@, known, info_view(info)),
{
    if known {
        return Ok(None);
    }
    match info {
        Some(info) => Ok(Some(info.into_model(isbn.clone()))),
        None => Err(unprocessable_entity("Book not found and info not provided")),
    }
}

/// The stock ticket that `order` opens for `operator_id` at the time
/// `now`, and the book to record first, where `known` tells whether the
/// store knows the book. The count must be positive, and a book that the
/// store does not know must be described.
pub fn stock_book(order: NewOrder, known: bool, operator_id: i32, now: Timestamp) -> (r: Result<
    (Option<book::Model>, order_list::ActiveModel),
    AError,
>)
    ensures
        stocked_view(r) == spec_stock_book(order@, known, operator_id as int, now),
{
    if order.total_count <= 0 {
        return Err(unprocessable_entity("Total count must be greater than 0"));
    }
    let NewOrder { book_isbn, total_price, total_count, book } = order;
    let created = match create_if_absent(&book_isbn, known, book) {
        Ok(created) => created,
        Err(e) => {
            return Err(e);
        },
    };
    let opened = NewOrder {
        book_isbn,
        total_price,
        total_count,
        book: None,
    }.into_active_model_at(operator_id, TicketType::Stock, now);
    Ok((created, opened))
}

/// The book among `book` that has the key `isbn`, if that is the one.
fn of_key(book: Option<book::Model>, isbn: &String) -> (r: Option<book::Model>)
    ensures
        book_view(r) == book_of_key(book_view(book), isbn@),
{
    match book {
        Some(row) => {
            if row.isbn == *isbn {
                Some(row)
            } else {
                None
            }
        },
        None => None,
    }
}

/// Pays the sell ticket `order` at the time `now`, where `book` is the
/// book of the ticket as the store has it.
///
/// The ticket must be a pending sell ticket, and the shelf must hold its
/// copies. What comes back is to be written as
/// a whole: the ticket done, the book with the copies off its shelf, and
/// the ledger entry with the price of the ticket.
pub fn pay_sell(order: Option<order_list::Model>, book: Option<book::Model>, now: Timestamp) -> (r:
    Result<(order_list::Model, book::Model, transaction::ActiveModel), AError>)
    ensures
        sold_view(r) == spec_pay_sell(order_view(order), book_view(book), now),
{
    let (paid, payment) = match pay_order(
        order,
        TicketStatus::Pending,
        TicketType::Sell,
        TicketStatus::Done,
        now,
    ) {
        Ok(paid) => paid,
        Err(e) => {
            return Err(e);
        },
    };
    let row = match of_key(book, &paid.book_isbn) {
        Some(row) => row,
        None => {
            return Err(not_found("Book not found"));
        },
    };
    if row.on_shelf_count < paid.total_count {
        return Err(conflict("Not enough books on shelf"));
    }
    let sold = match row.shift_shelf(-(paid.total_count as i64)) {
        Ok(sold) => sold,
        Err(e) => {
            return Err(e);
        },
    };
    Ok((paid, sold, payment))
}

/// Pays the stock ticket `order` at the time `now`.
///
/// The ticket must be a pending stock ticket. What comes back is to be
/// written as a whole: the ticket paid, and the ledger entry with the
/// price of the ticket counted down.
pub fn pay_stock(order: Option<order_list::Model>, now: Timestamp) -> (r: Result<
    (order_list::Model, transaction::ActiveModel),
    AError,
>)
    ensures
        paid_view(r) == spec_pay_stock(order_view(order), now),
{
    pay_order(order, TicketStatus::Pending, TicketType::Stock, TicketStatus::StockPaid, now)
}

/// Revokes the pending ticket `order` of type `typ` at the time `now`.
pub fn revoke(order: Option<order_list::Model>, typ: TicketType, now: Timestamp) -> (r: Result<
    order_list::Model,
    AError,
>)
    ensures
        order_list::result_view(r) == spec_revoke(order_view(order), typ, now),
{
    change_order_status(order, TicketStatus::Pending, typ, TicketStatus::Revoked, now)
}

/// Confirms the stock ticket `order` at the time `now`, where `book` is
/// the book of the ticket as the store has it.
///
/// The ticket must be a paid stock ticket. What comes back is to be
/// written as a whole: the ticket done, and the book with the copies in
/// its warehouse.
pub fn confirm_stock(
    order: Option<order_list::Model>,
    book: Option<book::Model>,
    now: Timestamp,
) -> (r: Result<(order_list::Model, book::Model), AError>)
    ensures
        confirmed_view(r) == spec_confirm_stock(order_view(order), book_view(book), now),
{
    let done = match change_order_status(
        order,
        TicketStatus::StockPaid,
        TicketType::Stock,
        TicketStatus::Done,
        now,
    ) {
        Ok(done) => done,
        Err(e) => {
            return Err(e);
        },
    };
    let row = match of_key(book, &done.book_isbn) {
        Some(row) => row,
        None => {
            return Err(not_found("Cannot find the book"));
        },
    };
    let stocked = match row.adjust_inventory(done.total_count) {
        Ok(stocked) => stocked,
        Err(e) => {
            return Err(e);
        },
    };
    Ok((done, stocked))
}

/// Moves `count` copies of `book`, as the store has it, from the
/// warehouse to the shelf, or back when `count` is negative.
pub fn put_on_shelf(book: Option<book::Model>, count: i32) -> (r: Result<book::Model, AError>)
    ensures
        book::result_view(r) == spec_put_on_shelf(book_view(book), count as int),
{
    match book {
        None => Err(not_found("Book not found")),
        Some(row) => row.put_on_shelf(count),
    }
}

/// Adds `delta` copies to the warehouse of `book`, as the store has it.
pub fn adjust_inventory(book: Option<book::Model>, delta: i32) -> (r: Result<book::Model, AError>)
    ensures
        book::result_view(r) == spec_adjust_inventory(book_view(book), delta as int),
{
    match book {
        None => Err(not_found("Book not found")),
        Some(row) => row.adjust_inventory(delta),
    }
}

/// Adds `delta` copies to the shelf of `book`, as the store has it.
pub fn adjust_shelf(book: Option<book::Model>, delta: i32) -> (r: Result<book::Model, AError>)
    ensures
        book::result_view(r) == spec_adjust_shelf(book_view(book), delta as int),
{
    match book {
        None => Err(not_found("Book not found")),
        Some(row) => row.adjust_shelf(delta),
    }
}

/// Replaces the description of `book`, as the store has it.
pub fn update_book(book: Option<book::Model>, update: book::UpdateBook) -> (r: Result<
    book::Model,
    AError,
>)
    ensures
        book::result_view(r) == spec_update_book(book_view(book), update@),
{
    match book {
        None => Err(not_found("Book not found")),
        Some(row) => Ok(row.update(update)),
    }
}

} // verus!
