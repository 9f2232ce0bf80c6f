//! The life of a ticket: opening it, paying it, confirming it, revoking
//! it. Each operation reads what it decides on, decides, and only then
//! writes, so that it takes effect as a whole or not at all.

use vstd::prelude::*;

use crate::clock::Timestamp;

use crate::api::Paged;
use crate::api::PagingRequest;
use crate::api::lemma_filter_none;
use crate::api::lemma_filter_step;
use crate::api::paged;
use crate::clock::now;
use crate::entity::TicketType;
use crate::entity::order_list;
use crate::entity::order_list::GetOrder;
use crate::entity::order_list::NewOrder;
use crate::laws::lemma_confirm_stock_keeps_wf;
use crate::laws::lemma_known_book_wf;
use crate::laws::lemma_pay_sell_keeps_wf;
use crate::laws::lemma_pay_stock_keeps_wf;
use crate::laws::lemma_revoke_keeps_wf;
use crate::laws::lemma_sell_book_keeps_wf;
use crate::laws::lemma_stock_book_keeps_wf;
use crate::store::Store;
use crate::store::is_of_type;
use crate::store::shown_orders;
use crate::store::shown_view;
use crate::utils::errors::AError;
use crate::utils::errors::internal_server_error;
use crate::workflow;

verus! {

/// Opens a sell ticket at the time `now`, for `operator_id`.
///
/// The count must be positive and the book must be known. The ticket is
/// pending; no copy moves until it is paid.
pub fn sell_book_at(order: NewOrder, operator_id: i32, now: Timestamp, db: &mut Store) -> (r:
    Result<GetOrder, AError>)
    requires
        old(db).wf(),
    ensures
        final(db).wf(),
        r is Err ==> final(db)@ == old(db)@,
        final(db)@ == old(db)@.sell_book(order@, operator_id as int, now).0,
        shown_view(r) == old(db)@.sell_book(order@, operator_id as int, now).1,
{
    let known = db.find_book(&order.book_isbn).is_some();
    let opened = match workflow::sell_book(order, known, operator_id, now) {
        Ok(opened) => opened,
        Err(e) => {
            return Err(e);
        },
    };
    if db.orders.len() >= i32::MAX as usize {
        return Err(internal_server_error("Order id is out of range"));
    }
    proof {
        lemma_sell_book_keeps_wf(db@, order@, operator_id as int, now);
    }
    let row = db.insert_order(opened);
    Ok(GetOrder::from(row))
}

/// Opens a sell ticket at the current time.
pub fn sell_book(order: NewOrder, operator_id: i32, db: &mut Store) -> (r: Result<GetOrder, AError>)
    requires
        old(db).wf(),
    ensures
        final(db).wf(),
        r is Err ==> final(db)@ == old(db)@,
        exists|t: Timestamp|
            final(db)@ == (#[trigger] old(db)@.sell_book(order@, operator_id as int, t)).0
                && shown_view(r) == old(db)@.sell_book(order@, operator_id as int, t).1,
{
    let t = now();
    sell_book_at(order, operator_id, t, db)
}

/// Pays the sell ticket `id` at the time `now`.
///
/// The ticket must be a pending sell ticket, and the shelf must hold
/// its copies. Then the ticket is done, the copies have left the shelf,
/// and the ledger has one more entry with the price of the ticket.
/// Otherwise nothing has changed.
pub fn pay_sell_at(id: i32, now: Timestamp, db: &mut Store) -> (r: Result<GetOrder, AError>)
    requires
        old(db).wf(),
    ensures
        final(db).wf(),
        r is Err ==> final(db)@ == old(db)@,
        final(db)@ == old(db)@.pay_sell(id as int, now).0,
        shown_view(r) == old(db)@.pay_sell(id as int, now).1,
{
    let order = db.order(id);
    let place = match &order {
        Some(row) => db.find_book(&row.book_isbn),
        None => None,
    };
    let book = match place {
        Some(b) => Some(db.books[b].duplicate()),
        None => None,
    };
    let (paid, sold, payment) = match workflow::pay_sell(order, book, now) {
        Ok(plan) => plan,
        Err(e) => {
            return Err(e);
        },
    };
    if db.transactions.len() as u64 >= i64::MAX as u64 {
        return Err(internal_server_error("Transaction id is out of range"));
    }
    proof {
        lemma_pay_sell_keeps_wf(db@, id as int, now);
        lemma_known_book_wf(db@, paid@.book_isbn);
    }
    let shown = GetOrder::from(paid.duplicate());
    db.save_order((id - 1) as usize, paid);
    if let Some(b) = place {
        db.save_book(b, sold);
    }
    db.insert_transaction(payment);
    Ok(shown)
}

/// Pays the sell ticket `id` at the current time.
pub fn pay_sell(id: i32, db: &mut Store) -> (r: Result<GetOrder, AError>)
    requires
        old(db).wf(),
    ensures
        final(db).wf(),
        r is Err ==> final(db)@ == old(db)@,
        exists|t: Timestamp|
            final(db)@ == (#[trigger] old(db)@.pay_sell(id as int, t)).0 && shown_view(r) == old(
                db,
            )@.pay_sell(id as int, t).1,
{
    let t = now();
    pay_sell_at(id, t, db)
}

/// Revokes the pending ticket `id` of type `typ` at the time `now`.
fn revoke_at(id: i32, typ: TicketType, now: Timestamp, db: &mut Store) -> (r: Result<
    GetOrder,
    AError,
>)
    requires
        old(db).wf(),
    ensures
        final(db).wf(),
        r is Err ==> final(db)@ == old(db)@,
        final(db)@ == old(db)@.revoke(id as int, typ, now).0,
        shown_view(r) == old(db)@.revoke(id as int, typ, now).1,
{
    let order = match workflow::revoke(db.order(id), typ, now) {
        Ok(order) => order,
        Err(e) => {
            return Err(e);
        },
    };
    proof {
        lemma_revoke_keeps_wf(db@, id as int, typ, now);
    }
    let shown = GetOrder::from(order.duplicate());
    db.save_order((id - 1) as usize, order);
    Ok(shown)
}

/// Revokes the sell ticket `id` at the time `now`.
///
/// The ticket must be a pending sell ticket. No copy moves and the
/// ledger stays as it is.
pub fn revoke_sell_at(id: i32, now: Timestamp, db: &mut Store) -> (r: Result<GetOrder, AError>)
    requires
        old(db).wf(),
    ensures
        final(db).wf(),
        r is Err ==> final(db)@ == old(db)@,
        final(db)@ == old(db)@.revoke_sell(id as int, now).0,
        shown_view(r) == old(db)@.revoke_sell(id as int, now).1,
{
    revoke_at(id, TicketType::Sell, now, db)
}

/// Revokes the sell ticket `id` at the current time.
pub fn revoke_sell(id: i32, db: &mut Store) -> (r: Result<GetOrder, AError>)
    requires
        old(db).wf(),
    ensures
        final(db).wf(),
        r is Err ==> final(db)@ == old(db)@,
        exists|t: Timestamp|
            final(db)@ == (#[trigger] old(db)@.revoke_sell(id as int, t)).0 && shown_view(r)
                == old(db)@.revoke_sell(id as int, t).1,
{
    let t = now();
    revoke_sell_at(id, t, db)
}

/// Opens a stock ticket at the time `now`, for `operator_id`.
///
/// The count must be positive. A book that the store does not know is
/// recorded first, with no copy anywhere, from the description in the
/// request; without a description the request is refused.
pub fn stock_book_at(order: NewOrder, operator_id: i32, now: Timestamp, db: &mut Store) -> (r:
    Result<GetOrder, AError>)
    requires
        old(db).wf(),
    ensures
        final(db).wf(),
        r is Err ==> final(db)@ == old(db)@,
        final(db)@ == old(db)@.stock_book(order@, operator_id as int, now).0,
        shown_view(r) == old(db)@.stock_book(order@, operator_id as int, now).1,
{
    let known = db.find_book(&order.book_isbn).is_some();
    let (created, opened) = match workflow::stock_book(order, known, operator_id, now) {
        Ok(plan) => plan,
        Err(e) => {
            return Err(e);
        },
    };
    if db.orders.len() >= i32::MAX as usize {
        return Err(internal_server_error("Order id is out of range"));
    }
    proof {
        lemma_stock_book_keeps_wf(db@, order@, operator_id as int, now);
    }
    match created {
        Some(row) => {
            db.insert_book(row);
        },
        None => {},
    }
    let row = db.insert_order(opened);
    Ok(GetOrder::from(row))
}

/// Opens a stock ticket at the current time.
pub fn stock_book(order: NewOrder, operator_id: i32, db: &mut Store) -> (r: Result<GetOrder, AError>)
    requires
        old(db).wf(),
    ensures
        final(db).wf(),
        r is Err ==> final(db)@ == old(db)@,
        exists|t: Timestamp|
            final(db)@ == (#[trigger] old(db)@.stock_book(order@, operator_id as int, t)).0
                && shown_view(r) == old(db)@.stock_book(order@, operator_id as int, t).1,
{
    let t = now();
    stock_book_at(order, operator_id, t, db)
}

/// Pays the stock ticket `id` at the time `now`.
///
/// The ticket must be a pending stock ticket. Then it is paid, and the
/// ledger has one more entry with the price of the ticket counted down.
/// The warehouse gains nothing before the ticket is confirmed.
pub fn pay_stock_at(id: i32, now: Timestamp, db: &mut Store) -> (r: Result<GetOrder, AError>)
    requires
        old(db).wf(),
    ensures
        final(db).wf(),
        r is Err ==> final(db)@ == old(db)@,
        final(db)@ == old(db)@.pay_stock(id as int, now).0,
        shown_view(r) == old(db)@.pay_stock(id as int, now).1,
{
    let (paid, payment) = match workflow::pay_stock(db.order(id), now) {
        Ok(plan) => plan,
        Err(e) => {
            return Err(e);
        },
    };
    if db.transactions.len() as u64 >= i64::MAX as u64 {
        return Err(internal_server_error("Transaction id is out of range"));
    }
    proof {
        lemma_pay_stock_keeps_wf(db@, id as int, now);
    }
    let shown = GetOrder::from(paid.duplicate());
    db.save_order((id - 1) as usize, paid);
    db.insert_transaction(payment);
    Ok(shown)
}

/// Pays the stock ticket `id` at the current time.
pub fn pay_stock(id: i32, db: &mut Store) -> (r: Result<GetOrder, AError>)
    requires
        old(db).wf(),
    ensures
        final(db).wf(),
        r is Err ==> final(db)@ == old(db)@,
        exists|t: Timestamp|
            final(db)@ == (#[trigger] old(db)@.pay_stock(id as int, t)).0 && shown_view(r) == old(
                db,
            )@.pay_stock(id as int, t).1,
{
    let t = now();
    pay_stock_at(id, t, db)
}

/// Revokes the stock ticket `id` at the time `now`.
///
/// The ticket must be a pending stock ticket. No copy moves and the
/// ledger stays as it is.
pub fn revoke_stock_at(id: i32, now: Timestamp, db: &mut Store) -> (r: Result<GetOrder, AError>)
    requires
        old(db).wf(),
    ensures
        final(db).wf(),
        r is Err ==> final(db)@ == old(db)@,
        final(db)@ == old(db)@.revoke_stock(id as int, now).0,
        shown_view(r) == old(db)@.revoke_stock(id as int, now).1,
{
    revoke_at(id, TicketType::Stock, now, db)
}

/// Revokes the stock ticket `id` at the current time.
pub fn revoke_stock(id: i32, db: &mut Store) -> (r: Result<GetOrder, AError>)
    requires
        old(db).wf(),
    ensures
        final(db).wf(),
        r is Err ==> final(db)@ == old(db)@,
        exists|t: Timestamp|
            final(db)@ == (#[trigger] old(db)@.revoke_stock(id as int, t)).0 && shown_view(r)
                == old(db)@.revoke_stock(id as int, t).1,
{
    let t = now();
    revoke_stock_at(id, t, db)
}

/// Confirms the stock ticket `id` at the time `now`.
///
/// The ticket must be a paid stock ticket. Then it is done and its
/// copies are in the warehouse. Otherwise nothing has changed.
pub fn confirm_stock_at(id: i32, now: Timestamp, db: &mut Store) -> (r: Result<GetOrder, AError>)
    requires
        old(db).wf(),
    ensures
        final(db).wf(),
        r is Err ==> final(db)@ == old(db)@,
        final(db)@ == old(db)@.confirm_stock(id as int, now).0,
        shown_view(r) == old(db)@.confirm_stock(id as int, now).1,
{
    let order = db.order(id);
    let place = match &order {
        Some(row) => db.find_book(&row.book_isbn),
        None => None,
    };
    let book = match place {
        Some(b) => Some(db.books[b].duplicate()),
        None => None,
    };
    let (done, stocked) = match workflow::confirm_stock(order, book, now) {
        Ok(plan) => plan,
        Err(e) => {
            return Err(e);
        },
    };
    proof {
        lemma_confirm_stock_keeps_wf(db@, id as int, now);
        lemma_known_book_wf(db@, done@.book_isbn);
    }
    let shown = GetOrder::from(done.duplicate());
    db.save_order((id - 1) as usize, done);
    if let Some(b) = place {
        db.save_book(b, stocked);
    }
    Ok(shown)
}

/// Confirms the stock ticket `id` at the current time.
pub fn confirm_stock(id: i32, db: &mut Store) -> (r: Result<GetOrder, AError>)
    requires
        old(db).wf(),
    ensures
        final(db).wf(),
        r is Err ==> final(db)@ == old(db)@,
        exists|t: Timestamp|
            final(db)@ == (#[trigger] old(db)@.confirm_stock(id as int, t)).0 && shown_view(r)
                == old(db)@.confirm_stock(id as int, t).1,
{
    let t = now();
    confirm_stock_at(id, t, db)
}

/// The page `paging` of the tickets of type `typ`, in the order of their
/// keys, with the number of all of them.
fn list_orders(typ: TicketType, paging: PagingRequest, db: &Store) -> (page: Paged<GetOrder>)
    ensures
        page.count == db@.orders_of_type(typ).len(),
        shown_orders(page.items@) == db@.orders_of_type(typ).subrange(
            paging.spec_start(page.count as int),
            paging.spec_end(page.count as int),
        ),
{
    let mut rows: Vec<GetOrder> = Vec::new();
    let mut i: usize = 0;
    proof {
        lemma_filter_none(db@.orders, is_of_type(typ));
    }
    while i < db.orders.len()
        invariant
            i <= db.orders.len(),
            shown_orders(rows@) =~= db@.orders.take(i as int).filter(is_of_type(typ)).map_values(
                |order: order_list::ModelView| order.shown(),
            ),
        decreases db.orders.len() - i,
    {
        proof {
            lemma_filter_step(db@.orders, i as int, is_of_type(typ));
        }
        if db.orders[i].typ == typ {
            let ghost listed = rows@;
            let ghost passed = db@.orders.take(i as int).filter(is_of_type(typ));
            rows.push(GetOrder::from(db.orders[i].duplicate()));
            assert(shown_orders(rows@) =~= shown_orders(listed).push(db@.orders[i as int].shown()));
            assert(passed.push(db@.orders[i as int]).map_values(
                |order: order_list::ModelView| order.shown(),
            ) =~= passed.map_values(|order: order_list::ModelView| order.shown()).push(
                db@.orders[i as int].shown(),
            ));
        }
        i += 1;
    }
    assert(db@.orders.take(i as int) =~= db@.orders);
    let ghost all = rows@;
    let page = paged(rows, paging);
    assert(shown_orders(page.items@) =~= shown_orders(all).subrange(
        paging.spec_start(page.count as int),
        paging.spec_end(page.count as int),
    ));
    page
}

/// The page `paging` of the sell tickets, in the order of their keys,
/// with the number of all sell tickets.
pub fn get_sell_list(paging: PagingRequest, db: &Store) -> (page: Paged<GetOrder>)
    ensures
        page.count == db@.orders_of_type(TicketType::Sell).len(),
        shown_orders(page.items@) == db@.orders_of_type(TicketType::Sell).subrange(
            paging.spec_start(page.count as int),
            paging.spec_end(page.count as int),
        ),
{
    list_orders(TicketType::Sell, paging, db)
}

/// The page `paging` of the stock tickets, in the order of their keys,
/// with the number of all stock tickets.
pub fn get_stock_list(paging: PagingRequest, db: &Store) -> (page: Paged<GetOrder>)
    ensures
        page.count == db@.orders_of_type(TicketType::Stock).len(),
        shown_orders(page.items@) == db@.orders_of_type(TicketType::Stock).subrange(
            paging.spec_start(page.count as int),
            paging.spec_end(page.count as int),
        ),
{
    list_orders(TicketType::Stock, paging, db)
}

} // verus!
