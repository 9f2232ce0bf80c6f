//! What holds of the engine whatever is asked of it, proved over the
//! model of the persisted state.

use vstd::prelude::*;

use crate::clock::Timestamp;

use crate::entity::TicketStatus;
use crate::entity::TicketType;
use crate::entity::book;
use crate::entity::book::lemma_adjust_keeps_counters;
use crate::entity::order_list;
use crate::entity::order_list::NewOrderView;
use crate::entity::order_list::status_conflict;
use crate::entity::transaction;
use crate::store::StoreState;
use crate::store::lemma_book_index;
use crate::workflow;

verus! {

/// A request to the engine.
pub enum Operation {
    SellBook { order: NewOrderView, operator_id: int },
    PaySell { id: int },
    RevokeSell { id: int },
    StockBook { order: NewOrderView, operator_id: int },
    PayStock { id: int },
    RevokeStock { id: int },
    ConfirmStock { id: int },
    PutOnShelf { isbn: Seq<char>, count: int },
    UpdateBook { isbn: Seq<char>, update: book::UpdateBookView },
    CreateIfAbsent { isbn: Seq<char>, info: Option<book::NewBookInfoView> },
    AdjustInventory { isbn: Seq<char>, delta: int },
    AdjustShelf { isbn: Seq<char>, delta: int },
}

/// The state that the request `op`, handled at the time `now`, leaves
/// behind.
pub open spec fn apply(s: StoreState, op: Operation, now: Timestamp) -> StoreState {
    match op {
        Operation::SellBook { order, operator_id } => s.sell_book(order, operator_id, now).0,
        Operation::PaySell { id } => s.pay_sell(id, now).0,
        Operation::RevokeSell { id } => s.revoke_sell(id, now).0,
        Operation::StockBook { order, operator_id } => s.stock_book(order, operator_id, now).0,
        Operation::PayStock { id } => s.pay_stock(id, now).0,
        Operation::RevokeStock { id } => s.revoke_stock(id, now).0,
        Operation::ConfirmStock { id } => s.confirm_stock(id, now).0,
        Operation::PutOnShelf { isbn, count } => s.put_on_shelf(isbn, count).0,
        Operation::UpdateBook { isbn, update } => s.update_book(isbn, update).0,
        Operation::CreateIfAbsent { isbn, info } => s.create_if_absent(isbn, info).0,
        Operation::AdjustInventory { isbn, delta } => s.adjust_inventory(isbn, delta).0,
        Operation::AdjustShelf { isbn, delta } => s.adjust_shelf(isbn, delta).0,
    }
}

/// Whether the request `op` on the state `s` fails.
pub open spec fn fails(s: StoreState, op: Operation, now: Timestamp) -> bool {
    match op {
        Operation::SellBook { order, operator_id } => s.sell_book(order, operator_id, now).1 is Err,
        Operation::PaySell { id } => s.pay_sell(id, now).1 is Err,
        Operation::RevokeSell { id } => s.revoke_sell(id, now).1 is Err,
        Operation::StockBook { order, operator_id } => s.stock_book(
            order,
            operator_id,
            now,
        ).1 is Err,
        Operation::PayStock { id } => s.pay_stock(id, now).1 is Err,
        Operation::RevokeStock { id } => s.revoke_stock(id, now).1 is Err,
        Operation::ConfirmStock { id } => s.confirm_stock(id, now).1 is Err,
        Operation::PutOnShelf { isbn, count } => s.put_on_shelf(isbn, count).1 is Err,
        Operation::UpdateBook { isbn, update } => s.update_book(isbn, update).1 is Err,
        Operation::CreateIfAbsent { isbn, info } => s.create_if_absent(isbn, info).1 is Err,
        Operation::AdjustInventory { isbn, delta } => s.adjust_inventory(isbn, delta).1 is Err,
        Operation::AdjustShelf { isbn, delta } => s.adjust_shelf(isbn, delta).1 is Err,
    }
}

/// Every ticket of `before` is still there in `after`, with its key and
/// type, and in the status it had or one that an edge of its life leads
/// to; and every ticket that `after` has more is pending.
pub open spec fn moves_forward(before: StoreState, after: StoreState) -> bool {
    &&& before.orders.len() <= after.orders.len()
    &&& forall|i: int|
        0 <= i < before.orders.len() ==> {
            let old_row = #[trigger] before.orders[i];
            let new_row = after.orders[i];
            &&& new_row.id == old_row.id
            &&& new_row.typ == old_row.typ
            &&& new_row.total_price == old_row.total_price
            &&& new_row.total_count == old_row.total_count
            &&& new_row.book_isbn == old_row.book_isbn
            &&& (new_row.status == old_row.status || old_row.status.spec_can_become(
                old_row.typ,
                new_row.status,
            ))
        }
    &&& forall|i: int|
        before.orders.len() <= i < after.orders.len() ==> (#[trigger] after.orders[i]).status
            == TicketStatus::Pending
}

/// Replacing a ticket by one that differs in status and time of update
/// only, and is paid exactly if the old one was, keeps the tables valid.
proof fn lemma_with_order_wf(s: StoreState, row: order_list::ModelView)
    requires
        s.wf(),
        s.has_order(row.id),
        row.is_paid() == s.order(row.id).is_paid(),
        row == (order_list::ModelView {
            status: row.status,
            updated_at: row.updated_at,
            ..s.order(row.id)
        }),
    ensures
        s.with_order(row).wf(),
{
    let t = s.with_order(row);
    assert(t.books == s.books);
    assert(t.transactions == s.transactions);
    assert forall|i: int| 0 <= i < t.orders.len() implies {
        &&& (#[trigger] t.orders[i]).id == i + 1
        &&& t.orders[i].total_count > 0
    } by {
        assert(s.orders[i].id == i + 1);
    }
    assert forall|k: int| 0 <= k < t.transactions.len() implies {
        let entry = #[trigger] t.transactions[k];
        &&& entry.id == k + 1
        &&& t.has_order(entry.ticket_id)
        &&& t.order(entry.ticket_id).is_paid()
        &&& entry.total_price == t.order(entry.ticket_id).signed_price()
    } by {
        let entry = s.transactions[k];
        assert(s.has_order(entry.ticket_id));
    }
    assert forall|i: int| 0 <= i < t.orders.len() && (#[trigger] t.orders[i]).is_paid() implies t.has_entry(
        i + 1,
    ) by {
        assert(s.orders[i].is_paid());
        assert(s.has_entry(i + 1));
        let k = s.entry_index(i + 1);
        assert(t.is_entry_of(k, i + 1));
    }
}

/// Replacing a book by one of the same key with valid counters keeps the
/// tables valid.
proof fn lemma_with_book_wf(s: StoreState, row: book::ModelView)
    requires
        s.wf(),
        s.has_book(row.isbn),
        row.wf(),
    ensures
        s.with_book(row).wf(),
        s.with_book(row).has_book(row.isbn),
        s.with_book(row).book(row.isbn) == row,
        s.with_book(row).books.len() == s.books.len(),
        forall|i: int|
            0 <= i < s.books.len() && i != s.book_index(row.isbn) ==> s.with_book(row).books[i]
                == s.books[i],
{
    let t = s.with_book(row);
    let b = s.book_index(row.isbn);
    assert(s.is_book_at(b, row.isbn));
    assert(t.orders == s.orders);
    assert(t.transactions == s.transactions);
    assert forall|i: int, j: int| 0 <= i < j < t.books.len() implies (#[trigger] t.books[i]).isbn != (
    #[trigger] t.books[j]).isbn by {
        assert(s.books[i].isbn != s.books[j].isbn);
    }
    assert forall|i: int| 0 <= i < t.books.len() implies (#[trigger] t.books[i]).wf() by {
        if i != b {
            assert(s.books[i].wf());
        }
    }
    assert forall|k: int| 0 <= k < t.transactions.len() implies {
        let entry = #[trigger] t.transactions[k];
        &&& entry.id == k + 1
        &&& t.has_order(entry.ticket_id)
        &&& t.order(entry.ticket_id).is_paid()
        &&& entry.total_price == t.order(entry.ticket_id).signed_price()
    } by {
        let entry = s.transactions[k];
        assert(s.has_order(entry.ticket_id));
    }
    assert forall|i: int| 0 <= i < t.orders.len() && (#[trigger] t.orders[i]).is_paid() implies t.has_entry(
        i + 1,
    ) by {
        assert(s.has_entry(i + 1));
        let k = s.entry_index(i + 1);
        assert(t.is_entry_of(k, i + 1));
    }
    assert(t.is_book_at(b, row.isbn));
    lemma_book_index(t, b);
}

/// Paying an unpaid ticket, with the ledger entry of the payment, keeps
/// the tables valid.
proof fn lemma_payment_wf(
    s: StoreState,
    row: order_list::ModelView,
    payment: transaction::ActiveModelView,
)
    requires
        s.wf(),
        s.has_order(row.id),
        s.transactions.len() < i64::MAX,
        !s.order(row.id).is_paid(),
        row.is_paid(),
        row == (order_list::ModelView {
            status: row.status,
            updated_at: row.updated_at,
            ..s.order(row.id)
        }),
        payment.ticket_id == row.id,
        payment.total_price == row.signed_price(),
    ensures
        s.with_order(row).with_transaction(payment).wf(),
{
    let t = s.with_order(row).with_transaction(payment);
    let n = s.transactions.len() as int;
    assert(t.books == s.books);
    assert forall|i: int| 0 <= i < t.orders.len() implies {
        &&& (#[trigger] t.orders[i]).id == i + 1
        &&& t.orders[i].total_count > 0
    } by {
        assert(s.orders[i].id == i + 1);
    }
    assert forall|k: int| 0 <= k < t.transactions.len() implies {
        let entry = #[trigger] t.transactions[k];
        &&& entry.id == k + 1
        &&& t.has_order(entry.ticket_id)
        &&& t.order(entry.ticket_id).is_paid()
        &&& entry.total_price == t.order(entry.ticket_id).signed_price()
    } by {
        if k < n {
            let entry = s.transactions[k];
            assert(s.has_order(entry.ticket_id));
            assert(s.order(entry.ticket_id).is_paid());
        }
    }
    assert forall|k: int, l: int| 0 <= k < l < t.transactions.len() implies (
    #[trigger] t.transactions[k]).ticket_id != (#[trigger] t.transactions[l]).ticket_id by {
        if l < n {
            assert(s.transactions[k].ticket_id != s.transactions[l].ticket_id);
        } else {
            let entry = s.transactions[k];
            assert(s.order(entry.ticket_id).is_paid());
        }
    }
    assert forall|i: int| 0 <= i < t.orders.len() && (#[trigger] t.orders[i]).is_paid() implies t.has_entry(
        i + 1,
    ) by {
        if i + 1 == row.id {
            assert(t.is_entry_of(n, i + 1));
        } else {
            assert(s.orders[i].is_paid());
            assert(s.has_entry(i + 1));
            let k = s.entry_index(i + 1);
            assert(t.is_entry_of(k, i + 1));
        }
    }
}

/// One more pending ticket for at least one copy keeps the tables valid.
proof fn lemma_new_order_wf(s: StoreState, order: order_list::ActiveModelView)
    requires
        s.wf(),
        s.orders.len() < i32::MAX,
        order.status == TicketStatus::Pending,
        order.total_count > 0,
    ensures
        s.with_new_order(order).wf(),
{
    let t = s.with_new_order(order);
    assert(t.books == s.books);
    assert(t.transactions == s.transactions);
    assert forall|k: int| 0 <= k < t.transactions.len() implies {
        let entry = #[trigger] t.transactions[k];
        &&& entry.id == k + 1
        &&& t.has_order(entry.ticket_id)
        &&& t.order(entry.ticket_id).is_paid()
        &&& entry.total_price == t.order(entry.ticket_id).signed_price()
    } by {
        let entry = s.transactions[k];
        assert(s.has_order(entry.ticket_id));
    }
    assert forall|i: int| 0 <= i < t.orders.len() && (#[trigger] t.orders[i]).is_paid() implies t.has_entry(
        i + 1,
    ) by {
        assert(i < s.orders.len());
        assert(s.orders[i].is_paid());
        assert(s.has_entry(i + 1));
        let k = s.entry_index(i + 1);
        assert(t.is_entry_of(k, i + 1));
    }
}

/// One more book, of a key that the store does not know, with no copy
/// anywhere, keeps the tables valid.
proof fn lemma_new_book_wf(s: StoreState, row: book::ModelView)
    requires
        s.wf(),
        !s.has_book(row.isbn),
        row.wf(),
    ensures
        (StoreState { books: s.books.push(row), ..s }).wf(),
        (StoreState { books: s.books.push(row), ..s }).has_book(row.isbn),
{
    let t = StoreState { books: s.books.push(row), ..s };
    let n = s.books.len() as int;
    assert forall|i: int, j: int| 0 <= i < j < t.books.len() implies (#[trigger] t.books[i]).isbn != (
    #[trigger] t.books[j]).isbn by {
        if j < n {
            assert(s.books[i].isbn != s.books[j].isbn);
        } else {
            assert(!s.is_book_at(i, row.isbn));
        }
    }
    assert forall|i: int| 0 <= i < t.books.len() implies (#[trigger] t.books[i]).wf() by {
        if i < n {
            assert(s.books[i].wf());
        }
    }
    assert forall|k: int| 0 <= k < t.transactions.len() implies {
        let entry = #[trigger] t.transactions[k];
        &&& entry.id == k + 1
        &&& t.has_order(entry.ticket_id)
        &&& t.order(entry.ticket_id).is_paid()
        &&& entry.total_price == t.order(entry.ticket_id).signed_price()
    } by {
        let entry = s.transactions[k];
        assert(s.has_order(entry.ticket_id));
    }
    assert forall|i: int| 0 <= i < t.orders.len() && (#[trigger] t.orders[i]).is_paid() implies t.has_entry(
        i + 1,
    ) by {
        assert(s.has_entry(i + 1));
        let k = s.entry_index(i + 1);
        assert(t.is_entry_of(k, i + 1));
    }
    assert(t.is_book_at(n, row.isbn));
}

/// The book of a key that the store knows has valid counters.
pub proof fn lemma_known_book_wf(s: StoreState, isbn: Seq<char>)
    requires
        s.wf(),
        s.has_book(isbn),
    ensures
        s.book(isbn).wf(),
        s.book(isbn).isbn == isbn,
        0 <= s.book_index(isbn) < s.books.len(),
{
    let b = s.book_index(isbn);
    assert(s.is_book_at(b, isbn));
    assert(s.books[b].wf());
}

/// Every operation leaves valid tables valid. In particular no counter of
/// a book is negative before or after an operation, and the ledger holds
/// one entry for each paid ticket and none for any other, before and
/// after.
pub proof fn lemma_operation_keeps_wf(s: StoreState, op: Operation, now: Timestamp)
    requires
        s.wf(),
    ensures
        apply(s, op, now).wf(),
{
    match op {
        Operation::SellBook { order, operator_id } => {
            lemma_sell_book_keeps_wf(s, order, operator_id, now);
        },
        Operation::PaySell { id } => {
            lemma_pay_sell_keeps_wf(s, id, now);
        },
        Operation::RevokeSell { id } => {
            lemma_revoke_keeps_wf(s, id, TicketType::Sell, now);
        },
        Operation::StockBook { order, operator_id } => {
            lemma_stock_book_keeps_wf(s, order, operator_id, now);
        },
        Operation::PayStock { id } => {
            lemma_pay_stock_keeps_wf(s, id, now);
        },
        Operation::RevokeStock { id } => {
            lemma_revoke_keeps_wf(s, id, TicketType::Stock, now);
        },
        Operation::ConfirmStock { id } => {
            lemma_confirm_stock_keeps_wf(s, id, now);
        },
        Operation::PutOnShelf { isbn, count } => {
            lemma_put_on_shelf_keeps_wf(s, isbn, count);
        },
        Operation::UpdateBook { isbn, update } => {
            lemma_update_book_keeps_wf(s, isbn, update);
        },
        Operation::CreateIfAbsent { isbn, info } => {
            lemma_create_if_absent_keeps_wf(s, isbn, info);
        },
        Operation::AdjustInventory { isbn, delta } => {
            lemma_adjust_inventory_keeps_wf(s, isbn, delta);
        },
        Operation::AdjustShelf { isbn, delta } => {
            lemma_adjust_shelf_keeps_wf(s, isbn, delta);
        },
    }
}

/// No counter of a book is negative before an operation, or after it.
pub proof fn lemma_counters_are_never_negative(s: StoreState, op: Operation, now: Timestamp)
    requires
        s.wf(),
    ensures
        forall|i: int|
            0 <= i < s.books.len() ==> (#[trigger] s.books[i]).inventory_count >= 0
                && s.books[i].on_shelf_count >= 0,
        forall|i: int|
            0 <= i < apply(s, op, now).books.len() ==> (#[trigger] apply(
                s,
                op,
                now,
            ).books[i]).inventory_count >= 0 && apply(s, op, now).books[i].on_shelf_count >= 0,
{
    lemma_operation_keeps_wf(s, op, now);
    let t = apply(s, op, now);
    assert forall|i: int| 0 <= i < s.books.len() implies (#[trigger] s.books[i]).inventory_count
        >= 0 && s.books[i].on_shelf_count >= 0 by {
        assert(s.books[i].wf());
    }
    assert forall|i: int| 0 <= i < t.books.len() implies (#[trigger] t.books[i]).inventory_count
        >= 0 && t.books[i].on_shelf_count >= 0 by {
        assert(t.books[i].wf());
    }
}

/// Recording a book keeps the tables valid, and puts the book there.
pub proof fn lemma_create_if_absent_keeps_wf(
    s: StoreState,
    isbn: Seq<char>,
    info: Option<book::NewBookInfoView>,
)
    requires
        s.wf(),
    ensures
        s.create_if_absent(isbn, info).0.wf(),
        s.create_if_absent(isbn, info).1 is Ok ==> s.create_if_absent(isbn, info).0.has_book(isbn),
{
    if s.create_if_absent(isbn, info).1 is Ok && !s.has_book(isbn) {
        lemma_new_book_wf(s, book::ModelView::created(isbn, info->0));
    }
}

/// Adjusting the warehouse of a book keeps the tables valid.
pub proof fn lemma_adjust_inventory_keeps_wf(s: StoreState, isbn: Seq<char>, delta: int)
    requires
        s.wf(),
    ensures
        s.adjust_inventory(isbn, delta).0.wf(),
{
    if s.adjust_inventory(isbn, delta).1 is Ok {
        lemma_known_book_wf(s, isbn);
        lemma_adjust_keeps_counters(s.book(isbn), delta);
        lemma_with_book_wf(s, s.book(isbn).adjust_inventory(delta)->Ok_0);
    }
}

/// Adjusting the shelf of a book keeps the tables valid.
pub proof fn lemma_adjust_shelf_keeps_wf(s: StoreState, isbn: Seq<char>, delta: int)
    requires
        s.wf(),
    ensures
        s.adjust_shelf(isbn, delta).0.wf(),
{
    if s.adjust_shelf(isbn, delta).1 is Ok {
        lemma_known_book_wf(s, isbn);
        lemma_adjust_keeps_counters(s.book(isbn), delta);
        lemma_with_book_wf(s, s.book(isbn).adjust_shelf(delta)->Ok_0);
    }
}

/// Opening a sell ticket keeps the tables valid.
pub proof fn lemma_sell_book_keeps_wf(
    s: StoreState,
    order: NewOrderView,
    operator_id: int,
    now: Timestamp,
)
    requires
        s.wf(),
    ensures
        s.sell_book(order, operator_id, now).0.wf(),
{
    if s.sell_book(order, operator_id, now).1 is Ok {
        lemma_new_order_wf(s, order.into_active_model(operator_id, TicketType::Sell, now));
    }
}

/// Paying a sell ticket keeps the tables valid.
pub proof fn lemma_pay_sell_keeps_wf(s: StoreState, id: int, now: Timestamp)
    requires
        s.wf(),
    ensures
        s.pay_sell(id, now).0.wf(),
{
    if s.pay_sell(id, now).1 is Ok {
        lemma_pay_sell_effect(s, id, now);
    }
}

/// Paying a stock ticket keeps the tables valid.
pub proof fn lemma_pay_stock_keeps_wf(s: StoreState, id: int, now: Timestamp)
    requires
        s.wf(),
    ensures
        s.pay_stock(id, now).0.wf(),
{
    if s.pay_stock(id, now).1 is Ok {
        let (order, payment) = workflow::spec_pay_stock(s.find_order(id), now)->Ok_0;
        assert(s.orders[id - 1].id == id);
        lemma_payment_wf(s, order, payment);
    }
}

/// Revoking a ticket keeps the tables valid.
pub proof fn lemma_revoke_keeps_wf(s: StoreState, id: int, typ: TicketType, now: Timestamp)
    requires
        s.wf(),
    ensures
        s.revoke(id, typ, now).0.wf(),
{
    if s.revoke(id, typ, now).1 is Ok {
        let order = workflow::spec_revoke(s.find_order(id), typ, now)->Ok_0;
        assert(s.orders[id - 1].id == id);
        lemma_with_order_wf(s, order);
    }
}

/// Confirming a stock ticket keeps the tables valid.
pub proof fn lemma_confirm_stock_keeps_wf(s: StoreState, id: int, now: Timestamp)
    requires
        s.wf(),
    ensures
        s.confirm_stock(id, now).0.wf(),
{
    if s.confirm_stock(id, now).1 is Ok {
        let order = (order_list::ModelView {
            status: TicketStatus::Done,
            updated_at: now,
            ..s.order(id)
        });
        assert(s.orders[id - 1].id == id);
        lemma_with_order_wf(s, order);
        let old_book = s.book(order.book_isbn);
        lemma_known_book_wf(s, order.book_isbn);
        lemma_adjust_keeps_counters(old_book, order.total_count);
        let book = old_book.adjust_inventory(order.total_count)->Ok_0;
        let t = s.with_order(order);
        assert(t.books == s.books);
        assert(t.is_book_at(s.book_index(order.book_isbn), book.isbn));
        lemma_with_book_wf(t, book);
    }
}

/// Opening a stock ticket keeps the tables valid, and the book of the
/// ticket is there afterwards.
pub proof fn lemma_stock_book_keeps_wf(
    s: StoreState,
    order: NewOrderView,
    operator_id: int,
    now: Timestamp,
)
    requires
        s.wf(),
    ensures
        s.stock_book(order, operator_id, now).0.wf(),
        s.stock_book(order, operator_id, now).1 is Ok ==> s.stock_book(
            order,
            operator_id,
            now,
        ).0.has_book(order.book_isbn),
{
    if s.stock_book(order, operator_id, now).1 is Ok {
        let opened = order.into_active_model(operator_id, TicketType::Stock, now);
        let with_book = s.create_if_absent(order.book_isbn, order.book).0;
        lemma_create_if_absent_keeps_wf(s, order.book_isbn, order.book);
        assert(with_book.orders == s.orders);
        lemma_new_order_wf(with_book, opened);
        let t = with_book.with_new_order(opened);
        assert(t.books == with_book.books);
    }
}

/// Moving copies between warehouse and shelf keeps the tables valid.
pub proof fn lemma_put_on_shelf_keeps_wf(s: StoreState, isbn: Seq<char>, count: int)
    requires
        s.wf(),
    ensures
        s.put_on_shelf(isbn, count).0.wf(),
{
    if s.put_on_shelf(isbn, count).1 is Ok {
        lemma_known_book_wf(s, isbn);
        lemma_adjust_keeps_counters(s.book(isbn), count);
        lemma_with_book_wf(s, s.book(isbn).put_on_shelf(count)->Ok_0);
    }
}

/// Replacing the description of a book keeps the tables valid.
pub proof fn lemma_update_book_keeps_wf(s: StoreState, isbn: Seq<char>, update: book::UpdateBookView)
    requires
        s.wf(),
    ensures
        s.update_book(isbn, update).0.wf(),
{
    if s.update_book(isbn, update).1 is Ok {
        lemma_known_book_wf(s, isbn);
        lemma_with_book_wf(s, s.book(isbn).updated(update));
    }
}

/// An operation that fails leaves the state as it was.
pub proof fn lemma_failure_changes_nothing(s: StoreState, op: Operation, now: Timestamp)
    requires
        fails(s, op, now),
    ensures
        apply(s, op, now) == s,
{
}

/// No operation moves a ticket but along an edge of its life, changes the
/// type, the price, the count or the book of a ticket, or removes one;
/// and a ticket that an operation opens is pending.
pub proof fn lemma_status_moves_forward(s: StoreState, op: Operation, now: Timestamp)
    requires
        s.wf(),
    ensures
        moves_forward(s, apply(s, op, now)),
{
    let t = apply(s, op, now);
    if fails(s, op, now) {
        assert(t == s);
    } else {
        assert forall|i: int| 0 <= i < s.orders.len() implies {
            let old_row = #[trigger] s.orders[i];
            let new_row = t.orders[i];
            &&& new_row.id == old_row.id
            &&& new_row.typ == old_row.typ
            &&& new_row.total_price == old_row.total_price
            &&& new_row.total_count == old_row.total_count
            &&& new_row.book_isbn == old_row.book_isbn
            &&& (new_row.status == old_row.status || old_row.status.spec_can_become(
                old_row.typ,
                new_row.status,
            ))
        } by {
            assert(s.orders[i].id == i + 1);
            match op {
                Operation::PaySell { id } => {
                    assert(s.orders[id - 1].id == id);
                },
                Operation::RevokeSell { id } => {
                    assert(s.orders[id - 1].id == id);
                },
                Operation::PayStock { id } => {
                    assert(s.orders[id - 1].id == id);
                },
                Operation::RevokeStock { id } => {
                    assert(s.orders[id - 1].id == id);
                },
                Operation::ConfirmStock { id } => {
                    assert(s.orders[id - 1].id == id);
                },
                _ => {},
            }
        }
    }
}

/// No operation changes a ticket that is done or revoked.
pub proof fn lemma_terminal_is_permanent(s: StoreState, op: Operation, now: Timestamp, id: int)
    requires
        s.wf(),
        s.has_order(id),
        s.order(id).status.spec_is_terminal(),
    ensures
        apply(s, op, now).has_order(id),
        apply(s, op, now).order(id).status == s.order(id).status,
{
    lemma_status_moves_forward(s, op, now);
    assert(s.orders[id - 1].id == id);
}

/// The state after the requests `ops`, handled one after the other, each
/// at its own time.
pub open spec fn apply_all(s: StoreState, ops: Seq<(Operation, Timestamp)>) -> StoreState
    decreases ops.len(),
{
    if ops.len() == 0 {
        s
    } else {
        apply(apply_all(s, ops.drop_last()), ops.last().0, ops.last().1)
    }
}

/// However many operations follow one another, the tables stay valid, no
/// ticket disappears or changes its type, and the status of a ticket
/// never falls back: its rank does not drop, and once the ticket is done
/// or revoked its status stays what it is.
pub proof fn lemma_status_only_ever_moves_forward(
    s: StoreState,
    ops: Seq<(Operation, Timestamp)>,
    id: int,
)
    requires
        s.wf(),
        s.has_order(id),
    ensures
        apply_all(s, ops).wf(),
        apply_all(s, ops).has_order(id),
        apply_all(s, ops).order(id).typ == s.order(id).typ,
        apply_all(s, ops).order(id).status.rank() >= s.order(id).status.rank(),
        s.order(id).status.spec_is_terminal() ==> apply_all(s, ops).order(id).status == s.order(
            id,
        ).status,
    decreases ops.len(),
{
    if ops.len() > 0 {
        let before = apply_all(s, ops.drop_last());
        lemma_status_only_ever_moves_forward(s, ops.drop_last(), id);
        lemma_operation_keeps_wf(before, ops.last().0, ops.last().1);
        lemma_status_moves_forward(before, ops.last().0, ops.last().1);
        let after = apply(before, ops.last().0, ops.last().1);
        assert(before.orders[id - 1].id == id);
        assert(after.orders[id - 1].typ == before.orders[id - 1].typ);
    }
}

/// Replacing a book by one of its key keeps every book under its key.
proof fn lemma_with_book_keeps_keys(s: StoreState, row: book::ModelView)
    requires
        s.has_book(row.isbn),
    ensures
        s.with_book(row).books.len() == s.books.len(),
        forall|i: int|
            0 <= i < s.books.len() ==> (#[trigger] s.with_book(row).books[i]).isbn
                == s.books[i].isbn,
{
    let b = s.book_index(row.isbn);
    assert(s.is_book_at(b, row.isbn));
}

/// Whether `after` has kept what `before` holds of the past: the ledger
/// of `before` is the start of the ledger of `after`, and every book of
/// `before` is in `after`, in its place and under its key.
pub open spec fn keeps_history(before: StoreState, after: StoreState) -> bool {
    &&& before.transactions.len() <= after.transactions.len()
    &&& after.transactions.take(before.transactions.len() as int) == before.transactions
    &&& before.books.len() <= after.books.len()
    &&& forall|i: int|
        0 <= i < before.books.len() ==> (#[trigger] after.books[i]).isbn == before.books[i].isbn
}

/// No operation rewrites history: the ledger only grows at its end, and
/// every book stays, under its key.
pub proof fn lemma_history_is_kept(s: StoreState, op: Operation, now: Timestamp)
    requires
        s.wf(),
    ensures
        keeps_history(s, apply(s, op, now)),
{
    let t = apply(s, op, now);
    assert(s.transactions.take(s.transactions.len() as int) =~= s.transactions);
    if fails(s, op, now) {
        assert(t == s);
    } else {
        match op {
            Operation::SellBook { order, operator_id } => {
                assert(t.books == s.books);
                assert(t.transactions == s.transactions);
            },
            Operation::StockBook { order, operator_id } => {
                assert(t.transactions == s.transactions);
            },
            Operation::CreateIfAbsent { isbn, info } => {
                assert(t.transactions == s.transactions);
            },
            Operation::PaySell { id } => {
                let (order, book, payment) = workflow::spec_pay_sell(
                    s.find_order(id),
                    s.book_of_order(id),
                    now,
                )->Ok_0;
                let u = s.with_order(order);
                assert(u.books == s.books);
                lemma_with_book_keeps_keys(u, book);
                assert(t.books == u.with_book(book).books);
                assert(t.transactions.take(s.transactions.len() as int) =~= s.transactions);
            },
            Operation::PayStock { id } => {
                assert(t.books == s.books);
                assert(t.transactions.take(s.transactions.len() as int) =~= s.transactions);
            },
            Operation::RevokeSell { id } => {
                assert(t.books == s.books);
                assert(t.transactions == s.transactions);
            },
            Operation::RevokeStock { id } => {
                assert(t.books == s.books);
                assert(t.transactions == s.transactions);
            },
            Operation::ConfirmStock { id } => {
                let (order, book) = workflow::spec_confirm_stock(
                    s.find_order(id),
                    s.book_of_order(id),
                    now,
                )->Ok_0;
                let u = s.with_order(order);
                assert(u.books == s.books);
                lemma_with_book_keeps_keys(u, book);
                assert(t.transactions == s.transactions);
            },
            Operation::PutOnShelf { isbn, count } => {
                lemma_with_book_keeps_keys(s, s.book(isbn).put_on_shelf(count)->Ok_0);
                assert(t.transactions == s.transactions);
            },
            Operation::UpdateBook { isbn, update } => {
                lemma_with_book_keeps_keys(s, s.book(isbn).updated(update));
                assert(t.transactions == s.transactions);
            },
            Operation::AdjustInventory { isbn, delta } => {
                lemma_with_book_keeps_keys(s, s.book(isbn).adjust_inventory(delta)->Ok_0);
                assert(t.transactions == s.transactions);
            },
            Operation::AdjustShelf { isbn, delta } => {
                lemma_with_book_keeps_keys(s, s.book(isbn).adjust_shelf(delta)->Ok_0);
                assert(t.transactions == s.transactions);
            },
        }
    }
}

/// The number of ledger entries that record a payment of the ticket `id`.
pub open spec fn entry_count(entries: Seq<transaction::ModelView>, id: int) -> nat
    decreases entries.len(),
{
    if entries.len() == 0 {
        0
    } else {
        entry_count(entries.drop_last(), id) + if entries.last().ticket_id == id {
            1nat
        } else {
            0nat
        }
    }
}

proof fn lemma_count_none(entries: Seq<transaction::ModelView>, id: int)
    requires
        forall|k: int| 0 <= k < entries.len() ==> (#[trigger] entries[k]).ticket_id != id,
    ensures
        entry_count(entries, id) == 0,
    decreases entries.len(),
{
    if entries.len() > 0 {
        assert(entries.last().ticket_id != id);
        assert forall|k: int| 0 <= k < entries.drop_last().len() implies (
        #[trigger] entries.drop_last()[k]).ticket_id != id by {
            assert(entries[k].ticket_id != id);
        }
        lemma_count_none(entries.drop_last(), id);
    }
}

proof fn lemma_count_one(entries: Seq<transaction::ModelView>, id: int, at: int)
    requires
        0 <= at < entries.len(),
        entries[at].ticket_id == id,
        forall|k: int|
            0 <= k < entries.len() && k != at ==> (#[trigger] entries[k]).ticket_id != id,
    ensures
        entry_count(entries, id) == 1,
    decreases entries.len(),
{
    let rest = entries.drop_last();
    if at == entries.len() - 1 {
        assert forall|k: int| 0 <= k < rest.len() implies (#[trigger] rest[k]).ticket_id != id by {
            assert(entries[k].ticket_id != id);
        }
        lemma_count_none(rest, id);
    } else {
        assert(entries.last().ticket_id != id);
        assert(rest[at] == entries[at]);
        assert forall|k: int| 0 <= k < rest.len() && k != at implies (#[trigger] rest[k]).ticket_id
            != id by {
            assert(entries[k].ticket_id != id);
        }
        lemma_count_one(rest, id, at);
    }
}

/// The ledger holds exactly one entry for a ticket that has been paid,
/// with the signed price of the ticket, and none for a ticket that has
/// not: one that is pending, or was revoked.
pub proof fn lemma_one_entry_per_payment(s: StoreState, id: int)
    requires
        s.wf(),
        s.has_order(id),
    ensures
        entry_count(s.transactions, id) == if s.order(id).is_paid() {
            1nat
        } else {
            0nat
        },
        s.order(id).is_paid() ==> s.has_entry(id) && s.transactions[s.entry_index(
            id,
        )].total_price == s.order(id).signed_price(),
        s.order(id).status == TicketStatus::Pending || s.order(id).status == TicketStatus::Revoked
            ==> !s.order(id).is_paid(),
{
    assert(s.orders[id - 1].id == id);
    if s.order(id).is_paid() {
        assert(s.has_entry(id));
        let at = s.entry_index(id);
        assert(s.is_entry_of(at, id));
        assert forall|k: int| 0 <= k < s.transactions.len() && k != at implies (
        #[trigger] s.transactions[k]).ticket_id != id by {
            if k < at {
                assert(s.transactions[k].ticket_id != s.transactions[at].ticket_id);
            } else {
                assert(s.transactions[at].ticket_id != s.transactions[k].ticket_id);
            }
        }
        lemma_count_one(s.transactions, id, at);
    } else {
        assert forall|k: int| 0 <= k < s.transactions.len() implies (
        #[trigger] s.transactions[k]).ticket_id != id by {
            let entry = s.transactions[k];
            assert(s.order(entry.ticket_id).is_paid());
        }
        lemma_count_none(s.transactions, id);
    }
}

/// After any operation on valid tables, the ledger holds exactly one
/// entry for each paid ticket and none for any other.
pub proof fn lemma_one_entry_per_payment_after(
    s: StoreState,
    op: Operation,
    now: Timestamp,
    id: int,
)
    requires
        s.wf(),
        apply(s, op, now).has_order(id),
    ensures
        entry_count(apply(s, op, now).transactions, id) == if apply(s, op, now).order(
            id,
        ).is_paid() {
            1nat
        } else {
            0nat
        },
{
    lemma_operation_keeps_wf(s, op, now);
    lemma_one_entry_per_payment(apply(s, op, now), id);
}

/// Of two payments of one pending sell ticket, whichever comes first
/// takes effect, once: the ticket is done, the ledger has one entry for
/// it, and the shelf has lost its copies once. The second finds the
/// ticket done, fails with a conflict and changes nothing.
pub proof fn lemma_second_payment_conflicts(
    s: StoreState,
    id: int,
    first: Timestamp,
    second: Timestamp,
)
    requires
        s.wf(),
        s.pay_sell(id, first).1 is Ok,
    ensures
        s.order(id).status == TicketStatus::Pending,
        s.pay_sell(id, first).0.order(id).status == TicketStatus::Done,
        s.pay_sell(id, first).0.transactions.len() == s.transactions.len() + 1,
        entry_count(s.pay_sell(id, first).0.transactions, id) == 1,
        s.pay_sell(id, first).0.book(s.order(id).book_isbn).on_shelf_count == s.book(
            s.order(id).book_isbn,
        ).on_shelf_count - s.order(id).total_count,
        s.pay_sell(id, first).0.pay_sell(id, second) == (
            s.pay_sell(id, first).0,
            Err::<order_list::GetOrderView, crate::utils::errors::AErrorView>(
                status_conflict(TicketStatus::Pending, TicketStatus::Done),
            ),
        ),
{
    let t = s.pay_sell(id, first).0;
    lemma_pay_sell_effect(s, id, first);
    lemma_one_entry_per_payment(t, id);
}

/// What a payment of a sell ticket that succeeds leaves behind.
proof fn lemma_pay_sell_effect(s: StoreState, id: int, now: Timestamp)
    requires
        s.wf(),
        s.pay_sell(id, now).1 is Ok,
    ensures
        s.pay_sell(id, now).0.wf(),
        s.has_order(id),
        s.order(id).status == TicketStatus::Pending,
        s.order(id).typ == TicketType::Sell,
        s.has_book(s.order(id).book_isbn),
        s.pay_sell(id, now).0.has_order(id),
        s.pay_sell(id, now).0.order(id) == (order_list::ModelView {
            status: TicketStatus::Done,
            updated_at: now,
            ..s.order(id)
        }),
        s.pay_sell(id, now).0.transactions.len() == s.transactions.len() + 1,
        s.pay_sell(id, now).0.has_book(s.order(id).book_isbn),
        s.pay_sell(id, now).0.book(s.order(id).book_isbn) == (book::ModelView {
            on_shelf_count: s.book(s.order(id).book_isbn).on_shelf_count - s.order(
                id,
            ).total_count,
            ..s.book(s.order(id).book_isbn)
        }),
{
    let (order, payment) = workflow::spec_pay_order(
        s.find_order(id),
        TicketStatus::Pending,
        TicketType::Sell,
        TicketStatus::Done,
        now,
    )->Ok_0;
    assert(s.orders[id - 1].id == id);
    let old_book = s.book(order.book_isbn);
    lemma_known_book_wf(s, order.book_isbn);
    lemma_adjust_keeps_counters(old_book, -order.total_count);
    let book = old_book.adjust_shelf(-order.total_count)->Ok_0;
    lemma_payment_wf(s, order, payment);
    let t = s.with_order(order).with_transaction(payment);
    assert(t.books == s.books);
    assert(t.is_book_at(s.book_index(order.book_isbn), book.isbn));
    lemma_with_book_wf(t, book);
    assert(t.with_book(book) == s.with_order(order).with_book(book).with_transaction(payment));
}

/// Whether the request `op` asks for a ticket to be moved along an edge
/// of its life.
pub open spec fn is_transition(op: Operation) -> bool {
    op is PaySell || op is RevokeSell || op is PayStock || op is RevokeStock || op is ConfirmStock
}

/// No ticket is moved along the same edge twice: where a request to move
/// a ticket has taken effect, the same request made again fails with a
/// conflict and changes nothing.
pub proof fn lemma_transition_happens_once(
    s: StoreState,
    op: Operation,
    first: Timestamp,
    second: Timestamp,
)
    requires
        s.wf(),
        is_transition(op),
        !fails(s, op, first),
    ensures
        fails(apply(s, op, first), op, second),
        apply(apply(s, op, first), op, second) == apply(s, op, first),
{
    let t = apply(s, op, first);
    lemma_operation_keeps_wf(s, op, first);
    lemma_status_moves_forward(s, op, first);
    match op {
        Operation::PaySell { id } => {
            lemma_pay_sell_effect(s, id, first);
        },
        Operation::RevokeSell { id } => {
            assert(s.orders[id - 1].id == id);
        },
        Operation::PayStock { id } => {
            assert(s.orders[id - 1].id == id);
        },
        Operation::RevokeStock { id } => {
            assert(s.orders[id - 1].id == id);
        },
        Operation::ConfirmStock { id } => {
            assert(s.orders[id - 1].id == id);
            lemma_known_book_wf(s, s.order(id).book_isbn);
        },
        _ => {},
    }
}

} // verus!
