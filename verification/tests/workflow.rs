use bookstore::api::books::PutOnShelfRequest;
use bookstore::api::books::adjust_inventory;
use bookstore::api::books::adjust_shelf;
use bookstore::api::books::create_if_absent;
use bookstore::api::books::put_on_shelf;
use bookstore::api::books::update_book;
use bookstore::api::orders::confirm_stock;
use bookstore::api::orders::confirm_stock_at;
use bookstore::api::orders::pay_sell;
use bookstore::api::orders::pay_sell_at;
use bookstore::api::orders::pay_stock;
use bookstore::api::orders::pay_stock_at;
use bookstore::api::orders::revoke_sell;
use bookstore::api::orders::revoke_sell_at;
use bookstore::api::orders::revoke_stock;
use bookstore::api::orders::revoke_stock_at;
use bookstore::api::orders::sell_book;
use bookstore::api::orders::sell_book_at;
use bookstore::api::orders::stock_book;
use bookstore::api::orders::stock_book_at;
use bookstore::clock::Timestamp;
use bookstore::entity::TicketStatus;
use bookstore::entity::TicketType;
use bookstore::entity::book::NewBookInfo;
use bookstore::entity::book::UpdateBook;
use bookstore::entity::order_list::NewOrder;
use bookstore::store::Store;
use bookstore::utils::errors::StatusCode;

/// The time on the wall, as an instant.
fn clock() -> Timestamp {
    let t = chrono::Utc::now();
    Timestamp { seconds: t.timestamp(), nanos: t.timestamp_subsec_nanos() }
}

const ISBN: &str = "978-0-201-03801-0";

fn at(seconds: i64) -> Timestamp {
    Timestamp { seconds, nanos: 0 }
}

fn info() -> NewBookInfo {
    NewBookInfo {
        title: "The Art of Computer Programming".to_string(),
        author: "Donald E. Knuth".to_string(),
        publisher: "Addison-Wesley".to_string(),
        out_price: 19_900,
    }
}

fn order(count: i32, price: u32, book: Option<NewBookInfo>) -> NewOrder {
    NewOrder { book_isbn: ISBN.to_string(), total_price: price, total_count: count, book }
}

/// A store in which ten copies were bought, paid and confirmed.
fn stocked() -> Store {
    let mut db = Store::new();
    stock_book_at(order(10, 150_000, Some(info())), 7, at(100), &mut db).unwrap();
    pay_stock_at(1, at(200), &mut db).unwrap();
    confirm_stock_at(1, at(300), &mut db).unwrap();
    db
}

/// A store with ten copies on the shelf and a pending sale of four as ticket 2.
fn shelved_with_sale() -> Store {
    let mut db = stocked();
    put_on_shelf(&ISBN.to_string(), PutOnShelfRequest { put_count: 10 }, &mut db).unwrap();
    sell_book_at(order(4, 79_600, None), 3, at(400), &mut db).unwrap();
    db
}

#[test]
fn a_new_store_is_empty() {
    let db = Store::new();
    assert!(db.books.is_empty());
    assert!(db.orders.is_empty());
    assert!(db.transactions.is_empty());
}

#[test]
fn stock_ticket_for_unknown_book_creates_the_book() {
    let mut db = Store::new();
    let shown = stock_book_at(order(10, 150_000, Some(info())), 7, at(100), &mut db).unwrap();
    assert_eq!(shown.id, 1);
    assert_eq!(shown.status, TicketStatus::Pending);
    assert_eq!(shown.total_count, 10);
    assert_eq!(shown.total_price, 150_000);
    assert_eq!(shown.operator_id, 7);
    assert_eq!(shown.book_isbn, ISBN);
    assert_eq!(shown.created_at, at(100));
    assert_eq!(shown.updated_at, at(100));
    assert_eq!(db.books.len(), 1);
    assert_eq!(db.books[0].isbn, ISBN);
    assert_eq!(db.books[0].title, "The Art of Computer Programming");
    assert_eq!(db.books[0].author, "Donald E. Knuth");
    assert_eq!(db.books[0].publisher, "Addison-Wesley");
    assert_eq!(db.books[0].out_price, 19_900);
    assert_eq!(db.books[0].inventory_count, 0);
    assert_eq!(db.books[0].on_shelf_count, 0);
    assert_eq!(db.orders.len(), 1);
    assert_eq!(db.orders[0].status, TicketStatus::Pending);
    assert_eq!(db.orders[0].typ, TicketType::Stock);
    assert!(db.transactions.is_empty());
}

#[test]
fn paying_the_stock_ticket_books_the_price_as_expenditure() {
    let mut db = Store::new();
    stock_book_at(order(10, 150_000, Some(info())), 7, at(100), &mut db).unwrap();
    let shown = pay_stock_at(1, at(200), &mut db).unwrap();
    assert_eq!(shown.status, TicketStatus::StockPaid);
    assert_eq!(shown.updated_at, at(200));
    assert_eq!(shown.created_at, at(100));
    assert_eq!(db.orders[0].status, TicketStatus::StockPaid);
    assert_eq!(db.orders[0].updated_at, at(200));
    assert_eq!(db.transactions.len(), 1);
    assert_eq!(db.transactions[0].id, 1);
    assert_eq!(db.transactions[0].ticket_id, 1);
    assert_eq!(db.transactions[0].total_price, -150_000);
    assert_eq!(db.transactions[0].created_at, at(200));
    assert_eq!(db.books[0].inventory_count, 0);
}

#[test]
fn confirming_the_stock_ticket_fills_the_warehouse() {
    let mut db = Store::new();
    stock_book_at(order(10, 150_000, Some(info())), 7, at(100), &mut db).unwrap();
    pay_stock_at(1, at(200), &mut db).unwrap();
    let shown = confirm_stock_at(1, at(300), &mut db).unwrap();
    assert_eq!(shown.status, TicketStatus::Done);
    assert_eq!(shown.updated_at, at(300));
    assert_eq!(db.orders[0].status, TicketStatus::Done);
    assert_eq!(db.books[0].inventory_count, 10);
    assert_eq!(db.books[0].on_shelf_count, 0);
    assert_eq!(db.transactions.len(), 1);
}

#[test]
fn shelving_then_selling_moves_the_copies_and_books_the_revenue() {
    let mut db = stocked();
    let isbn = ISBN.to_string();
    let book = put_on_shelf(&isbn, PutOnShelfRequest { put_count: 10 }, &mut db).unwrap();
    assert_eq!(book.inventory_count, 0);
    assert_eq!(book.on_shelf_count, 10);
    assert_eq!(db.books[0].inventory_count, 0);
    assert_eq!(db.books[0].on_shelf_count, 10);

    let opened = sell_book_at(order(4, 79_600, None), 3, at(400), &mut db).unwrap();
    assert_eq!(opened.id, 2);
    assert_eq!(opened.status, TicketStatus::Pending);
    assert_eq!(db.orders[1].typ, TicketType::Sell);
    assert_eq!(db.books[0].on_shelf_count, 10);

    let paid = pay_sell_at(2, at(500), &mut db).unwrap();
    assert_eq!(paid.status, TicketStatus::Done);
    assert_eq!(paid.updated_at, at(500));
    assert_eq!(db.books[0].on_shelf_count, 6);
    assert_eq!(db.books[0].inventory_count, 0);
    assert_eq!(db.transactions.len(), 2);
    assert_eq!(db.transactions[1].id, 2);
    assert_eq!(db.transactions[1].ticket_id, 2);
    assert_eq!(db.transactions[1].total_price, 79_600);
    assert_eq!(db.transactions[1].created_at, at(500));
}

#[test]
fn paying_a_sale_from_an_empty_shelf_changes_nothing() {
    let mut db = stocked();
    sell_book_at(order(4, 79_600, None), 3, at(400), &mut db).unwrap();
    let before = db.clone();
    let err = pay_sell_at(2, at(500), &mut db).unwrap_err();
    assert_eq!(err.status, StatusCode::Conflict);
    assert_eq!(err.message, "Not enough books on shelf");
    assert_eq!(db, before);
    assert_eq!(db.orders[1].status, TicketStatus::Pending);
    assert_eq!(db.transactions.len(), 1);
    assert_eq!(db.books[0].on_shelf_count, 0);
    assert_eq!(db.books[0].inventory_count, 10);
}

#[test]
fn the_second_payment_of_a_sale_conflicts_and_changes_nothing() {
    let mut db = shelved_with_sale();
    pay_sell_at(2, at(500), &mut db).unwrap();
    let after_first = db.clone();
    let err = pay_sell_at(2, at(600), &mut db).unwrap_err();
    assert_eq!(err.status, StatusCode::Conflict);
    assert_eq!(err.message, "Order status is not Pending, but Done");
    assert_eq!(db, after_first);
    assert_eq!(db.books[0].on_shelf_count, 6);
    assert_eq!(db.transactions.iter().filter(|t| t.ticket_id == 2).count(), 1);
}

#[test]
fn the_second_payment_of_a_stock_ticket_conflicts() {
    let mut db = Store::new();
    stock_book_at(order(10, 150_000, Some(info())), 7, at(100), &mut db).unwrap();
    pay_stock_at(1, at(200), &mut db).unwrap();
    let before = db.clone();
    let err = pay_stock_at(1, at(250), &mut db).unwrap_err();
    assert_eq!(err.status, StatusCode::Conflict);
    assert_eq!(err.message, "Order status is not Pending, but StockPaid");
    assert_eq!(db, before);
}

#[test]
fn a_sale_needs_a_positive_count() {
    let mut db = stocked();
    let before = db.clone();
    for count in [0, -1, i32::MIN] {
        let err = sell_book_at(order(count, 100, None), 3, at(400), &mut db).unwrap_err();
        assert_eq!(err.status, StatusCode::UnprocessableEntity);
        assert_eq!(err.message, "Total count must be positive");
    }
    assert_eq!(db, before);
}

#[test]
fn a_sale_needs_a_known_book() {
    let mut db = Store::new();
    let err = sell_book_at(order(1, 100, Some(info())), 3, at(400), &mut db).unwrap_err();
    assert_eq!(err.status, StatusCode::NotFound);
    assert_eq!(err.message, "Book not found");
    assert_eq!(db, Store::new());
}

#[test]
fn a_stock_ticket_needs_a_positive_count() {
    let mut db = Store::new();
    for count in [0, -5] {
        let err = stock_book_at(order(count, 100, Some(info())), 3, at(400), &mut db).unwrap_err();
        assert_eq!(err.status, StatusCode::UnprocessableEntity);
        assert_eq!(err.message, "Total count must be greater than 0");
    }
    assert_eq!(db, Store::new());
}

#[test]
fn a_stock_ticket_for_an_unknown_book_needs_its_description() {
    let mut db = Store::new();
    let err = stock_book_at(order(3, 100, None), 3, at(400), &mut db).unwrap_err();
    assert_eq!(err.status, StatusCode::UnprocessableEntity);
    assert_eq!(err.message, "Book not found and info not provided");
    assert_eq!(db, Store::new());
}

#[test]
fn a_stock_ticket_for_a_known_book_leaves_the_book_alone() {
    let mut db = stocked();
    let other = NewBookInfo {
        title: "Another title".to_string(),
        author: "Somebody".to_string(),
        publisher: "Nobody".to_string(),
        out_price: 1,
    };
    let shown = stock_book_at(order(5, 500, Some(other)), 9, at(400), &mut db).unwrap();
    assert_eq!(shown.id, 2);
    assert_eq!(db.books.len(), 1);
    assert_eq!(db.books[0].title, "The Art of Computer Programming");
    assert_eq!(db.books[0].inventory_count, 10);
    let again = stock_book_at(order(5, 500, None), 9, at(401), &mut db).unwrap();
    assert_eq!(again.id, 3);
    assert_eq!(db.books.len(), 1);
}

#[test]
fn an_unknown_ticket_is_not_found() {
    let mut db = stocked();
    let before = db.clone();
    for id in [0, -1, 2, i32::MAX, i32::MIN] {
        for err in [
            pay_sell_at(id, at(1), &mut db).unwrap_err(),
            pay_stock_at(id, at(1), &mut db).unwrap_err(),
            confirm_stock_at(id, at(1), &mut db).unwrap_err(),
            revoke_sell_at(id, at(1), &mut db).unwrap_err(),
            revoke_stock_at(id, at(1), &mut db).unwrap_err(),
        ] {
            assert_eq!(err.status, StatusCode::NotFound);
            assert_eq!(err.message, "Order not found");
        }
    }
    assert_eq!(db, before);
}

#[test]
fn a_ticket_of_the_other_type_conflicts() {
    let mut db = shelved_with_sale();
    stock_book_at(order(1, 100, None), 7, at(450), &mut db).unwrap();
    let before = db.clone();
    let err = pay_stock_at(2, at(500), &mut db).unwrap_err();
    assert_eq!(err.status, StatusCode::Conflict);
    assert_eq!(err.message, "Order type is not Stock, but Sell");
    let err = revoke_stock_at(2, at(500), &mut db).unwrap_err();
    assert_eq!(err.message, "Order type is not Stock, but Sell");
    let err = pay_sell_at(3, at(500), &mut db).unwrap_err();
    assert_eq!(err.status, StatusCode::Conflict);
    assert_eq!(err.message, "Order type is not Sell, but Stock");
    let err = revoke_sell_at(3, at(500), &mut db).unwrap_err();
    assert_eq!(err.message, "Order type is not Sell, but Stock");
    assert_eq!(db, before);
}

#[test]
fn the_status_is_looked_at_before_the_type() {
    let mut db = stocked();
    let err = pay_sell_at(1, at(500), &mut db).unwrap_err();
    assert_eq!(err.message, "Order status is not Pending, but Done");
}

#[test]
fn confirming_needs_a_paid_stock_ticket() {
    let mut db = Store::new();
    stock_book_at(order(10, 150_000, Some(info())), 7, at(100), &mut db).unwrap();
    let before = db.clone();
    let err = confirm_stock_at(1, at(200), &mut db).unwrap_err();
    assert_eq!(err.status, StatusCode::Conflict);
    assert_eq!(err.message, "Order status is not StockPaid, but Pending");
    assert_eq!(db, before);
}

#[test]
fn revoking_touches_neither_stock_nor_ledger() {
    let mut db = shelved_with_sale();
    let books = db.books.clone();
    let ledger = db.transactions.clone();
    let shown = revoke_sell_at(2, at(500), &mut db).unwrap();
    assert_eq!(shown.status, TicketStatus::Revoked);
    assert_eq!(shown.updated_at, at(500));
    assert_eq!(db.orders[1].status, TicketStatus::Revoked);
    assert_eq!(db.books, books);
    assert_eq!(db.transactions, ledger);

    stock_book_at(order(2, 10, None), 7, at(600), &mut db).unwrap();
    let shown = revoke_stock_at(3, at(700), &mut db).unwrap();
    assert_eq!(shown.status, TicketStatus::Revoked);
    assert_eq!(db.books, books);
    assert_eq!(db.transactions, ledger);
}

#[test]
fn a_ticket_that_is_done_or_revoked_stays_so() {
    let mut db = shelved_with_sale();
    revoke_sell_at(2, at(500), &mut db).unwrap();
    let before = db.clone();
    for err in [
        pay_sell_at(2, at(600), &mut db).unwrap_err(),
        revoke_sell_at(2, at(600), &mut db).unwrap_err(),
        pay_stock_at(2, at(600), &mut db).unwrap_err(),
        confirm_stock_at(2, at(600), &mut db).unwrap_err(),
        revoke_stock_at(2, at(600), &mut db).unwrap_err(),
    ] {
        assert_eq!(err.status, StatusCode::Conflict);
    }
    // ticket 1 is done
    for err in [
        pay_stock_at(1, at(600), &mut db).unwrap_err(),
        confirm_stock_at(1, at(600), &mut db).unwrap_err(),
        revoke_stock_at(1, at(600), &mut db).unwrap_err(),
        pay_sell_at(1, at(600), &mut db).unwrap_err(),
        revoke_sell_at(1, at(600), &mut db).unwrap_err(),
    ] {
        assert_eq!(err.status, StatusCode::Conflict);
    }
    assert_eq!(db, before);
}

#[test]
fn a_paid_stock_ticket_cannot_be_revoked() {
    let mut db = Store::new();
    stock_book_at(order(10, 150_000, Some(info())), 7, at(100), &mut db).unwrap();
    pay_stock_at(1, at(200), &mut db).unwrap();
    let err = revoke_stock_at(1, at(300), &mut db).unwrap_err();
    assert_eq!(err.status, StatusCode::Conflict);
    assert_eq!(err.message, "Order status is not Pending, but StockPaid");
}

#[test]
fn shelving_more_than_the_warehouse_holds_conflicts() {
    let mut db = stocked();
    let before = db.clone();
    let err = put_on_shelf(&ISBN.to_string(), PutOnShelfRequest { put_count: 11 }, &mut db).unwrap_err();
    assert_eq!(err.status, StatusCode::Conflict);
    assert_eq!(err.message, "Inventory count is not enough");
    assert_eq!(db, before);
}

#[test]
fn copies_can_be_pulled_back_off_the_shelf() {
    let mut db = stocked();
    let isbn = ISBN.to_string();
    put_on_shelf(&isbn, PutOnShelfRequest { put_count: 7 }, &mut db).unwrap();
    let book = put_on_shelf(&isbn, PutOnShelfRequest { put_count: -3 }, &mut db).unwrap();
    assert_eq!(book.inventory_count, 6);
    assert_eq!(book.on_shelf_count, 4);
    let before = db.clone();
    let err = put_on_shelf(&isbn, PutOnShelfRequest { put_count: -5 }, &mut db).unwrap_err();
    assert_eq!(err.status, StatusCode::Conflict);
    assert_eq!(err.message, "On shelf count is not enough");
    assert_eq!(db, before);
    let book = put_on_shelf(&isbn, PutOnShelfRequest { put_count: 0 }, &mut db).unwrap();
    assert_eq!(book.inventory_count, 6);
    assert_eq!(book.on_shelf_count, 4);
}

#[test]
fn shelving_stays_within_the_counters() {
    let mut db = stocked();
    db.books[0].inventory_count = i32::MAX;
    db.books[0].on_shelf_count = 1;
    let before = db.clone();
    let isbn = ISBN.to_string();
    let err = put_on_shelf(&isbn, PutOnShelfRequest { put_count: i32::MAX }, &mut db).unwrap_err();
    assert_eq!(err.status, StatusCode::Conflict);
    assert_eq!(err.message, "On shelf count is out of range");
    let err = put_on_shelf(&isbn, PutOnShelfRequest { put_count: -1 }, &mut db).unwrap_err();
    assert_eq!(err.status, StatusCode::Conflict);
    assert_eq!(err.message, "Inventory count is out of range");
    let err = put_on_shelf(&isbn, PutOnShelfRequest { put_count: i32::MIN }, &mut db).unwrap_err();
    assert_eq!(err.status, StatusCode::Conflict);
    assert_eq!(db, before);
}

#[test]
fn confirming_stays_within_the_counter() {
    let mut db = Store::new();
    stock_book_at(order(10, 150_000, Some(info())), 7, at(100), &mut db).unwrap();
    pay_stock_at(1, at(200), &mut db).unwrap();
    db.books[0].inventory_count = i32::MAX - 9;
    let before = db.clone();
    let err = confirm_stock_at(1, at(300), &mut db).unwrap_err();
    assert_eq!(err.status, StatusCode::Conflict);
    assert_eq!(err.message, "Inventory count is out of range");
    assert_eq!(db, before);
    db.books[0].inventory_count = i32::MAX - 10;
    confirm_stock_at(1, at(300), &mut db).unwrap();
    assert_eq!(db.books[0].inventory_count, i32::MAX);
}

#[test]
fn shelving_an_unknown_book_is_not_found() {
    let mut db = stocked();
    let before = db.clone();
    let err = put_on_shelf(&"none".to_string(), PutOnShelfRequest { put_count: 1 }, &mut db).unwrap_err();
    assert_eq!(err.status, StatusCode::NotFound);
    assert_eq!(err.message, "Book not found");
    assert_eq!(db, before);
}

#[test]
fn a_ticket_whose_book_is_gone_is_not_paid() {
    let mut db = shelved_with_sale();
    db.books[0].isbn = "renamed".to_string();
    let before = db.clone();
    let err = pay_sell_at(2, at(500), &mut db).unwrap_err();
    assert_eq!(err.status, StatusCode::NotFound);
    assert_eq!(err.message, "Book not found");
    assert_eq!(db, before);

    let mut db = Store::new();
    stock_book_at(order(10, 150_000, Some(info())), 7, at(100), &mut db).unwrap();
    pay_stock_at(1, at(200), &mut db).unwrap();
    db.books[0].isbn = "renamed".to_string();
    let before = db.clone();
    let err = confirm_stock_at(1, at(300), &mut db).unwrap_err();
    assert_eq!(err.status, StatusCode::NotFound);
    assert_eq!(err.message, "Cannot find the book");
    assert_eq!(db, before);
}

#[test]
fn updating_a_book_keeps_its_key_and_counters() {
    let mut db = stocked();
    let update = UpdateBook {
        title: "TAOCP".to_string(),
        author: "Knuth".to_string(),
        publisher: "AW".to_string(),
        out_price: 25_000,
    };
    let book = update_book(&ISBN.to_string(), update.clone(), &mut db).unwrap();
    assert_eq!(book.isbn, ISBN);
    assert_eq!(book.title, "TAOCP");
    assert_eq!(book.author, "Knuth");
    assert_eq!(book.publisher, "AW");
    assert_eq!(book.out_price, 25_000);
    assert_eq!(book.inventory_count, 10);
    assert_eq!(book.on_shelf_count, 0);
    assert_eq!(db.books[0], book);
    let err = update_book(&"none".to_string(), update, &mut db).unwrap_err();
    assert_eq!(err.status, StatusCode::NotFound);
    assert_eq!(err.message, "Book not found");
}

#[test]
fn books_are_told_apart_by_their_key() {
    let mut db = Store::new();
    stock_book_at(order(10, 1, Some(info())), 7, at(100), &mut db).unwrap();
    let second = NewOrder {
        book_isbn: "978-0-13-110362-7".to_string(),
        total_price: 2,
        total_count: 3,
        book: Some(NewBookInfo {
            title: "The C Programming Language".to_string(),
            author: "Kernighan, Ritchie".to_string(),
            publisher: "Prentice Hall".to_string(),
            out_price: 6_000,
        }),
    };
    stock_book_at(second, 7, at(110), &mut db).unwrap();
    assert_eq!(db.books.len(), 2);
    pay_stock_at(2, at(120), &mut db).unwrap();
    confirm_stock_at(2, at(130), &mut db).unwrap();
    assert_eq!(db.books[0].inventory_count, 0);
    assert_eq!(db.books[1].inventory_count, 3);
    assert_eq!(db.transactions[0].total_price, -2);
    let book = put_on_shelf(&"978-0-13-110362-7".to_string(), PutOnShelfRequest { put_count: 2 }, &mut db).unwrap();
    assert_eq!(book.title, "The C Programming Language");
    assert_eq!(db.books[1].on_shelf_count, 2);
    assert_eq!(db.books[0].on_shelf_count, 0);
}

#[test]
fn counters_stay_non_negative_and_the_ledger_has_one_entry_per_paid_ticket() {
    let mut db = Store::new();
    let mut clock = 0;
    let mut tick = || {
        clock += 1;
        at(clock)
    };
    stock_book_at(order(10, 1_000, Some(info())), 1, tick(), &mut db).unwrap();
    stock_book_at(order(5, 500, None), 1, tick(), &mut db).unwrap();
    sell_book_at(order(3, 900, None), 2, tick(), &mut db).unwrap();
    sell_book_at(order(20, 6_000, None), 2, tick(), &mut db).unwrap();
    let isbn = ISBN.to_string();
    let mut step = 0;
    for _ in 0..3 {
        for id in 1..=4 {
            for action in 0..7 {
                step += 1;
                let now = tick();
                let before = db.clone();
                let result = match action {
                    0 => pay_stock_at(id, now, &mut db).map(|_| ()),
                    1 => confirm_stock_at(id, now, &mut db).map(|_| ()),
                    2 => pay_sell_at(id, now, &mut db).map(|_| ()),
                    3 => put_on_shelf(&isbn, PutOnShelfRequest { put_count: 4 - (step % 9) }, &mut db).map(|_| ()),
                    4 => if step % 5 == 0 { revoke_sell_at(id, now, &mut db).map(|_| ()) } else { Ok(()) },
                    5 => if step % 11 == 0 { revoke_stock_at(id, now, &mut db).map(|_| ()) } else { Ok(()) },
                    _ => sell_book_at(order(1, 300, None), 2, now, &mut db).map(|_| ()),
                };
                if result.is_err() {
                    assert_eq!(db, before);
                }
                assert!(db.is_valid());
                for book in &db.books {
                    assert!(book.inventory_count >= 0);
                    assert!(book.on_shelf_count >= 0);
                }
                for (i, ticket) in db.orders.iter().enumerate() {
                    assert_eq!(ticket.id as usize, i + 1);
                    if i < before.orders.len() {
                        let old = &before.orders[i];
                        assert_eq!(ticket.typ, old.typ);
                        assert!(ticket.status == old.status || old.status.can_become(old.typ, ticket.status));
                        if old.status.is_terminal() {
                            assert_eq!(ticket.status, old.status);
                        }
                    } else {
                        assert_eq!(ticket.status, TicketStatus::Pending);
                    }
                    let entries: Vec<_> = db.transactions.iter().filter(|t| t.ticket_id == ticket.id).collect();
                    assert_eq!(entries.len(), if ticket.is_paid() { 1 } else { 0 });
                    for entry in entries {
                        assert_eq!(entry.total_price, ticket.typ.signed(ticket.total_price));
                    }
                }
                assert!(db.transactions.len() >= before.transactions.len());
                assert_eq!(db.transactions[..before.transactions.len()], before.transactions[..]);
            }
        }
    }
    assert!(db.transactions.len() >= 3);
}

#[test]
fn operations_stamp_the_current_time() {
    let mut db = Store::new();
    let before = clock();
    let opened = stock_book(order(10, 150_000, Some(info())), 7, &mut db).unwrap();
    assert!(!before.is_after(opened.created_at));
    assert_eq!(opened.created_at, opened.updated_at);
    let paid = pay_stock(1, &mut db).unwrap();
    assert_eq!(paid.status, TicketStatus::StockPaid);
    assert!(!opened.updated_at.is_after(paid.updated_at));
    assert_eq!(paid.created_at, opened.created_at);
    assert_eq!(db.transactions[0].total_price, -150_000);
    assert!(!opened.created_at.is_after(db.transactions[0].created_at));
    let done = confirm_stock(1, &mut db).unwrap();
    assert_eq!(done.status, TicketStatus::Done);
    assert_eq!(db.books[0].inventory_count, 10);
    put_on_shelf(&ISBN.to_string(), PutOnShelfRequest { put_count: 10 }, &mut db).unwrap();
    let sale = sell_book(order(4, 79_600, None), 3, &mut db).unwrap();
    assert_eq!(sale.id, 2);
    assert!(!done.updated_at.is_after(sale.created_at));
    let paid = pay_sell(2, &mut db).unwrap();
    assert_eq!(paid.status, TicketStatus::Done);
    assert_eq!(db.books[0].on_shelf_count, 6);
    assert_eq!(db.transactions[1].total_price, 79_600);
    let second = sell_book(order(1, 100, None), 3, &mut db).unwrap();
    let revoked = revoke_sell(second.id, &mut db).unwrap();
    assert_eq!(revoked.status, TicketStatus::Revoked);
    let third = stock_book(order(1, 100, None), 3, &mut db).unwrap();
    let revoked = revoke_stock(third.id, &mut db).unwrap();
    assert_eq!(revoked.status, TicketStatus::Revoked);
    assert!(!revoked.updated_at.is_after(clock()));
    assert_eq!(db.transactions.len(), 2);
}

#[test]
fn a_book_is_recorded_once() {
    let mut db = Store::new();
    let isbn = ISBN.to_string();
    let err = create_if_absent(&isbn, None, &mut db).unwrap_err();
    assert_eq!(err.status, StatusCode::UnprocessableEntity);
    assert_eq!(err.message, "Book not found and info not provided");
    assert_eq!(db, Store::new());
    assert_eq!(create_if_absent(&isbn, Some(info()), &mut db), Ok(()));
    assert_eq!(db.books.len(), 1);
    assert_eq!(db.books[0], info().into_model(isbn.clone()));
    let before = db.clone();
    let other = NewBookInfo { title: "x".to_string(), ..info() };
    assert_eq!(create_if_absent(&isbn, Some(other), &mut db), Ok(()));
    assert_eq!(create_if_absent(&isbn, None, &mut db), Ok(()));
    assert_eq!(db, before);
}

#[test]
fn the_counters_of_a_book_are_adjusted_one_by_one() {
    let mut db = stocked();
    let isbn = ISBN.to_string();
    let book = adjust_inventory(&isbn, -4, &mut db).unwrap();
    assert_eq!((book.inventory_count, book.on_shelf_count), (6, 0));
    let book = adjust_shelf(&isbn, 3, &mut db).unwrap();
    assert_eq!((book.inventory_count, book.on_shelf_count), (6, 3));
    assert_eq!(db.books[0], book);
    let before = db.clone();
    let err = adjust_inventory(&isbn, -7, &mut db).unwrap_err();
    assert_eq!(err.status, StatusCode::Conflict);
    assert_eq!(err.message, "Inventory count is not enough");
    let err = adjust_shelf(&isbn, -4, &mut db).unwrap_err();
    assert_eq!(err.status, StatusCode::Conflict);
    assert_eq!(err.message, "On shelf count is not enough");
    let err = adjust_shelf(&isbn, i32::MAX, &mut db).unwrap_err();
    assert_eq!(err.message, "On shelf count is out of range");
    let err = adjust_inventory(&"none".to_string(), 1, &mut db).unwrap_err();
    assert_eq!(err.status, StatusCode::NotFound);
    let err = adjust_shelf(&"none".to_string(), 1, &mut db).unwrap_err();
    assert_eq!(err.status, StatusCode::NotFound);
    assert_eq!(err.message, "Book not found");
    assert_eq!(db, before);
}

#[test]
fn a_store_can_be_asked_whether_it_is_valid() {
    assert!(Store::new().is_valid());
    let db = shelved_with_sale();
    assert!(db.is_valid());
    let mut paid = db.clone();
    pay_sell_at(2, at(500), &mut paid).unwrap();
    assert!(paid.is_valid());

    let broken = |change: &dyn Fn(&mut Store)| {
        let mut db = paid.clone();
        change(&mut db);
        db.is_valid()
    };
    assert!(!broken(&|db| db.books[0].inventory_count = -1));
    assert!(!broken(&|db| db.books[0].on_shelf_count = -1));
    assert!(!broken(&|db| {
        let twin = db.books[0].clone();
        db.books.push(twin)
    }));
    assert!(!broken(&|db| db.orders[0].id = 2));
    assert!(!broken(&|db| db.orders[1].id = 3));
    assert!(!broken(&|db| db.orders[1].total_count = 0));
    assert!(!broken(&|db| {
        db.orders.remove(0);
    }));
    assert!(!broken(&|db| db.transactions[0].id = 7));
    assert!(!broken(&|db| db.transactions[1].ticket_id = 1));
    assert!(!broken(&|db| db.transactions[1].ticket_id = 3));
    assert!(!broken(&|db| db.transactions[1].ticket_id = 0));
    assert!(!broken(&|db| db.transactions[0].total_price = 150_000));
    assert!(!broken(&|db| db.transactions[1].total_price += 1));
    assert!(!broken(&|db| {
        db.transactions.pop();
    }));
    assert!(!broken(&|db| db.orders[1].status = TicketStatus::Pending));
    assert!(!broken(&|db| db.orders[1].status = TicketStatus::Revoked));
    assert!(!broken(&|db| db.orders[0].typ = TicketType::Sell));
    assert!(broken(&|db| db.books[0].inventory_count = i32::MAX));
    assert!(broken(&|db| db.books[0].title = String::new()));
    assert!(broken(&|db| db.orders[1].operator_id = -1));
}

#[test]
fn rows_are_found_by_their_keys() {
    let db = shelved_with_sale();
    assert_eq!(db.find_order(1), Some(0));
    assert_eq!(db.find_order(2), Some(1));
    assert_eq!(db.find_order(3), None);
    assert_eq!(db.find_order(0), None);
    assert_eq!(db.find_order(-1), None);
    assert_eq!(db.order(2), Some(db.orders[1].clone()));
    assert_eq!(db.order(3), None);
    assert_eq!(db.find_book(&ISBN.to_string()), Some(0));
    assert_eq!(db.find_book(&"978".to_string()), None);
    assert_eq!(db.find_book(&String::new()), None);
    assert_eq!(db.book(&ISBN.to_string()), Some(db.books[0].clone()));
    assert_eq!(db.book(&"none".to_string()), None);
    assert_eq!(Store::new().find_order(1), None);
    assert_eq!(Store::new().find_book(&ISBN.to_string()), None);
}
