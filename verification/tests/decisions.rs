use bookstore::api::PagingRequest;
use bookstore::clock::Timestamp;
use bookstore::entity::TicketStatus;
use bookstore::entity::TicketType;
use bookstore::entity::book::Model as Book;
use bookstore::entity::book::NewBookInfo;
use bookstore::entity::book::UpdateBook;
use bookstore::entity::order_list::ActiveModel as OrderDraft;
use bookstore::entity::order_list::Model as Order;
use bookstore::entity::order_list::NewOrder;
use bookstore::entity::transaction::ActiveModel as EntryDraft;
use bookstore::utils::errors::StatusCode;
use bookstore::workflow::adjust_inventory;
use bookstore::workflow::adjust_shelf;
use bookstore::workflow::change_order_status;
use bookstore::workflow::confirm_stock;
use bookstore::workflow::create_if_absent;
use bookstore::workflow::pay_order;
use bookstore::workflow::pay_sell;
use bookstore::workflow::pay_stock;
use bookstore::workflow::put_on_shelf;
use bookstore::workflow::revoke;
use bookstore::workflow::sell_book;
use bookstore::workflow::stock_book;
use bookstore::workflow::update_book;

fn at(seconds: i64) -> Timestamp {
    Timestamp { seconds, nanos: 0 }
}

fn book(isbn: &str, inventory: i32, shelf: i32) -> Book {
    Book {
        isbn: isbn.to_string(),
        title: "t".to_string(),
        author: "a".to_string(),
        publisher: "p".to_string(),
        out_price: 5,
        inventory_count: inventory,
        on_shelf_count: shelf,
    }
}

fn info() -> NewBookInfo {
    NewBookInfo { title: "t".to_string(), author: "a".to_string(), publisher: "p".to_string(), out_price: 5 }
}

fn ticket(status: TicketStatus, typ: TicketType) -> Order {
    Order {
        id: 9,
        total_price: 1_234,
        total_count: 3,
        status,
        typ,
        created_at: at(10),
        updated_at: at(20),
        book_isbn: "1".to_string(),
        operator_id: 4,
    }
}

fn request(count: i32, book: Option<NewBookInfo>) -> NewOrder {
    NewOrder { book_isbn: "1".to_string(), total_price: 77, total_count: count, book }
}

fn draft(typ: TicketType, count: i32) -> OrderDraft {
    OrderDraft {
        total_price: 77,
        total_count: count,
        status: TicketStatus::Pending,
        typ,
        created_at: at(30),
        updated_at: at(30),
        book_isbn: "1".to_string(),
        operator_id: 4,
    }
}

#[test]
fn a_ticket_that_was_not_read_is_not_found() {
    let err = change_order_status(None, TicketStatus::Pending, TicketType::Sell, TicketStatus::Done, at(30))
        .unwrap_err();
    assert_eq!(err.status, StatusCode::NotFound);
    assert_eq!(err.message, "Order not found");
    assert_eq!(pay_order(None, TicketStatus::Pending, TicketType::Sell, TicketStatus::Done, at(30)).unwrap_err(), err);
    assert_eq!(pay_sell(None, Some(book("1", 0, 9)), at(30)).unwrap_err(), err);
    assert_eq!(pay_stock(None, at(30)).unwrap_err(), err);
    assert_eq!(confirm_stock(None, Some(book("1", 0, 9)), at(30)).unwrap_err(), err);
    assert_eq!(revoke(None, TicketType::Sell, at(30)).unwrap_err(), err);
}

#[test]
fn a_ticket_that_was_read_is_compared_and_set() {
    let row = ticket(TicketStatus::Pending, TicketType::Stock);
    let set = change_order_status(
        Some(row.duplicate()),
        TicketStatus::Pending,
        TicketType::Stock,
        TicketStatus::StockPaid,
        at(30),
    )
    .unwrap();
    assert_eq!(set, Order { status: TicketStatus::StockPaid, updated_at: at(30), ..row.duplicate() });
    let err =
        change_order_status(Some(row), TicketStatus::StockPaid, TicketType::Stock, TicketStatus::Done, at(30))
            .unwrap_err();
    assert_eq!(err.status, StatusCode::Conflict);
    assert_eq!(err.message, "Order status is not StockPaid, but Pending");
}

#[test]
fn a_payment_comes_with_its_ledger_entry() {
    let row = ticket(TicketStatus::Pending, TicketType::Stock);
    let (paid, entry) = pay_stock(Some(row.duplicate()), at(30)).unwrap();
    assert_eq!(paid, Order { status: TicketStatus::StockPaid, updated_at: at(30), ..row.duplicate() });
    assert_eq!(entry, EntryDraft { created_at: at(30), total_price: -1_234, ticket_id: 9 });
    let err = pay_stock(Some(ticket(TicketStatus::Pending, TicketType::Sell)), at(30)).unwrap_err();
    assert_eq!(err.message, "Order type is not Stock, but Sell");
    let err = pay_stock(Some(paid), at(31)).unwrap_err();
    assert_eq!(err.message, "Order status is not Pending, but StockPaid");
    let sale = ticket(TicketStatus::Pending, TicketType::Sell);
    let (paid, entry) =
        pay_order(Some(sale.duplicate()), TicketStatus::Pending, TicketType::Sell, TicketStatus::Done, at(30))
            .unwrap();
    assert_eq!(paid.status, TicketStatus::Done);
    assert_eq!(entry, EntryDraft { created_at: at(30), total_price: 1_234, ticket_id: 9 });
}

#[test]
fn paying_a_sale_takes_the_copies_off_the_shelf() {
    let sale = ticket(TicketStatus::Pending, TicketType::Sell);
    let (paid, sold, entry) = pay_sell(Some(sale.duplicate()), Some(book("1", 2, 3)), at(30)).unwrap();
    assert_eq!(paid, Order { status: TicketStatus::Done, updated_at: at(30), ..sale.duplicate() });
    assert_eq!(sold, book("1", 2, 0));
    assert_eq!(entry, EntryDraft { created_at: at(30), total_price: 1_234, ticket_id: 9 });
    let (_, sold, _) = pay_sell(Some(sale.duplicate()), Some(book("1", 0, 10)), at(30)).unwrap();
    assert_eq!(sold, book("1", 0, 7));
    let err = pay_sell(Some(sale.duplicate()), Some(book("1", 100, 2)), at(30)).unwrap_err();
    assert_eq!(err.status, StatusCode::Conflict);
    assert_eq!(err.message, "Not enough books on shelf");
    let err = pay_sell(Some(sale.duplicate()), None, at(30)).unwrap_err();
    assert_eq!(err.status, StatusCode::NotFound);
    assert_eq!(err.message, "Book not found");
    let err = pay_sell(Some(sale), Some(book("2", 0, 10)), at(30)).unwrap_err();
    assert_eq!(err.message, "Book not found");
    // the ticket is looked at before the book
    let err = pay_sell(Some(ticket(TicketStatus::Done, TicketType::Sell)), None, at(30)).unwrap_err();
    assert_eq!(err.message, "Order status is not Pending, but Done");
}

#[test]
fn confirming_puts_the_copies_in_the_warehouse() {
    let paid = ticket(TicketStatus::StockPaid, TicketType::Stock);
    let (done, stocked) = confirm_stock(Some(paid.duplicate()), Some(book("1", 2, 3)), at(30)).unwrap();
    assert_eq!(done, Order { status: TicketStatus::Done, updated_at: at(30), ..paid.duplicate() });
    assert_eq!(stocked, book("1", 5, 3));
    let err = confirm_stock(Some(paid.duplicate()), None, at(30)).unwrap_err();
    assert_eq!(err.status, StatusCode::NotFound);
    assert_eq!(err.message, "Cannot find the book");
    let err = confirm_stock(Some(paid.duplicate()), Some(book("x", 2, 3)), at(30)).unwrap_err();
    assert_eq!(err.message, "Cannot find the book");
    let err = confirm_stock(Some(paid), Some(book("1", i32::MAX - 2, 3)), at(30)).unwrap_err();
    assert_eq!(err.status, StatusCode::Conflict);
    assert_eq!(err.message, "Inventory count is out of range");
    let err = confirm_stock(Some(ticket(TicketStatus::Pending, TicketType::Stock)), Some(book("1", 2, 3)), at(30))
        .unwrap_err();
    assert_eq!(err.message, "Order status is not StockPaid, but Pending");
}

#[test]
fn only_a_pending_ticket_of_the_type_is_revoked() {
    for typ in [TicketType::Sell, TicketType::Stock] {
        let row = ticket(TicketStatus::Pending, typ);
        let gone = revoke(Some(row.duplicate()), typ, at(30)).unwrap();
        assert_eq!(gone, Order { status: TicketStatus::Revoked, updated_at: at(30), ..row });
        for status in [TicketStatus::StockPaid, TicketStatus::Done, TicketStatus::Revoked] {
            let err = revoke(Some(ticket(status, typ)), typ, at(30)).unwrap_err();
            assert_eq!(err.status, StatusCode::Conflict);
        }
    }
    let err = revoke(Some(ticket(TicketStatus::Pending, TicketType::Sell)), TicketType::Stock, at(30)).unwrap_err();
    assert_eq!(err.message, "Order type is not Stock, but Sell");
}

#[test]
fn a_sale_is_opened_for_a_known_book() {
    assert_eq!(sell_book(request(2, None), true, 4, at(30)), Ok(draft(TicketType::Sell, 2)));
    assert_eq!(sell_book(request(2, Some(info())), true, 4, at(30)), Ok(draft(TicketType::Sell, 2)));
    let err = sell_book(request(2, Some(info())), false, 4, at(30)).unwrap_err();
    assert_eq!(err.status, StatusCode::NotFound);
    assert_eq!(err.message, "Book not found");
    let err = sell_book(request(0, None), false, 4, at(30)).unwrap_err();
    assert_eq!(err.status, StatusCode::UnprocessableEntity);
    assert_eq!(err.message, "Total count must be positive");
}

#[test]
fn a_stock_ticket_is_opened_with_the_book_to_record() {
    assert_eq!(stock_book(request(2, None), true, 4, at(30)), Ok((None, draft(TicketType::Stock, 2))));
    assert_eq!(stock_book(request(2, Some(info())), true, 4, at(30)), Ok((None, draft(TicketType::Stock, 2))));
    assert_eq!(
        stock_book(request(2, Some(info())), false, 4, at(30)),
        Ok((Some(book("1", 0, 0)), draft(TicketType::Stock, 2)))
    );
    let err = stock_book(request(2, None), false, 4, at(30)).unwrap_err();
    assert_eq!(err.status, StatusCode::UnprocessableEntity);
    assert_eq!(err.message, "Book not found and info not provided");
    let err = stock_book(request(-2, None), false, 4, at(30)).unwrap_err();
    assert_eq!(err.status, StatusCode::UnprocessableEntity);
    assert_eq!(err.message, "Total count must be greater than 0");
}

#[test]
fn a_book_is_created_only_where_it_is_absent() {
    let isbn = "1".to_string();
    assert_eq!(create_if_absent(&isbn, true, Some(info())), Ok(None));
    assert_eq!(create_if_absent(&isbn, true, None), Ok(None));
    assert_eq!(create_if_absent(&isbn, false, Some(info())), Ok(Some(book("1", 0, 0))));
    let err = create_if_absent(&isbn, false, None).unwrap_err();
    assert_eq!(err.status, StatusCode::UnprocessableEntity);
    assert_eq!(err.message, "Book not found and info not provided");
}

#[test]
fn a_book_that_was_not_read_is_not_found() {
    for err in [
        put_on_shelf(None, 1).unwrap_err(),
        adjust_inventory(None, 1).unwrap_err(),
        adjust_shelf(None, 1).unwrap_err(),
        update_book(None, UpdateBook { title: "T".into(), author: "A".into(), publisher: "P".into(), out_price: 1 })
            .unwrap_err(),
    ] {
        assert_eq!(err.status, StatusCode::NotFound);
        assert_eq!(err.message, "Book not found");
    }
}

#[test]
fn a_book_that_was_read_is_changed() {
    assert_eq!(put_on_shelf(Some(book("1", 5, 1)), 3), Ok(book("1", 2, 4)));
    assert_eq!(adjust_inventory(Some(book("1", 5, 1)), -5), Ok(book("1", 0, 1)));
    assert_eq!(adjust_shelf(Some(book("1", 5, 1)), 2), Ok(book("1", 5, 3)));
    assert_eq!(adjust_shelf(Some(book("1", 5, 1)), -2).unwrap_err().message, "On shelf count is not enough");
    let updated =
        update_book(Some(book("1", 5, 1)), UpdateBook { title: "T".into(), author: "A".into(), publisher: "P".into(), out_price: 1 })
            .unwrap();
    assert_eq!(updated.title, "T");
    assert_eq!(updated.inventory_count, 5);
}

#[test]
fn the_rows_before_a_page_are_counted() {
    assert_eq!(PagingRequest { page: 0, page_size: 10 }.offset(), Some(0));
    assert_eq!(PagingRequest { page: 3, page_size: 10 }.offset(), Some(30));
    assert_eq!(PagingRequest { page: 3, page_size: 0 }.offset(), Some(0));
    assert_eq!(PagingRequest { page: u64::MAX, page_size: 1 }.offset(), Some(u64::MAX));
    assert_eq!(PagingRequest { page: u64::MAX, page_size: 2 }.offset(), None);
    assert_eq!(PagingRequest { page: 1 << 32, page_size: 1 << 32 }.offset(), None);
    assert_eq!(PagingRequest { page: (1 << 32) - 1, page_size: 1 << 32 }.offset(), Some(u64::MAX - (1 << 32) + 1));
}

#[test]
fn paying_a_sale_is_decided_for_every_count() {
    let odd = |count: i32| Order { total_count: count, ..ticket(TicketStatus::Pending, TicketType::Sell) };
    let err = pay_sell(Some(odd(i32::MIN)), Some(book("1", 0, 9)), at(30)).unwrap_err();
    assert_eq!(err.status, StatusCode::Conflict);
    assert_eq!(err.message, "On shelf count is out of range");
    let err = pay_sell(Some(odd(i32::MAX)), Some(book("1", 0, i32::MAX - 1)), at(30)).unwrap_err();
    assert_eq!(err.message, "Not enough books on shelf");
    let (_, sold, _) = pay_sell(Some(odd(i32::MAX)), Some(book("1", 0, i32::MAX)), at(30)).unwrap();
    assert_eq!(sold, book("1", 0, 0));
    let (_, sold, _) = pay_sell(Some(odd(0)), Some(book("1", 0, 9)), at(30)).unwrap();
    assert_eq!(sold, book("1", 0, 9));
}
