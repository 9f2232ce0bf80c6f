use bookstore::api::Paged;
use bookstore::api::PagingRequest;
use bookstore::api::books::BookFilter;
use bookstore::api::books::get_books;
use bookstore::api::orders::get_sell_list;
use bookstore::api::orders::get_stock_list;
use bookstore::api::orders::pay_stock_at;
use bookstore::api::orders::sell_book_at;
use bookstore::api::orders::stock_book_at;
use bookstore::api::paged;
use bookstore::api::transactions::TransactionFilter;
use bookstore::api::transactions::get_transaction_list;
use bookstore::clock::Timestamp;
use bookstore::entity::book::NewBookInfo;
use bookstore::entity::order_list::NewOrder;
use bookstore::store::Store;
use bookstore::utils::ext::OptionExt;
use bookstore::utils::ext::SelectExt;

fn at(seconds: i64) -> Timestamp {
    Timestamp { seconds, nanos: 0 }
}

fn page(page: u64, page_size: u64) -> PagingRequest {
    PagingRequest { page, page_size }
}

fn stock(isbn: &str, title: &str, author: &str, publisher: &str) -> NewOrder {
    NewOrder {
        book_isbn: isbn.to_string(),
        total_price: 100,
        total_count: 1,
        book: Some(NewBookInfo {
            title: title.to_string(),
            author: author.to_string(),
            publisher: publisher.to_string(),
            out_price: 1,
        }),
    }
}

fn library() -> Store {
    let mut db = Store::new();
    stock_book_at(stock("978-1", "Dune", "Frank Herbert", "Chilton"), 1, at(10), &mut db).unwrap();
    stock_book_at(stock("978-2", "Dune Messiah", "Frank Herbert", "Putnam"), 1, at(20), &mut db).unwrap();
    stock_book_at(stock("979-3", "Emma", "Jane Austen", "John Murray"), 2, at(30), &mut db).unwrap();
    for (i, isbn) in ["978-1", "979-3", "978-1", "978-2", "978-1"].iter().enumerate() {
        let order = NewOrder { book_isbn: isbn.to_string(), total_price: 7, total_count: 1, book: None };
        sell_book_at(order, 3, at(40 + i as i64), &mut db).unwrap();
    }
    pay_stock_at(1, at(50), &mut db).unwrap();
    pay_stock_at(2, at(60), &mut db).unwrap();
    pay_stock_at(3, at(70), &mut db).unwrap();
    db
}

fn filter(isbn: Option<&str>, title: Option<&str>, author: Option<&str>, publisher: Option<&str>) -> BookFilter {
    BookFilter {
        isbn: isbn.map(str::to_string),
        title: title.map(str::to_string),
        author: author.map(str::to_string),
        publisher: publisher.map(str::to_string),
        paging: page(0, 10),
    }
}

#[test]
fn a_page_is_a_window_on_the_list() {
    assert_eq!(page(0, 10).bounds(25), (0, 10));
    assert_eq!(page(1, 10).bounds(25), (10, 20));
    assert_eq!(page(2, 10).bounds(25), (20, 25));
    assert_eq!(page(3, 10).bounds(25), (25, 25));
    assert_eq!(page(0, 0).bounds(25), (0, 0));
    assert_eq!(page(7, 0).bounds(25), (0, 0));
    assert_eq!(page(0, 30).bounds(25), (0, 25));
    assert_eq!(page(0, 10).bounds(0), (0, 0));
    assert_eq!(page(u64::MAX, u64::MAX).bounds(25), (25, 25));
    assert_eq!(page(u64::MAX, 1).bounds(usize::MAX), (usize::MAX, usize::MAX));
    assert_eq!(page(1, u64::MAX).bounds(25), (25, 25));
    assert_eq!(page(0, u64::MAX).bounds(25), (0, 25));
}

#[test]
fn a_page_comes_with_the_number_of_all_rows() {
    let items: Vec<i32> = (0..25).collect();
    assert_eq!(paged(items.clone(), page(1, 10)), Paged { count: 25, items: (10..20).collect() });
    assert_eq!(paged(items.clone(), page(2, 10)), Paged { count: 25, items: (20..25).collect() });
    assert_eq!(paged(items.clone(), page(3, 10)), Paged { count: 25, items: vec![] });
    assert_eq!(paged(items.clone(), page(0, 100)), Paged { count: 25, items: items.clone() });
    assert_eq!(paged(items, page(5, 0)), Paged { count: 25, items: vec![] });
    assert_eq!(paged(Vec::<i32>::new(), page(0, 10)), Paged { count: 0, items: vec![] });
}

#[test]
fn tickets_are_listed_by_type() {
    let db = library();
    let sells = get_sell_list(page(0, 10), &db);
    assert_eq!(sells.count, 5);
    assert_eq!(sells.items.iter().map(|o| o.id).collect::<Vec<_>>(), vec![4, 5, 6, 7, 8]);
    let stocks = get_stock_list(page(0, 10), &db);
    assert_eq!(stocks.count, 3);
    assert_eq!(stocks.items.iter().map(|o| o.id).collect::<Vec<_>>(), vec![1, 2, 3]);
    assert_eq!(stocks.items[0].book_isbn, "978-1");
    assert_eq!(stocks.items[0].created_at, at(10));
    assert_eq!(stocks.items[0].updated_at, at(50));
    let second = get_sell_list(page(1, 2), &db);
    assert_eq!(second.count, 5);
    assert_eq!(second.items.iter().map(|o| o.id).collect::<Vec<_>>(), vec![6, 7]);
    let last = get_sell_list(page(2, 2), &db);
    assert_eq!(last.items.iter().map(|o| o.id).collect::<Vec<_>>(), vec![8]);
    let beyond = get_sell_list(page(3, 2), &db);
    assert_eq!(beyond.count, 5);
    assert!(beyond.items.is_empty());
    let none = get_sell_list(page(0, 10), &Store::new());
    assert_eq!(none.count, 0);
    assert!(none.items.is_empty());
}

#[test]
fn books_are_listed_by_what_their_columns_hold() {
    let db = library();
    let isbns = |f: BookFilter| {
        let found = get_books(&f, &db);
        assert!(found.items.iter().all(|b| f.matches(b)));
        (found.count, found.items.iter().map(|b| b.isbn.clone()).collect::<Vec<_>>())
    };
    assert_eq!(isbns(filter(None, None, None, None)), (3, vec!["978-1".to_string(), "978-2".into(), "979-3".into()]));
    assert_eq!(isbns(filter(Some("978"), None, None, None)), (2, vec!["978-1".to_string(), "978-2".into()]));
    assert_eq!(isbns(filter(None, Some("Dune"), None, None)), (2, vec!["978-1".to_string(), "978-2".into()]));
    assert_eq!(isbns(filter(None, Some("Messiah"), None, None)), (1, vec!["978-2".to_string()]));
    assert_eq!(isbns(filter(None, Some("dune"), None, None)), (0, vec![]));
    assert_eq!(isbns(filter(None, None, Some("Herbert"), Some("Put"))), (1, vec!["978-2".to_string()]));
    assert_eq!(isbns(filter(Some("-3"), Some("m"), Some(" "), Some("John Murray"))), (1, vec!["979-3".to_string()]));
    assert_eq!(isbns(filter(Some(""), Some(""), Some(""), Some(""))).0, 3);
    assert_eq!(isbns(filter(None, Some("Emma "), None, None)).0, 0);
    let paged = get_books(&BookFilter { paging: page(1, 1), ..filter(None, None, Some("Frank"), None) }, &db);
    assert_eq!(paged.count, 2);
    assert_eq!(paged.items.len(), 1);
    assert_eq!(paged.items[0], db.books[1]);
}

#[test]
fn the_ledger_is_listed_by_time() {
    let db = library();
    let list = |from: Option<i64>, to: Option<i64>, paging: PagingRequest| {
        let found = get_transaction_list(&TransactionFilter { from: from.map(at), to: to.map(at), paging }, &db);
        (found.count, found.items.iter().map(|t| t.id).collect::<Vec<_>>())
    };
    assert_eq!(list(None, None, page(0, 10)), (3, vec![1, 2, 3]));
    assert_eq!(list(Some(50), None, page(0, 10)), (2, vec![2, 3]));
    assert_eq!(list(Some(49), None, page(0, 10)), (3, vec![1, 2, 3]));
    assert_eq!(list(None, Some(70), page(0, 10)), (2, vec![1, 2]));
    assert_eq!(list(Some(50), Some(70), page(0, 10)), (1, vec![2]));
    assert_eq!(list(Some(60), Some(60), page(0, 10)), (0, vec![]));
    assert_eq!(list(None, None, page(1, 2)), (3, vec![3]));
    let all = get_transaction_list(&TransactionFilter { from: None, to: None, paging: page(0, 10) }, &db);
    assert_eq!(all.items[0].total_price, -100);
    assert_eq!(all.items[0].ticket_id, 1);
    assert_eq!(all.items[0].created_at, at(50));
}

#[test]
fn a_function_is_applied_where_there_is_a_value() {
    assert_eq!(Some(3).apply_if_some(10, |applied, value| applied + value), 13);
    assert_eq!(None::<i32>.apply_if_some(10, |applied, value| applied + value), 10);
    let mut names = vec!["a".to_string()];
    names = Some("b".to_string()).apply_if_some(names, |mut all, name| {
        all.push(name);
        all
    });
    assert_eq!(names, vec!["a".to_string(), "b".to_string()]);
}

#[test]
fn a_list_of_rows_is_read_page_by_page() {
    let rows: Vec<&str> = vec!["a", "b", "c", "d", "e"];
    assert_eq!(rows.clone().paged(page(0, 2)), Paged { count: 5, items: vec!["a", "b"] });
    assert_eq!(rows.clone().paged(page(2, 2)), Paged { count: 5, items: vec!["e"] });
    assert_eq!(rows.paged(page(3, 2)), Paged { count: 5, items: vec![] });
}
