use bookstore::clock::Timestamp;
use bookstore::entity::ActiveValue;
use bookstore::entity::TicketStatus;
use bookstore::entity::TicketType;
use bookstore::entity::book::Model as Book;
use bookstore::entity::book::NewBookInfo;
use bookstore::entity::book::UpdateBook;
use bookstore::entity::order_list::ActiveModel as OrderDraft;
use bookstore::entity::order_list::GetOrder;
use bookstore::entity::order_list::Model as Order;
use bookstore::entity::order_list::NewOrder;
use bookstore::entity::to_active;
use bookstore::entity::transaction::ActiveModel as EntryDraft;
use bookstore::entity::transaction::GetTransaction;
use bookstore::entity::transaction::Model as Entry;
use bookstore::utils::errors::StatusCode;

/// The time on the wall, as an instant.
fn clock() -> Timestamp {
    let t = chrono::Utc::now();
    Timestamp { seconds: t.timestamp(), nanos: t.timestamp_subsec_nanos() }
}

fn at(seconds: i64) -> Timestamp {
    Timestamp { seconds, nanos: 0 }
}

fn book(inventory: i32, shelf: i32) -> Book {
    Book {
        isbn: "1".to_string(),
        title: "t".to_string(),
        author: "a".to_string(),
        publisher: "p".to_string(),
        out_price: 5,
        inventory_count: inventory,
        on_shelf_count: shelf,
    }
}

fn ticket(status: TicketStatus, typ: TicketType) -> Order {
    Order {
        id: 9,
        total_price: 1_234,
        total_count: 3,
        status,
        typ,
        created_at: at(10),
        updated_at: at(20),
        book_isbn: "1".to_string(),
        operator_id: 4,
    }
}

const STATUSES: [TicketStatus; 4] =
    [TicketStatus::Pending, TicketStatus::StockPaid, TicketStatus::Done, TicketStatus::Revoked];
const TYPES: [TicketType; 2] = [TicketType::Sell, TicketType::Stock];

#[test]
fn a_ticket_starts_pending() {
    assert_eq!(TicketStatus::default(), TicketStatus::Pending);
}

#[test]
fn the_life_of_a_ticket_has_four_kinds_of_edges() {
    let mut edges = Vec::new();
    for from in STATUSES {
        for typ in TYPES {
            for to in STATUSES {
                if from.can_become(typ, to) {
                    edges.push((from, typ, to));
                }
            }
        }
    }
    assert_eq!(
        edges,
        vec![
            (TicketStatus::Pending, TicketType::Sell, TicketStatus::Done),
            (TicketStatus::Pending, TicketType::Sell, TicketStatus::Revoked),
            (TicketStatus::Pending, TicketType::Stock, TicketStatus::StockPaid),
            (TicketStatus::Pending, TicketType::Stock, TicketStatus::Revoked),
            (TicketStatus::StockPaid, TicketType::Stock, TicketStatus::Done),
        ]
    );
}

#[test]
fn nothing_follows_done_or_revoked() {
    assert!(TicketStatus::Done.is_terminal());
    assert!(TicketStatus::Revoked.is_terminal());
    assert!(!TicketStatus::Pending.is_terminal());
    assert!(!TicketStatus::StockPaid.is_terminal());
    for from in [TicketStatus::Done, TicketStatus::Revoked] {
        for typ in TYPES {
            for to in STATUSES {
                assert!(!from.can_become(typ, to));
            }
        }
    }
}

#[test]
fn money_changes_hands_on_one_edge_per_type() {
    for from in STATUSES {
        for typ in TYPES {
            for to in STATUSES {
                let expected = from == TicketStatus::Pending
                    && ((typ == TicketType::Sell && to == TicketStatus::Done)
                        || (typ == TicketType::Stock && to == TicketStatus::StockPaid));
                assert_eq!(from.is_payment(typ, to), expected);
                if expected {
                    assert!(from.can_become(typ, to));
                }
            }
        }
    }
}

#[test]
fn statuses_and_types_have_names() {
    assert_eq!(TicketStatus::Pending.name(), "Pending");
    assert_eq!(TicketStatus::StockPaid.name(), "StockPaid");
    assert_eq!(TicketStatus::Done.name(), "Done");
    assert_eq!(TicketStatus::Revoked.name(), "Revoked");
    assert_eq!(TicketType::Sell.name(), "Sell");
    assert_eq!(TicketType::Stock.name(), "Stock");
}

#[test]
fn revenue_counts_up_and_expenditure_counts_down() {
    assert_eq!(TicketType::Sell.signed(1_234), 1_234);
    assert_eq!(TicketType::Stock.signed(1_234), -1_234);
    assert_eq!(TicketType::Sell.signed(0), 0);
    assert_eq!(TicketType::Stock.signed(0), 0);
    assert_eq!(TicketType::Sell.signed(u32::MAX), 4_294_967_295);
    assert_eq!(TicketType::Stock.signed(u32::MAX), -4_294_967_295);
}

#[test]
fn a_ticket_is_paid_from_its_payment_on() {
    assert!(!ticket(TicketStatus::Pending, TicketType::Sell).is_paid());
    assert!(!ticket(TicketStatus::Revoked, TicketType::Sell).is_paid());
    assert!(!ticket(TicketStatus::StockPaid, TicketType::Sell).is_paid());
    assert!(ticket(TicketStatus::Done, TicketType::Sell).is_paid());
    assert!(!ticket(TicketStatus::Pending, TicketType::Stock).is_paid());
    assert!(!ticket(TicketStatus::Revoked, TicketType::Stock).is_paid());
    assert!(ticket(TicketStatus::StockPaid, TicketType::Stock).is_paid());
    assert!(ticket(TicketStatus::Done, TicketType::Stock).is_paid());
}

#[test]
fn the_compare_and_set_changes_status_and_time_only() {
    let before = ticket(TicketStatus::Pending, TicketType::Sell);
    let after = before
        .duplicate()
        .change_status(TicketStatus::Pending, TicketType::Sell, TicketStatus::Done, at(30))
        .unwrap();
    assert_eq!(after, Order { status: TicketStatus::Done, updated_at: at(30), ..before });
}

#[test]
fn the_compare_and_set_reports_expected_and_actual() {
    let row = ticket(TicketStatus::StockPaid, TicketType::Stock);
    let err = row
        .duplicate()
        .change_status(TicketStatus::Pending, TicketType::Stock, TicketStatus::Revoked, at(30))
        .unwrap_err();
    assert_eq!(err.status, StatusCode::Conflict);
    assert_eq!(err.message, "Order status is not Pending, but StockPaid");
    let err = row
        .duplicate()
        .change_status(TicketStatus::StockPaid, TicketType::Sell, TicketStatus::Done, at(30))
        .unwrap_err();
    assert_eq!(err.status, StatusCode::Conflict);
    assert_eq!(err.message, "Order type is not Sell, but Stock");
    let err = row
        .change_status(TicketStatus::Done, TicketType::Sell, TicketStatus::Done, at(30))
        .unwrap_err();
    assert_eq!(err.message, "Order status is not Done, but StockPaid");
}

#[test]
fn a_request_opens_a_pending_ticket() {
    let request = NewOrder {
        book_isbn: "1".to_string(),
        total_price: 77,
        total_count: 2,
        book: Some(NewBookInfo {
            title: "t".to_string(),
            author: "a".to_string(),
            publisher: "p".to_string(),
            out_price: 5,
        }),
    };
    let draft = request.clone().into_active_model_at(4, TicketType::Stock, at(10));
    assert_eq!(
        draft,
        OrderDraft {
            total_price: 77,
            total_count: 2,
            status: TicketStatus::Pending,
            typ: TicketType::Stock,
            created_at: at(10),
            updated_at: at(10),
            book_isbn: "1".to_string(),
            operator_id: 4,
        }
    );
    let row = draft.into_model(12);
    assert_eq!(row.id, 12);
    assert_eq!(row.total_price, 77);
    assert_eq!(row.typ, TicketType::Stock);
    let before = clock();
    let stamped = request.into_active_model(4, TicketType::Sell);
    assert_eq!(stamped.status, TicketStatus::Pending);
    assert_eq!(stamped.typ, TicketType::Sell);
    assert_eq!(stamped.created_at, stamped.updated_at);
    assert!(!before.is_after(stamped.created_at));
}

#[test]
fn a_client_sees_a_ticket_without_its_type() {
    let row = ticket(TicketStatus::Done, TicketType::Stock);
    assert_eq!(
        GetOrder::from(row),
        GetOrder {
            id: 9,
            total_price: 1_234,
            total_count: 3,
            status: TicketStatus::Done,
            created_at: at(10),
            updated_at: at(20),
            book_isbn: "1".to_string(),
            operator_id: 4,
        }
    );
}

#[test]
fn a_ledger_entry_is_signed_when_it_is_written() {
    let sold = ticket(TicketStatus::Done, TicketType::Sell);
    let entry = EntryDraft::from_order_at(&sold, at(40));
    assert_eq!(entry, EntryDraft { created_at: at(40), total_price: 1_234, ticket_id: 9 });
    let bought = ticket(TicketStatus::StockPaid, TicketType::Stock);
    let entry = EntryDraft::from_order_at(&bought, at(41));
    assert_eq!(entry, EntryDraft { created_at: at(41), total_price: -1_234, ticket_id: 9 });
    assert_eq!(
        entry.into_model(5),
        Entry { id: 5, created_at: at(41), total_price: -1_234, ticket_id: 9 }
    );
    let before = clock();
    let stamped = EntryDraft::from_order(&bought);
    assert_eq!(stamped.total_price, -1_234);
    assert_eq!(stamped.ticket_id, 9);
    assert!(!before.is_after(stamped.created_at));
}

#[test]
fn a_ledger_entry_is_shown_as_it_was_written() {
    let entry = Entry { id: 5, created_at: at(41), total_price: -1_234, ticket_id: 9 };
    let expected = GetTransaction { id: 5, created_at: at(41), total_price: -1_234, ticket_id: 9 };
    let bought = ticket(TicketStatus::StockPaid, TicketType::Stock);
    let sold = ticket(TicketStatus::Done, TicketType::Sell);
    assert_eq!(GetTransaction::from((entry.duplicate(), Some(bought))), expected);
    assert_eq!(GetTransaction::from((entry.duplicate(), Some(sold))), expected);
    assert_eq!(GetTransaction::from((entry, None)), expected);
}

#[test]
fn a_new_book_has_no_copies() {
    let info = NewBookInfo {
        title: "t".to_string(),
        author: "a".to_string(),
        publisher: "p".to_string(),
        out_price: 5,
    };
    let created = info.clone().into_model("1".to_string());
    assert_eq!(created, book(0, 0));
    assert_eq!(created.info(), info);
    assert_eq!(created.duplicate(), created);
}

#[test]
fn updating_replaces_the_description() {
    let updated = book(3, 4).update(UpdateBook {
        title: "T".to_string(),
        author: "A".to_string(),
        publisher: "P".to_string(),
        out_price: 6,
    });
    assert_eq!(
        updated,
        Book {
            isbn: "1".to_string(),
            title: "T".to_string(),
            author: "A".to_string(),
            publisher: "P".to_string(),
            out_price: 6,
            inventory_count: 3,
            on_shelf_count: 4,
        }
    );
}

#[test]
fn the_warehouse_counter_never_goes_below_zero() {
    assert_eq!(book(3, 4).adjust_inventory(5).unwrap(), book(8, 4));
    assert_eq!(book(3, 4).adjust_inventory(-3).unwrap(), book(0, 4));
    assert_eq!(book(3, 4).adjust_inventory(0).unwrap(), book(3, 4));
    let err = book(3, 4).adjust_inventory(-4).unwrap_err();
    assert_eq!(err.status, StatusCode::Conflict);
    assert_eq!(err.message, "Inventory count is not enough");
    let err = book(3, 4).adjust_inventory(i32::MIN).unwrap_err();
    assert_eq!(err.message, "Inventory count is not enough");
    let err = book(3, 4).adjust_inventory(i32::MAX - 2).unwrap_err();
    assert_eq!(err.status, StatusCode::Conflict);
    assert_eq!(err.message, "Inventory count is out of range");
    assert_eq!(book(3, 4).adjust_inventory(i32::MAX - 3).unwrap(), book(i32::MAX, 4));
}

#[test]
fn the_shelf_counter_never_goes_below_zero() {
    assert_eq!(book(3, 4).adjust_shelf(5).unwrap(), book(3, 9));
    assert_eq!(book(3, 4).adjust_shelf(-4).unwrap(), book(3, 0));
    let err = book(3, 4).adjust_shelf(-5).unwrap_err();
    assert_eq!(err.status, StatusCode::Conflict);
    assert_eq!(err.message, "On shelf count is not enough");
    let err = book(3, 4).adjust_shelf(i32::MAX - 3).unwrap_err();
    assert_eq!(err.status, StatusCode::Conflict);
    assert_eq!(err.message, "On shelf count is out of range");
    assert_eq!(book(3, 4).adjust_shelf(i32::MAX - 4).unwrap(), book(3, i32::MAX));
}

#[test]
fn shelving_moves_copies_between_the_counters() {
    assert_eq!(book(10, 0).put_on_shelf(10).unwrap(), book(0, 10));
    assert_eq!(book(10, 2).put_on_shelf(4).unwrap(), book(6, 6));
    assert_eq!(book(10, 2).put_on_shelf(-2).unwrap(), book(12, 0));
    let err = book(10, 2).put_on_shelf(11).unwrap_err();
    assert_eq!(err.message, "Inventory count is not enough");
    let err = book(10, 2).put_on_shelf(-3).unwrap_err();
    assert_eq!(err.message, "On shelf count is not enough");
    // the warehouse is looked at first
    let err = book(0, i32::MAX).put_on_shelf(1).unwrap_err();
    assert_eq!(err.message, "Inventory count is not enough");
}

#[test]
fn an_optional_value_becomes_a_column() {
    assert_eq!(to_active(Some(3)), ActiveValue::Changed(3));
    assert_eq!(to_active::<i32>(None), ActiveValue::NotSet);
    assert_eq!(to_active(Some("x".to_string())), ActiveValue::Changed("x".to_string()));
}

#[test]
fn instants_are_ordered_by_seconds_then_nanoseconds() {
    let t = |seconds: i64, nanos: u32| Timestamp { seconds, nanos };
    assert!(t(2, 0).is_after(t(1, 999_999_999)));
    assert!(t(1, 1).is_after(t(1, 0)));
    assert!(!t(1, 0).is_after(t(1, 0)));
    assert!(!t(1, 0).is_after(t(1, 1)));
    assert!(!t(0, 5).is_after(t(1, 0)));
    assert!(t(0, 0).is_after(t(-1, 999_999_999)));
    assert!(t(i64::MAX, 0).is_after(t(i64::MIN, u32::MAX)));
}

#[test]
fn whole_days_between_instants_are_counted_towards_zero() {
    let t = |seconds: i64, nanos: u32| Timestamp { seconds, nanos };
    let day = 86_400;
    assert_eq!(t(day, 0).days_since(t(0, 0)), 1);
    assert_eq!(t(day - 1, 999_999_999).days_since(t(0, 0)), 0);
    assert_eq!(t(day, 0).days_since(t(0, 1)), 0);
    assert_eq!(t(day, 1).days_since(t(0, 1)), 1);
    assert_eq!(t(0, 0).days_since(t(0, 0)), 0);
    assert_eq!(t(0, 0).days_since(t(day, 0)), -1);
    assert_eq!(t(0, 1).days_since(t(day, 0)), 0);
    assert_eq!(t(0, 0).days_since(t(day - 1, 0)), 0);
    assert_eq!(t(10 * day + 5, 0).days_since(t(-10 * day, 0)), 20);
    assert_eq!(t(i64::MAX, 0).days_since(t(i64::MIN, 0)), 213_503_982_334_601);
    assert_eq!(t(i64::MIN, 0).days_since(t(i64::MAX, 0)), -213_503_982_334_601);
    assert_eq!(t(i64::MAX, u32::MAX).days_since(t(0, 0)), 106_751_991_167_300);
}
