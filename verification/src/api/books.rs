//! The books of the store: their description, and the move of copies
//! between the warehouse and the shelf.

use vstd::prelude::*;

use crate::api::Paged;
use crate::api::PagingRequest;
use crate::api::lemma_filter_none;
use crate::api::lemma_filter_step;
use crate::api::paged;
use crate::entity::book;
use crate::entity::book::Model;
use crate::entity::book::UpdateBook;
use crate::laws::lemma_adjust_inventory_keeps_wf;
use crate::laws::lemma_adjust_shelf_keeps_wf;
use crate::laws::lemma_create_if_absent_keeps_wf;
use crate::laws::lemma_known_book_wf;
use crate::laws::lemma_put_on_shelf_keeps_wf;
use crate::laws::lemma_update_book_keeps_wf;
use crate::store::Store;
use crate::utils::errors::AError;
use crate::utils::ext::contains;
use crate::utils::ext::spec_contains;
use crate::utils::errors::AErrorView;
use crate::workflow;

verus! {

/// What to look for in the list of books: a book is listed when each
/// text that is given occurs in its column.
#[derive(Debug, Clone, PartialEq, Eq)]
pub struct BookFilter {
    pub isbn: Option<String>,
    pub title: Option<String>,
    pub author: Option<String>,
    pub publisher: Option<String>,
    pub paging: PagingRequest,
}

/// Whether the column `text` passes the filter `wanted`: any text passes
/// where nothing is wanted.
pub open spec fn column_passes(text: Seq<char>, wanted: Option<String>) -> bool {
    wanted matches Some(w) ==> spec_contains(text, w@)
}

fn passes(text: &String, wanted: &Option<String>) -> (r: bool)
    ensures
        r == column_passes(text@, *wanted),
{
    match wanted {
        Some(w) => contains(text.as_str(), w.as_str()),
        None => true,
    }
}

impl BookFilter {
    /// Whether `book` is listed: each text that is given occurs in its
    /// column.
    pub open spec fn spec_matches(self, book: book::ModelView) -> bool {
        &&& column_passes(book.isbn, self.isbn)
        &&& column_passes(book.title, self.title)
        &&& column_passes(book.author, self.author)
        &&& column_passes(book.publisher, self.publisher)
    }

    /// The rule that picks the books that are listed.
    pub open spec fn rule(self) -> spec_fn(book::ModelView) -> bool {
        |book: book::ModelView| self.spec_matches(book)
    }

    /// Whether `book` is listed.
    pub fn matches(&self, book: &Model) -> (r: bool)
        ensures
            r == self.spec_matches(book@),
    {
        passes(&book.isbn, &self.isbn) && passes(&book.title, &self.title) && passes(
            &book.author,
            &self.author,
        ) && passes(&book.publisher, &self.publisher)
    }
}

/// The rows as contracts speak of them.
pub open spec fn book_views(rows: Seq<Model>) -> Seq<book::ModelView> {
    rows.map_values(|book: Model| book@)
}

/// The page `data.paging` of the books that `data` lists, in the order in
/// which they were recorded, with the number of all of them.
pub fn get_books(data: &BookFilter, db: &Store) -> (page: Paged<Model>)
    ensures
        page.count == db@.books.filter(data.rule()).len(),
        book_views(page.items@) == db@.books.filter(data.rule()).subrange(
            data.paging.spec_start(page.count as int),
            data.paging.spec_end(page.count as int),
        ),
{
    let mut rows: Vec<Model> = Vec::new();
    let mut i: usize = 0;
    proof {
        lemma_filter_none(db@.books, data.rule());
    }
    while i < db.books.len()
        invariant
            i <= db.books.len(),
            book_views(rows@) =~= db@.books.take(i as int).filter(data.rule()),
        decreases db.books.len() - i,
    {
        proof {
            lemma_filter_step(db@.books, i as int, data.rule());
        }
        if data.matches(&db.books[i]) {
            let ghost listed = rows@;
            rows.push(db.books[i].duplicate());
            assert(book_views(rows@) =~= book_views(listed).push(db@.books[i as int]));
        }
        i += 1;
    }
    assert(db@.books.take(i as int) =~= db@.books);
    let ghost all = rows@;
    let page = paged(rows, data.paging);
    assert(book_views(page.items@) =~= book_views(all).subrange(
        data.paging.spec_start(page.count as int),
        data.paging.spec_end(page.count as int),
    ));
    page
}

/// How many copies to move from the warehouse to the shelf. A negative
/// count moves copies back.
#[derive(Debug, Clone, Copy, PartialEq, Eq)]
pub struct PutOnShelfRequest {
    pub put_count: i32,
}

/// Replaces the description of the book `isbn`. Its counters stay as
/// they are. Fails when the store does not know the book.
pub fn update_book(isbn: &String, book: UpdateBook, db: &mut Store) -> (r: Result<Model, AError>)
    requires
        old(db).wf(),
    ensures
        final(db).wf(),
        r is Err ==> final(db)@ == old(db)@,
        final(db)@ == old(db)@.update_book(isbn@, book@).0,
        book::result_view(r) == old(db)@.update_book(isbn@, book@).1,
{
    let place = db.find_book(isbn);
    let found = match place {
        Some(i) => Some(db.books[i].duplicate()),
        None => None,
    };
    let row = match workflow::update_book(found, book) {
        Ok(row) => row,
        Err(e) => {
            return Err(e);
        },
    };
    proof {
        lemma_update_book_keeps_wf(db@, isbn@, book@);
        lemma_known_book_wf(db@, isbn@);
    }
    let written = row.duplicate();
    if let Some(i) = place {
        db.save_book(i, row);
    }
    Ok(written)
}

/// Moves copies of the book `isbn` from the warehouse to the shelf, or
/// back when the count is negative.
///
/// Fails when the store does not know the book, and with a conflict when
/// the warehouse holds fewer copies than are to leave it, or the shelf
/// fewer than are to come back. Both counters change or neither does.
pub fn put_on_shelf(isbn: &String, info: PutOnShelfRequest, db: &mut Store) -> (r: Result<
    Model,
    AError,
>)
    requires
        old(db).wf(),
    ensures
        final(db).wf(),
        r is Err ==> final(db)@ == old(db)@,
        final(db)@ == old(db)@.put_on_shelf(isbn@, info.put_count as int).0,
        book::result_view(r) == old(db)@.put_on_shelf(isbn@, info.put_count as int).1,
{
    let place = db.find_book(isbn);
    let found = match place {
        Some(i) => Some(db.books[i].duplicate()),
        None => None,
    };
    let row = match workflow::put_on_shelf(found, info.put_count) {
        Ok(row) => row,
        Err(e) => {
            return Err(e);
        },
    };
    proof {
        lemma_put_on_shelf_keeps_wf(db@, isbn@, info.put_count as int);
        lemma_known_book_wf(db@, isbn@);
    }
    let written = row.duplicate();
    if let Some(i) = place {
        db.save_book(i, row);
    }
    Ok(written)
}

/// The outcome `r` as contracts speak of it: rows and failures by what
/// they stand for.
pub open spec fn unit_view(r: Result<(), AError>) -> Result<(), AErrorView> {
    match r {
        Ok(()) => Ok(()),
        Err(e) => Err(e@),
    }
}

/// Records the book `isbn`, with no copy in the warehouse and none on the
/// shelf, unless the store knows it; a book that the store knows stays as
/// it is. Fails where the store does not know the book and `info` does
/// not describe it.
pub fn create_if_absent(isbn: &String, info: Option<book::NewBookInfo>, db: &mut Store) -> (r:
    Result<(), AError>)
    requires
        old(db).wf(),
    ensures
        final(db).wf(),
        r is Err ==> final(db)@ == old(db)@,
        final(db)@ == old(db)@.create_if_absent(isbn@, workflow::info_view(info)).0,
        unit_view(r) == old(db)@.create_if_absent(isbn@, workflow::info_view(info)).1,
{
    let known = db.find_book(isbn).is_some();
    let created = match workflow::create_if_absent(isbn, known, info) {
        Ok(created) => created,
        Err(e) => {
            return Err(e);
        },
    };
    proof {
        lemma_create_if_absent_keeps_wf(db@, isbn@, workflow::info_view(info));
    }
    match created {
        Some(row) => {
            db.insert_book(row);
        },
        None => {},
    }
    Ok(())
}

/// Adds `delta` copies of the book `isbn` to the warehouse, or takes them
/// out when `delta` is negative. Fails when the store does not know the
/// book, and with a conflict, changing nothing, when the warehouse holds
/// fewer copies than are taken or cannot hold the sum.
pub fn adjust_inventory(isbn: &String, delta: i32, db: &mut Store) -> (r: Result<Model, AError>)
    requires
        old(db).wf(),
    ensures
        final(db).wf(),
        r is Err ==> final(db)@ == old(db)@,
        final(db)@ == old(db)@.adjust_inventory(isbn@, delta as int).0,
        book::result_view(r) == old(db)@.adjust_inventory(isbn@, delta as int).1,
{
    let place = db.find_book(isbn);
    let found = match place {
        Some(i) => Some(db.books[i].duplicate()),
        None => None,
    };
    let row = match workflow::adjust_inventory(found, delta) {
        Ok(row) => row,
        Err(e) => {
            return Err(e);
        },
    };
    proof {
        lemma_adjust_inventory_keeps_wf(db@, isbn@, delta as int);
        lemma_known_book_wf(db@, isbn@);
    }
    let written = row.duplicate();
    if let Some(i) = place {
        db.save_book(i, row);
    }
    Ok(written)
}

/// Adds `delta` copies of the book `isbn` to the shelf, or takes them off
/// when `delta` is negative. Fails when the store does not know the book,
/// and with a conflict, changing nothing, when the shelf holds fewer
/// copies than are taken or cannot hold the sum.
pub fn adjust_shelf(isbn: &String, delta: i32, db: &mut Store) -> (r: Result<Model, AError>)
    requires
        old(db).wf(),
    ensures
        final(db).wf(),
        r is Err ==> final(db)@ == old(db)@,
        final(db)@ == old(db)@.adjust_shelf(isbn@, delta as int).0,
        book::result_view(r) == old(db)@.adjust_shelf(isbn@, delta as int).1,
{
    let place = db.find_book(isbn);
    let found = match place {
        Some(i) => Some(db.books[i].duplicate()),
        None => None,
    };
    let row = match workflow::adjust_shelf(found, delta) {
        Ok(row) => row,
        Err(e) => {
            return Err(e);
        },
    };
    proof {
        lemma_adjust_shelf_keeps_wf(db@, isbn@, delta as int);
        lemma_known_book_wf(db@, isbn@);
    }
    let written = row.duplicate();
    if let Some(i) = place {
        db.save_book(i, row);
    }
    Ok(written)
}

} // verus!
