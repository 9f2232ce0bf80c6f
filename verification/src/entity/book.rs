//! Books and their two counters: what lies in the warehouse and what
//! stands on the shelf.

use vstd::prelude::*;

use crate::utils::errors::AError;
use crate::utils::errors::AErrorView;
use crate::utils::errors::StatusCode;
use crate::utils::errors::conflict;
use crate::utils::errors::spec_error;

verus! {

/// A book. Prices are amounts of the smallest unit of the currency.
#[derive(Debug, Clone, PartialEq, Eq)]
pub struct Model {
    pub isbn: String,
    pub title: String,
    pub author: String,
    pub publisher: String,
    /// Suggested selling price.
    pub out_price: u32,
    /// Copies in the warehouse, not yet on the shelf.
    pub inventory_count: i32,
    /// Copies on the shelf.
    pub on_shelf_count: i32,
}

/// What a `Model` stands for in contracts: its texts as sequences of
/// characters, its numbers without bounds.
pub struct ModelView {
    pub isbn: Seq<char>,
    pub title: Seq<char>,
    pub author: Seq<char>,
    pub publisher: Seq<char>,
    pub out_price: int,
    pub inventory_count: int,
    pub on_shelf_count: int,
}

impl View for Model {
    type V = ModelView;

    open spec fn view(&self) -> ModelView {
        ModelView {
            isbn: self.isbn@,
            title: self.title@,
            author: self.author@,
            publisher: self.publisher@,
            out_price: self.out_price as int,
            inventory_count: self.inventory_count as int,
            on_shelf_count: self.on_shelf_count as int,
        }
    }
}

/// What can be changed of a book once it exists.
#[derive(Debug, Clone, PartialEq, Eq)]
pub struct UpdateBook {
    pub title: String,
    pub author: String,
    pub publisher: String,
    pub out_price: u32,
}

/// What a `UpdateBook` stands for in contracts: its texts as sequences of
/// characters, its numbers without bounds.
pub struct UpdateBookView {
    pub title: Seq<char>,
    pub author: Seq<char>,
    pub publisher: Seq<char>,
    pub out_price: int,
}

impl View for UpdateBook {
    type V = UpdateBookView;

    open spec fn view(&self) -> UpdateBookView {
        UpdateBookView {
            title: self.title@,
            author: self.author@,
            publisher: self.publisher@,
            out_price: self.out_price as int,
        }
    }
}

/// What describes a book that the store has not seen before.
#[derive(Debug, Clone, PartialEq, Eq)]
pub struct NewBookInfo {
    pub title: String,
    pub author: String,
    pub publisher: String,
    pub out_price: u32,
}

/// What a `NewBookInfo` stands for in contracts: its texts as sequences of
/// characters, its numbers without bounds.
pub struct NewBookInfoView {
    pub title: Seq<char>,
    pub author: Seq<char>,
    pub publisher: Seq<char>,
    pub out_price: int,
}

impl View for NewBookInfo {
    type V = NewBookInfoView;

    open spec fn view(&self) -> NewBookInfoView {
        NewBookInfoView {
            title: self.title@,
            author: self.author@,
            publisher: self.publisher@,
            out_price: self.out_price as int,
        }
    }
}

impl ModelView {
    /// Neither counter of a book is ever negative.
    pub open spec fn wf(self) -> bool {
        &&& 0 <= self.inventory_count <= i32::MAX
        &&& 0 <= self.on_shelf_count <= i32::MAX
    }

    /// A book as it is first recorded: described by `info`, no copy
    /// anywhere yet.
    pub open spec fn created(isbn: Seq<char>, info: NewBookInfoView) -> ModelView {
        ModelView {
            isbn,
            title: info.title,
            author: info.author,
            publisher: info.publisher,
            out_price: info.out_price,
            inventory_count: 0,
            on_shelf_count: 0,
        }
    }

    /// The book with its description replaced and its counters kept.
    pub open spec fn updated(self, update: UpdateBookView) -> ModelView {
        ModelView {
            title: update.title,
            author: update.author,
            publisher: update.publisher,
            out_price: update.out_price,
            ..self
        }
    }

    /// The description of the book, without its key and counters.
    pub open spec fn info(self) -> NewBookInfoView {
        NewBookInfoView {
            title: self.title,
            author: self.author,
            publisher: self.publisher,
            out_price: self.out_price,
        }
    }

    /// `delta` copies added to the warehouse (taken out, when negative).
    pub open spec fn adjust_inventory(self, delta: int) -> Result<ModelView, AErrorView> {
        let count = self.inventory_count + delta;
        if count < 0 {
            Err(spec_error(StatusCode::Conflict, "Inventory count is not enough"@))
        } else if count > i32::MAX {
            Err(spec_error(StatusCode::Conflict, "Inventory count is out of range"@))
        } else {
            Ok(ModelView { inventory_count: count, ..self })
        }
    }

    /// `delta` copies added to the shelf (taken off, when negative).
    pub open spec fn adjust_shelf(self, delta: int) -> Result<ModelView, AErrorView> {
        let count = self.on_shelf_count + delta;
        if count < 0 {
            Err(spec_error(StatusCode::Conflict, "On shelf count is not enough"@))
        } else if count > i32::MAX {
            Err(spec_error(StatusCode::Conflict, "On shelf count is out of range"@))
        } else {
            Ok(ModelView { on_shelf_count: count, ..self })
        }
    }

    /// `count` copies moved from the warehouse to the shelf (back from the
    /// shelf, when negative). The warehouse is looked at first.
    pub open spec fn put_on_shelf(self, count: int) -> Result<ModelView, AErrorView> {
        match self.adjust_inventory(-count) {
            Err(e) => Err(e),
            Ok(taken) => taken.adjust_shelf(count),
        }
    }
}

/// The outcome `r` as contracts speak of it: rows and failures by what
/// they stand for.
pub open spec fn result_view(r: Result<Model, AError>) -> Result<ModelView, AErrorView> {
    match r {
        Ok(book) => Ok(book@),
        Err(e) => Err(e@),
    }
}

impl NewBookInfo {
    /// The first record of the book `isbn`: described by `self`, with no
    /// copy in the warehouse and none on the shelf.
    pub fn into_model(self, isbn: String) -> (book: Model)
        ensures
            book@ == ModelView::created(isbn@, self@),
    {
        Model {
            isbn,
            title: self.title,
            author: self.author,
            publisher: self.publisher,
            out_price: self.out_price,
            inventory_count: 0,
            on_shelf_count: 0,
        }
    }
}

impl Model {
    /// Whether neither counter of the book is negative.
    pub open spec fn wf(&self) -> bool {
        self@.wf()
    }

    /// A copy of the row.
    pub fn duplicate(&self) -> (book: Model)
        ensures
            book@ == self@,
    {
        Model {
            isbn: self.isbn.clone(),
            title: self.title.clone(),
            author: self.author.clone(),
            publisher: self.publisher.clone(),
            out_price: self.out_price,
            inventory_count: self.inventory_count,
            on_shelf_count: self.on_shelf_count,
        }
    }

    /// The description of the book, without its key and counters.
    pub fn info(&self) -> (info: NewBookInfo)
        ensures
            info@ == self@.info(),
    {
        NewBookInfo {
            title: self.title.clone(),
            author: self.author.clone(),
            publisher: self.publisher.clone(),
            out_price: self.out_price,
        }
    }

    /// Replaces the description of the book. The key and the counters
    /// stay as they are.
    pub fn update(self, update: UpdateBook) -> (book: Model)
        ensures
            book@ == self@.updated(update@),
    {
        Model {
            isbn: self.isbn,
            title: update.title,
            author: update.author,
            publisher: update.publisher,
            out_price: update.out_price,
            inventory_count: self.inventory_count,
            on_shelf_count: self.on_shelf_count,
        }
    }

    /// Adds `delta` copies to the warehouse, or takes them out when
    /// `delta` is negative. Fails with a conflict, and changes nothing,
    /// when fewer copies are there than are taken, or when the counter
    /// cannot hold the sum.
    pub fn adjust_inventory(self, delta: i32) -> (r: Result<Model, AError>)
        ensures
            result_view(r) == self@.adjust_inventory(delta as int),
    {
        let count: i64 = self.inventory_count as i64 + delta as i64;
        if count < 0 {
            Err(conflict("Inventory count is not enough"))
        } else if count > i32::MAX as i64 {
            Err(conflict("Inventory count is out of range"))
        } else {
            Ok(
                Model {
                    isbn: self.isbn,
                    title: self.title,
                    author: self.author,
                    publisher: self.publisher,
                    out_price: self.out_price,
                    inventory_count: count as i32,
                    on_shelf_count: self.on_shelf_count,
                },
            )
        }
    }

    /// Adds `delta` copies to the shelf, or takes them off when `delta` is
    /// negative. Fails with a conflict, and changes nothing, when fewer
    /// copies are there than are taken, or when the counter cannot hold
    /// the sum.
    pub fn adjust_shelf(self, delta: i32) -> (r: Result<Model, AError>)
        ensures
            result_view(r) == self@.adjust_shelf(delta as int),
    {
        self.shift_shelf(delta as i64)
    }

    /// Adds `delta` copies to the shelf, whatever their number.
    pub(crate) fn shift_shelf(self, delta: i64) -> (r: Result<Model, AError>)
        ensures
            result_view(r) == self@.adjust_shelf(delta as int),
    {
        let count: i128 = self.on_shelf_count as i128 + delta as i128;
        if count < 0 {
            Err(conflict("On shelf count is not enough"))
        } else if count > i32::MAX as i128 {
            Err(conflict("On shelf count is out of range"))
        } else {
            Ok(
                Model {
                    isbn: self.isbn,
                    title: self.title,
                    author: self.author,
                    publisher: self.publisher,
                    out_price: self.out_price,
                    inventory_count: self.inventory_count,
                    on_shelf_count: count as i32,
                },
            )
        }
    }

    /// Moves `count` copies from the warehouse to the shelf, or back from
    /// the shelf when `count` is negative. Both counters change or
    /// neither does.
    pub fn put_on_shelf(self, count: i32) -> (r: Result<Model, AError>)
        ensures
            result_view(r) == self@.put_on_shelf(count as int),
    {
        let inventory: i64 = self.inventory_count as i64 - count as i64;
        if inventory < 0 {
            return Err(conflict("Inventory count is not enough"));
        }
        if inventory > i32::MAX as i64 {
            return Err(conflict("Inventory count is out of range"));
        }
        let taken = Model {
            isbn: self.isbn,
            title: self.title,
            author: self.author,
            publisher: self.publisher,
            out_price: self.out_price,
            inventory_count: inventory as i32,
            on_shelf_count: self.on_shelf_count,
        };
        taken.adjust_shelf(count)
    }
}

/// Whatever is added to or taken from a counter of a book with
/// non-negative counters, the book that results has non-negative counters.
pub proof fn lemma_adjust_keeps_counters(book: ModelView, delta: int)
    requires
        book.wf(),
    ensures
        book.adjust_inventory(delta) matches Ok(b) ==> b.wf() && b.isbn == book.isbn,
        book.adjust_shelf(delta) matches Ok(b) ==> b.wf() && b.isbn == book.isbn,
        book.put_on_shelf(delta) matches Ok(b) ==> b.wf() && b.isbn == book.isbn
            && b.inventory_count + b.on_shelf_count == book.inventory_count
            + book.on_shelf_count,
{
}

} // verus!
