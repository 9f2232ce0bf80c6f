//! Tickets: one row for each sale to a customer and each purchase of
//! stock, and the compare-and-set that moves a ticket through its life.

use vstd::prelude::*;
use vstd::string::StringExecFns;

use crate::clock::Timestamp;

use crate::clock::now;
use crate::entity::TicketStatus;
use crate::entity::TicketType;
use crate::entity::book::NewBookInfo;
use crate::entity::book::NewBookInfoView;
use crate::utils::errors::AError;
use crate::utils::errors::AErrorView;
use crate::utils::errors::StatusCode;
use crate::utils::errors::conflict;
use crate::utils::errors::spec_error;

verus! {

/// A ticket as it is stored.
#[derive(Debug, Clone, PartialEq, Eq)]
pub struct Model {
    pub id: i32,
    /// The amount paid for the whole ticket.
    pub total_price: u32,
    /// The number of copies.
    pub total_count: i32,
    pub status: TicketStatus,
    pub typ: TicketType,
    pub created_at: Timestamp,
    pub updated_at: Timestamp,
    /// The book the ticket is about.
    pub book_isbn: String,
    /// The user who opened the ticket.
    pub operator_id: i32,
}

/// What a `Model` stands for in contracts: its texts as sequences of
/// characters, its numbers without bounds.
pub struct ModelView {
    pub id: int,
    pub total_price: int,
    pub total_count: int,
    pub status: TicketStatus,
    pub typ: TicketType,
    pub created_at: Timestamp,
    pub updated_at: Timestamp,
    pub book_isbn: Seq<char>,
    pub operator_id: int,
}

impl View for Model {
    type V = ModelView;

    open spec fn view(&self) -> ModelView {
        ModelView {
            id: self.id as int,
            total_price: self.total_price as int,
            total_count: self.total_count as int,
            status: self.status,
            typ: self.typ,
            created_at: self.created_at,
            updated_at: self.updated_at,
            book_isbn: self.book_isbn@,
            operator_id: self.operator_id as int,
        }
    }
}

/// A ticket that has not been stored yet: every column but the key, which
/// the store gives out.
#[derive(Debug, Clone, PartialEq, Eq)]
pub struct ActiveModel {
    pub total_price: u32,
    pub total_count: i32,
    pub status: TicketStatus,
    pub typ: TicketType,
    pub created_at: Timestamp,
    pub updated_at: Timestamp,
    pub book_isbn: String,
    pub operator_id: i32,
}

/// What a `ActiveModel` stands for in contracts: its texts as sequences of
/// characters, its numbers without bounds.
pub struct ActiveModelView {
    pub total_price: int,
    pub total_count: int,
    pub status: TicketStatus,
    pub typ: TicketType,
    pub created_at: Timestamp,
    pub updated_at: Timestamp,
    pub book_isbn: Seq<char>,
    pub operator_id: int,
}

impl View for ActiveModel {
    type V = ActiveModelView;

    open spec fn view(&self) -> ActiveModelView {
        ActiveModelView {
            total_price: self.total_price as int,
            total_count: self.total_count as int,
            status: self.status,
            typ: self.typ,
            created_at: self.created_at,
            updated_at: self.updated_at,
            book_isbn: self.book_isbn@,
            operator_id: self.operator_id as int,
        }
    }
}

/// A request to open a ticket.
#[derive(Debug, Clone, PartialEq, Eq)]
pub struct NewOrder {
    pub book_isbn: String,
    pub total_price: u32,
    pub total_count: i32,
    /// The description of the book, for a book the store may not know.
    pub book: Option<NewBookInfo>,
}

/// What a `NewOrder` stands for in contracts: its texts as sequences of
/// characters, its numbers without bounds.
pub struct NewOrderView {
    pub book_isbn: Seq<char>,
    pub total_price: int,
    pub total_count: int,
    pub book: Option<NewBookInfoView>,
}

impl View for NewOrder {
    type V = NewOrderView;

    open spec fn view(&self) -> NewOrderView {
        NewOrderView {
            book_isbn: self.book_isbn@,
            total_price: self.total_price as int,
            total_count: self.total_count as int,
            book: match self.book {
                Some(info) => Some(info@),
                None => None,
            },
        }
    }
}

/// A ticket as it is shown to a client.
#[derive(Debug, Clone, PartialEq, Eq)]
pub struct GetOrder {
    pub id: i32,
    pub total_price: u32,
    pub total_count: i32,
    pub status: TicketStatus,
    pub created_at: Timestamp,
    pub updated_at: Timestamp,
    pub book_isbn: String,
    pub operator_id: i32,
}

/// What a `GetOrder` stands for in contracts: its texts as sequences of
/// characters, its numbers without bounds.
pub struct GetOrderView {
    pub id: int,
    pub total_price: int,
    pub total_count: int,
    pub status: TicketStatus,
    pub created_at: Timestamp,
    pub updated_at: Timestamp,
    pub book_isbn: Seq<char>,
    pub operator_id: int,
}

impl View for GetOrder {
    type V = GetOrderView;

    open spec fn view(&self) -> GetOrderView {
        GetOrderView {
            id: self.id as int,
            total_price: self.total_price as int,
            total_count: self.total_count as int,
            status: self.status,
            created_at: self.created_at,
            updated_at: self.updated_at,
            book_isbn: self.book_isbn@,
            operator_id: self.operator_id as int,
        }
    }
}

/// What a compare-and-set reports when the ticket is not in the status
/// that the caller expected.
pub open spec fn status_conflict(expected: TicketStatus, actual: TicketStatus) -> AErrorView {
    spec_error(
        StatusCode::Conflict,
        "Order status is not "@ + expected.spec_name() + ", but "@ + actual.spec_name(),
    )
}

/// What a compare-and-set reports when the ticket is not of the type that
/// the caller expected.
pub open spec fn type_conflict(expected: TicketType, actual: TicketType) -> AErrorView {
    spec_error(
        StatusCode::Conflict,
        "Order type is not "@ + expected.spec_name() + ", but "@ + actual.spec_name(),
    )
}

impl NewOrderView {
    /// The ticket that the request opens: pending, of type `typ`, opened
    /// by `operator_id`, created and last updated at `now`.
    pub open spec fn into_active_model(
        self,
        operator_id: int,
        typ: TicketType,
        now: Timestamp,
    ) -> ActiveModelView {
        ActiveModelView {
            total_price: self.total_price,
            total_count: self.total_count,
            status: TicketStatus::Pending,
            typ,
            created_at: now,
            updated_at: now,
            book_isbn: self.book_isbn,
            operator_id,
        }
    }
}

impl ActiveModelView {
    /// The row that is stored under the key `id`.
    pub open spec fn into_model(self, id: int) -> ModelView {
        ModelView {
            id,
            total_price: self.total_price,
            total_count: self.total_count,
            status: self.status,
            typ: self.typ,
            created_at: self.created_at,
            updated_at: self.updated_at,
            book_isbn: self.book_isbn,
            operator_id: self.operator_id,
        }
    }
}

impl ModelView {
    /// Whether money has changed hands for the ticket: a sell ticket is
    /// paid when it is done, a stock ticket from `StockPaid` on.
    pub open spec fn is_paid(self) -> bool {
        match self.typ {
            TicketType::Sell => self.status == TicketStatus::Done,
            TicketType::Stock => self.status == TicketStatus::StockPaid || self.status
                == TicketStatus::Done,
        }
    }

    /// What the payment of the ticket adds to the ledger.
    pub open spec fn signed_price(self) -> int {
        self.typ.spec_signed(self.total_price)
    }

    /// The compare-and-set on one row. The status is compared first, the
    /// type second; only when both are as expected does the ticket take
    /// the new status, and `now` as the time of its last update.
    pub open spec fn change_status(
        self,
        expected_status: TicketStatus,
        expected_type: TicketType,
        new_status: TicketStatus,
        now: Timestamp,
    ) -> Result<ModelView, AErrorView> {
        if self.status != expected_status {
            Err(status_conflict(expected_status, self.status))
        } else if self.typ != expected_type {
            Err(type_conflict(expected_type, self.typ))
        } else {
            Ok(ModelView { status: new_status, updated_at: now, ..self })
        }
    }

    /// The ticket as a client sees it: all of it but its type.
    pub open spec fn shown(self) -> GetOrderView {
        GetOrderView {
            id: self.id,
            total_price: self.total_price,
            total_count: self.total_count,
            status: self.status,
            created_at: self.created_at,
            updated_at: self.updated_at,
            book_isbn: self.book_isbn,
            operator_id: self.operator_id,
        }
    }
}

/// The outcome `r` as contracts speak of it: rows and failures by what
/// they stand for.
pub open spec fn result_view(r: Result<Model, AError>) -> Result<ModelView, AErrorView> {
    match r {
        Ok(order) => Ok(order@),
        Err(e) => Err(e@),
    }
}

impl NewOrder {
    /// The ticket that the request opens, stamped with the time `now`.
    pub fn into_active_model_at(
        self,
        operator_id: i32,
        typ: TicketType,
        now: Timestamp,
    ) -> (order: ActiveModel)
        ensures
            order@ == self@.into_active_model(operator_id as int, typ, now),
    {
        ActiveModel {
            total_price: self.total_price,
            total_count: self.total_count,
            status: TicketStatus::Pending,
            typ,
            created_at: now,
            updated_at: now,
            book_isbn: self.book_isbn,
            operator_id,
        }
    }

    /// The ticket that the request opens, stamped with the current time.
    pub fn into_active_model(self, operator_id: i32, typ: TicketType) -> (order: ActiveModel)
        ensures
            exists|t: Timestamp|
                order@ == #[trigger] self@.into_active_model(operator_id as int, typ, t),
    {
        let t = now();
        self.into_active_model_at(operator_id, typ, t)
    }
}

impl ActiveModel {
    /// The row that is stored under the key `id`.
    pub fn into_model(self, id: i32) -> (order: Model)
        ensures
            order@ == self@.into_model(id as int),
    {
        Model {
            id,
            total_price: self.total_price,
            total_count: self.total_count,
            status: self.status,
            typ: self.typ,
            created_at: self.created_at,
            updated_at: self.updated_at,
            book_isbn: self.book_isbn,
            operator_id: self.operator_id,
        }
    }
}

impl Model {
    /// A copy of the row.
    pub fn duplicate(&self) -> (order: Model)
        ensures
            order@ == self@,
    {
        Model {
            id: self.id,
            total_price: self.total_price,
            total_count: self.total_count,
            status: self.status,
            typ: self.typ,
            created_at: self.created_at,
            updated_at: self.updated_at,
            book_isbn: self.book_isbn.clone(),
            operator_id: self.operator_id,
        }
    }

    /// Whether money has changed hands for the ticket.
    pub fn is_paid(&self) -> (paid: bool)
        ensures
            paid == self@.is_paid(),
    {
        match self.typ {
            TicketType::Sell => self.status == TicketStatus::Done,
            TicketType::Stock => self.status == TicketStatus::StockPaid || self.status
                == TicketStatus::Done,
        }
    }

    /// The compare-and-set on one row, with `now` as the time of the
    /// update. Fails with a conflict that names the expected and the
    /// actual value when the status, or else the type, is not the
    /// expected one.
    pub fn change_status(
        self,
        expected_status: TicketStatus,
        expected_type: TicketType,
        new_status: TicketStatus,
        now: Timestamp,
    ) -> (r: Result<Model, AError>)
        ensures
            result_view(r) == self@.change_status(
                expected_status,
                expected_type,
                new_status,
                now,
            ),
    {
        if self.status == expected_status {
            if self.typ != expected_type {
                let mut message = String::from_str("Order type is not ");
                message.append(expected_type.name());
                message.append(", but ");
                message.append(self.typ.name());
                return Err(conflict(message.as_str()));
            }
            Ok(
                Model {
                    id: self.id,
                    total_price: self.total_price,
                    total_count: self.total_count,
                    status: new_status,
                    typ: self.typ,
                    created_at: self.created_at,
                    updated_at: now,
                    book_isbn: self.book_isbn,
                    operator_id: self.operator_id,
                },
            )
        } else {
            let mut message = String::from_str("Order status is not ");
            message.append(expected_status.name());
            message.append(", but ");
            message.append(self.status.name());
            Err(conflict(message.as_str()))
        }
    }
}

impl vstd::std_specs::convert::FromSpecImpl<Model> for GetOrder {
    open spec fn obeys_from_spec() -> bool {
        true
    }

    open spec fn from_spec(order: Model) -> GetOrder {
        GetOrder {
            id: order.id,
            total_price: order.total_price,
            total_count: order.total_count,
            status: order.status,
            created_at: order.created_at,
            updated_at: order.updated_at,
            book_isbn: order.book_isbn,
            operator_id: order.operator_id,
        }
    }
}

impl From<Model> for GetOrder {
    /// The ticket as a client sees it: all of it but its type.
    fn from(order: Model) -> (shown: GetOrder)
        ensures
            shown@ == order@.shown(),
    {
        GetOrder {
            id: order.id,
            total_price: order.total_price,
            total_count: order.total_count,
            status: order.status,
            created_at: order.created_at,
            updated_at: order.updated_at,
            book_isbn: order.book_isbn,
            operator_id: order.operator_id,
        }
    }
}

/// A compare-and-set that has taken effect does not take effect again:
/// asked once more of the row that it wrote, it finds the status that it
/// set, and reports a conflict that names the status it expected and
/// that one.
pub proof fn lemma_compare_and_set_happens_once(
    row: ModelView,
    expected_status: TicketStatus,
    expected_type: TicketType,
    new_status: TicketStatus,
    first: Timestamp,
    second: Timestamp,
)
    requires
        new_status != expected_status,
        row.change_status(expected_status, expected_type, new_status, first) is Ok,
    ensures
        row.change_status(expected_status, expected_type, new_status, first)->Ok_0.change_status(
            expected_status,
            expected_type,
            new_status,
            second,
        ) == Err::<ModelView, AErrorView>(status_conflict(expected_status, new_status)),
{
}

/// Along every edge of the life of a ticket the rank of its status
/// rises, so no sequence of edges leads back; and no edge leaves a
/// status that is done or revoked.
pub proof fn lemma_edges_lead_forward(from: TicketStatus, typ: TicketType, to: TicketStatus)
    requires
        from.spec_can_become(typ, to),
    ensures
        from.rank() < to.rank(),
        !from.spec_is_terminal(),
        from != to,
{
}

/// A ticket is paid exactly from its payment on: a ticket starts unpaid,
/// the edge on which money changes hands leads from an unpaid ticket to
/// a paid one, and every other edge leaves a ticket as paid or unpaid as
/// it was.
pub proof fn lemma_paid_since_payment(row: ModelView, next: TicketStatus)
    requires
        row.status.spec_can_become(row.typ, next),
    ensures
        row.status == TicketStatus::Pending ==> !row.is_paid(),
        row.status.spec_is_payment(row.typ, next) ==> !row.is_paid() && (ModelView {
            status: next,
            ..row
        }).is_paid(),
        !row.status.spec_is_payment(row.typ, next) ==> (ModelView { status: next, ..row }).is_paid()
            == row.is_paid(),
{
}

} // verus!
