//! The ledger: one immutable entry for each payment of a ticket.
//!
//! The sign of an amount is settled once, when the entry is written:
//! what a sell ticket brings in counts up, what a stock ticket costs
//! counts down. Whoever reads an entry takes the amount as it stands.

use vstd::prelude::*;

use crate::clock::Timestamp;

use crate::clock::now;
use crate::entity::order_list;

verus! {

/// A ledger entry as it is stored.
#[derive(Debug, Clone, PartialEq, Eq)]
pub struct Model {
    pub id: i64,
    pub created_at: Timestamp,
    /// Positive for revenue, negative for expenditure.
    pub total_price: i64,
    /// The ticket whose payment the entry records.
    pub ticket_id: i32,
}

/// What a `Model` stands for in contracts: its texts as sequences of
/// characters, its numbers without bounds.
pub struct ModelView {
    pub id: int,
    pub created_at: Timestamp,
    pub total_price: int,
    pub ticket_id: int,
}

impl View for Model {
    type V = ModelView;

    open spec fn view(&self) -> ModelView {
        ModelView {
            id: self.id as int,
            created_at: self.created_at,
            total_price: self.total_price as int,
            ticket_id: self.ticket_id as int,
        }
    }
}

/// A ledger entry that has not been stored yet: every column but the key,
/// which the store gives out.
#[derive(Debug, Clone, PartialEq, Eq)]
pub struct ActiveModel {
    pub created_at: Timestamp,
    pub total_price: i64,
    pub ticket_id: i32,
}

/// What a `ActiveModel` stands for in contracts: its texts as sequences of
/// characters, its numbers without bounds.
pub struct ActiveModelView {
    pub created_at: Timestamp,
    pub total_price: int,
    pub ticket_id: int,
}

impl View for ActiveModel {
    type V = ActiveModelView;

    open spec fn view(&self) -> ActiveModelView {
        ActiveModelView {
            created_at: self.created_at,
            total_price: self.total_price as int,
            ticket_id: self.ticket_id as int,
        }
    }
}

/// A ledger entry as it is shown to a client.
#[derive(Debug, Clone, PartialEq, Eq)]
pub struct GetTransaction {
    pub id: i64,
    pub created_at: Timestamp,
    pub total_price: i64,
    pub ticket_id: i32,
}

/// What a `GetTransaction` stands for in contracts: its texts as sequences of
/// characters, its numbers without bounds.
pub struct GetTransactionView {
    pub id: int,
    pub created_at: Timestamp,
    pub total_price: int,
    pub ticket_id: int,
}

impl View for GetTransaction {
    type V = GetTransactionView;

    open spec fn view(&self) -> GetTransactionView {
        GetTransactionView {
            id: self.id as int,
            created_at: self.created_at,
            total_price: self.total_price as int,
            ticket_id: self.ticket_id as int,
        }
    }
}

impl ActiveModelView {
    /// The entry for the payment of `order`, made at `now`.
    pub open spec fn from_order(order: order_list::ModelView, now: Timestamp) -> ActiveModelView {
        ActiveModelView {
            created_at: now,
            total_price: order.signed_price(),
            ticket_id: order.id,
        }
    }

    /// The row that is stored under the key `id`.
    pub open spec fn into_model(self, id: int) -> ModelView {
        ModelView {
            id,
            created_at: self.created_at,
            total_price: self.total_price,
            ticket_id: self.ticket_id,
        }
    }
}

impl ModelView {
    /// The entry as a client sees it.
    pub open spec fn shown(self) -> GetTransactionView {
        GetTransactionView {
            id: self.id,
            created_at: self.created_at,
            total_price: self.total_price,
            ticket_id: self.ticket_id,
        }
    }
}

impl ActiveModel {
    /// The entry for the payment of `order`, made at `now`: the price of
    /// the ticket, counted up for a sell ticket and down for a stock
    /// ticket.
    pub fn from_order_at(order: &order_list::Model, now: Timestamp) -> (entry: ActiveModel)
        ensures
            entry@ == ActiveModelView::from_order(order@, now),
    {
        ActiveModel {
            created_at: now,
            total_price: order.typ.signed(order.total_price),
            ticket_id: order.id,
        }
    }

    /// The entry for the payment of `order`, made at the current time.
    pub fn from_order(order: &order_list::Model) -> (entry: ActiveModel)
        ensures
            exists|t: Timestamp| entry@ == #[trigger] ActiveModelView::from_order(order@, t),
    {
        let t = now();
        ActiveModel::from_order_at(order, t)
    }

    /// The row that is stored under the key `id`.
    pub fn into_model(self, id: i64) -> (entry: Model)
        ensures
            entry@ == self@.into_model(id as int),
    {
        Model {
            id,
            created_at: self.created_at,
            total_price: self.total_price,
            ticket_id: self.ticket_id,
        }
    }
}

impl Model {
    /// A copy of the row.
    pub fn duplicate(&self) -> (entry: Model)
        ensures
            entry@ == self@,
    {
        Model {
            id: self.id,
            created_at: self.created_at,
            total_price: self.total_price,
            ticket_id: self.ticket_id,
        }
    }
}

impl vstd::std_specs::convert::FromSpecImpl<(Model, Option<order_list::Model>)> for GetTransaction {
    open spec fn obeys_from_spec() -> bool {
        true
    }

    open spec fn from_spec(pair: (Model, Option<order_list::Model>)) -> GetTransaction {
        GetTransaction {
            id: pair.0.id,
            created_at: pair.0.created_at,
            total_price: pair.0.total_price,
            ticket_id: pair.0.ticket_id,
        }
    }
}

impl From<(Model, Option<order_list::Model>)> for GetTransaction {
    /// The entry as a client sees it. The amount is shown as it was
    /// written, whatever the ticket that comes with it.
    fn from(pair: (Model, Option<order_list::Model>)) -> (shown: GetTransaction)
        ensures
            shown@ == pair.0@.shown(),
    {
        let (transaction, _order) = pair;
        GetTransaction {
            id: transaction.id,
            created_at: transaction.created_at,
            total_price: transaction.total_price,
            ticket_id: transaction.ticket_id,
        }
    }
}

/// The amount of an entry tells the type of a ticket with a price: above
/// zero it was sold, below zero it was bought.
pub proof fn lemma_sign_tells_type(order: order_list::ModelView, now: Timestamp)
    requires
        order.total_price > 0,
    ensures
        ActiveModelView::from_order(order, now).total_price > 0 <==> order.typ
            == crate::entity::TicketType::Sell,
        ActiveModelView::from_order(order, now).total_price < 0 <==> order.typ
            == crate::entity::TicketType::Stock,
{
}

} // verus!
