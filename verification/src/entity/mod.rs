//! The rows of the persisted state and the values they are made of.

use vstd::prelude::*;

pub mod book;
pub mod order_list;
pub mod transaction;
pub mod user;

verus! {

/// Where a ticket stands in its life.
#[derive(Debug, PartialEq, Eq, Clone, Copy, Structural)]
pub enum TicketStatus {
    /// Opened, nothing paid yet.
    Pending,
    /// A stock ticket that has been paid and whose books are on their way.
    StockPaid,
    /// Completed. Nothing follows.
    Done,
    /// Given up before any payment. Nothing follows.
    Revoked,
}

/// What a ticket records: books sold to a customer, or books bought in.
#[derive(Debug, PartialEq, Eq, Clone, Copy, Structural)]
pub enum TicketType {
    Sell,
    Stock,
}

/// The sex that a user states.
#[derive(Debug, PartialEq, Eq, Clone, Copy, Structural)]
pub enum Sex {
    Male,
    Female,
    NonBinary,
}

impl Default for TicketStatus {
    fn default() -> (status: TicketStatus)
        ensures
            status == TicketStatus::Pending,
    {
        TicketStatus::Pending
    }
}

impl TicketStatus {
    /// `Done` and `Revoked` are permanent history.
    pub open spec fn spec_is_terminal(self) -> bool {
        self == TicketStatus::Done || self == TicketStatus::Revoked
    }

    #[verifier::when_used_as_spec(spec_is_terminal)]
    pub fn is_terminal(self) -> (r: bool)
        ensures
            r == self.spec_is_terminal(),
    {
        match self {
            TicketStatus::Done | TicketStatus::Revoked => true,
            _ => false,
        }
    }

    /// The edges of the life of a ticket of type `typ`:
    /// a sell ticket goes from `Pending` to `Done` when it is paid;
    /// a stock ticket goes from `Pending` to `StockPaid` when it is paid
    /// and from there to `Done` when the books are confirmed;
    /// either goes from `Pending` to `Revoked`.
    pub open spec fn spec_can_become(self, typ: TicketType, next: TicketStatus) -> bool {
        match (self, typ, next) {
            (TicketStatus::Pending, TicketType::Sell, TicketStatus::Done) => true,
            (TicketStatus::Pending, _, TicketStatus::Revoked) => true,
            (TicketStatus::Pending, TicketType::Stock, TicketStatus::StockPaid) => true,
            (TicketStatus::StockPaid, TicketType::Stock, TicketStatus::Done) => true,
            _ => false,
        }
    }

    #[verifier::when_used_as_spec(spec_can_become)]
    pub fn can_become(self, typ: TicketType, next: TicketStatus) -> (r: bool)
        ensures
            r == self.spec_can_become(typ, next),
    {
        match (self, typ, next) {
            (TicketStatus::Pending, TicketType::Sell, TicketStatus::Done) => true,
            (TicketStatus::Pending, _, TicketStatus::Revoked) => true,
            (TicketStatus::Pending, TicketType::Stock, TicketStatus::StockPaid) => true,
            (TicketStatus::StockPaid, TicketType::Stock, TicketStatus::Done) => true,
            _ => false,
        }
    }

    /// How far along its life a ticket is: every edge strictly raises it.
    pub open spec fn rank(self) -> nat {
        match self {
            TicketStatus::Pending => 0,
            TicketStatus::StockPaid => 1,
            TicketStatus::Done => 2,
            TicketStatus::Revoked => 2,
        }
    }

    /// The edge on which money changes hands, for each type of ticket.
    pub open spec fn spec_is_payment(self, typ: TicketType, next: TicketStatus) -> bool {
        self == TicketStatus::Pending && match typ {
            TicketType::Sell => next == TicketStatus::Done,
            TicketType::Stock => next == TicketStatus::StockPaid,
        }
    }

    #[verifier::when_used_as_spec(spec_is_payment)]
    pub fn is_payment(self, typ: TicketType, next: TicketStatus) -> (r: bool)
        ensures
            r == self.spec_is_payment(typ, next),
    {
        match (self, typ, next) {
            (TicketStatus::Pending, TicketType::Sell, TicketStatus::Done) => true,
            (TicketStatus::Pending, TicketType::Stock, TicketStatus::StockPaid) => true,
            _ => false,
        }
    }

    /// The name, as it is stored and shown.
    pub open spec fn spec_name(self) -> Seq<char> {
        match self {
            TicketStatus::Pending => "Pending"@,
            TicketStatus::StockPaid => "StockPaid"@,
            TicketStatus::Done => "Done"@,
            TicketStatus::Revoked => "Revoked"@,
        }
    }

    /// The name of the status, as it is stored and shown.
    pub fn name(self) -> (s: &'static str)
        ensures
            s@ == self.spec_name(),
    {
        match self {
            TicketStatus::Pending => "Pending",
            TicketStatus::StockPaid => "StockPaid",
            TicketStatus::Done => "Done",
            TicketStatus::Revoked => "Revoked",
        }
    }
}

impl TicketType {
    /// The name, as it is stored and shown.
    pub open spec fn spec_name(self) -> Seq<char> {
        match self {
            TicketType::Sell => "Sell"@,
            TicketType::Stock => "Stock"@,
        }
    }

    /// The name of the type, as it is stored and shown.
    pub fn name(self) -> (s: &'static str)
        ensures
            s@ == self.spec_name(),
    {
        match self {
            TicketType::Sell => "Sell",
            TicketType::Stock => "Stock",
        }
    }

    /// The amount that a payment of `price` on a ticket of this type adds
    /// to the ledger: revenue counts up, expenditure counts down.
    pub open spec fn spec_signed(self, price: int) -> int {
        match self {
            TicketType::Sell => price,
            TicketType::Stock => -price,
        }
    }

    pub fn signed(self, price: u32) -> (amount: i64)
        ensures
            amount == self.spec_signed(price as int),
    {
        match self {
            TicketType::Sell => price as i64,
            TicketType::Stock => -(price as i64),
        }
    }
}

/// A column of a row that is about to be written: a new value, the value
/// it already has, or nothing to write.
#[derive(Debug, PartialEq, Eq, Clone)]
pub enum ActiveValue<V> {
    Changed(V),
    Unchanged(V),
    NotSet,
}

/// A column from an optional value: written when there is one, left alone
/// when there is none.
pub fn to_active<V>(value: Option<V>) -> (column: ActiveValue<V>)
    ensures
        column == match value {
            Some(v) => ActiveValue::Changed(v),
            None => ActiveValue::NotSet,
        },
{
    match value {
        Some(v) => ActiveValue::Changed(v),
        None => ActiveValue::NotSet,
    }
}

} // verus!
