//! Small closed vocabularies shared by the rest of the crate.

use vstd::prelude::*;

verus! {

/// Whether a remote listing currently represents a stock record.
#[derive(Clone, Copy, Debug, Eq)]
pub enum StockStatus {
    /// Freshly acquired, not yet looked at by the engine.
    Pending,
    /// A remote listing is published for the record.
    Live,
    /// No remote listing is published for the record.
    Inactive,
    /// Listing was withheld because no profitable price exists.
    ToLowProfit,
    /// Nobody else currently sells the item.
    NoSellers,
}

impl StockStatus {
    /// Position of the status in the declaration order.
    pub open spec fn ordinal(&self) -> int {
        match self {
            StockStatus::Pending => 0,
            StockStatus::Live => 1,
            StockStatus::Inactive => 2,
            StockStatus::ToLowProfit => 3,
            StockStatus::NoSellers => 4,
        }
    }

    /// The position of the status in the declaration order, as a number.
    pub fn index(&self) -> (r: u8)
        ensures
            r == self.ordinal(),
    {
        match self {
            StockStatus::Pending => 0,
            StockStatus::Live => 1,
            StockStatus::Inactive => 2,
            StockStatus::ToLowProfit => 3,
            StockStatus::NoSellers => 4,
        }
    }
}

impl PartialEq for StockStatus {
    fn eq(&self, other: &Self) -> (r: bool) {
        self.index() == other.index()
    }
}

impl vstd::std_specs::cmp::PartialEqSpecImpl for StockStatus {
    open spec fn obeys_eq_spec() -> bool {
        true
    }

    open spec fn eq_spec(&self, other: &Self) -> bool {
        self.ordinal() == other.ordinal()
    }
}

/// Two statuses at the same position are the same status.
pub proof fn lemma_status_ordinal_injective(a: StockStatus, b: StockStatus)
    ensures
        (a.ordinal() == b.ordinal()) == (a == b),
{
}

/// Severity attached to an error or a log line.
#[derive(Clone, Copy, Debug, PartialEq, Eq, Structural)]
pub enum LogLevel {
    Info,
    Warning,
    Error,
    Debug,
    Trace,
    Critical,
    Unknown,
}

/// Direction of a trade.
#[derive(Clone, Copy, Debug, PartialEq, Eq, Structural)]
pub enum TransactionType {
    Buy,
    Sell,
}

/// Family of goods a transaction is about.
#[derive(Clone, Copy, Debug, PartialEq, Eq, Structural)]
pub enum TransactionItemType {
    Item,
    Riven,
}

} // verus!
