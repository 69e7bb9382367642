use vstd::prelude::*;

use crate::util::{has_prefix, starts_with};

verus! {

/// Text with which the shop's availability line begins when the item is in stock.
pub const IN_STOCK_MARKER: &'static str = "在庫あり";

/// What was read from a product page at one moment.
#[derive(Debug, Clone)]
pub struct WebData {
    /// Product name.
    pub name: String,
    /// Product page URL.
    pub url: String,
    /// Price, in the smallest currency unit.
    pub price: u64,
    /// Reward points granted on purchase.
    pub point: u64,
    /// Reward points as a percentage of the price.
    pub point_ratio: u64,
    /// Availability.
    pub status: StockStatus,
    /// Manufacturer.
    pub maker: String,
}

/// Availability of a product.
#[derive(Debug, Clone, Copy, PartialEq, Eq, Structural)]
pub enum StockStatus {
    /// In stock.
    Sufficient,
    /// Few left.
    Limited,
    /// To be ordered from the supplier; also what unrecognised text maps to.
    BackOrder,
}

impl Default for StockStatus {
    fn default() -> (r: StockStatus)
        ensures
            r == StockStatus::BackOrder,
    {
        StockStatus::BackOrder
    }
}

/// The status that an availability text denotes.
pub open spec fn status_of_text(text: Seq<char>) -> StockStatus {
    if has_prefix(text, IN_STOCK_MARKER@) {
        StockStatus::Sufficient
    } else {
        StockStatus::BackOrder
    }
}

impl StockStatus {
    /// Classifies the availability text of a product page: text that begins
    /// with the in-stock marker is `Sufficient`, anything else `BackOrder`.
    pub fn from_string(string: &str) -> (r: StockStatus)
        ensures
            r == status_of_text(string@),
    {
        if starts_with(string, IN_STOCK_MARKER) {
            return StockStatus::Sufficient;
        }
        StockStatus::BackOrder
    }
}

/// A failed fetch of a product page, with its reason.
#[derive(Debug, Clone, PartialEq, Eq)]
pub struct FetchError {
    pub message: String,
}

} // verus!
