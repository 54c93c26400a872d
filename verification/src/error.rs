use vstd::prelude::*;

verus! {

/// Every way an operation can reject a call. A rejected call mutates no state
/// and emits no effects.
#[derive(Clone, Copy, Debug, PartialEq, Eq, Structural)]
pub enum ContractError {
    /// The caller of a listing is not the asset's verified current owner.
    NoOwner,
    /// A listing price of zero.
    InvalidPrice,
    /// A time-based listing expiration less than a minute in the future.
    InvalidExpiration,
    /// The referenced order's time-based expiration has already elapsed.
    Expired,
    /// The offered price is below the order's asking price; carries that
    /// minimum acceptable amount.
    MinPrice { min_bid_amount: u128 },
    /// A bid price of zero where no stronger minimum applies.
    ZeroBidAmount,
    /// The offered price does not strictly exceed the live standing bid.
    InvalidBidAmount,
    /// The caller is not the order's seller, or the order to execute is absent.
    Unauthorized,
    /// The order has no bid to execute against.
    NoBid,
    /// No order is stored under the given asset key.
    OrderNotFound,
    /// No bid is stored under the given asset key.
    BidNotFound,
}

} // verus!
