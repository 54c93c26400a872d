use vstd::prelude::*;

use crate::engine::{
    cancel_order_spec, create_bid_spec, create_order_spec, execute_order_spec, refund_of,
    time_expired, Marketplace,
};
use crate::error::ContractError;
use crate::types::{AssetV, BidView, EffectV, Expiration, OpResponse, OrderView};

verus! {

/// A valid (successful) listing stores an order whose price equals the input
/// price and whose seller equals the verified owner at call time.
pub proof fn lemma_create_order_stores_inputs(
    pre: Marketplace,
    post: Marketplace,
    r: Result<OpResponse, ContractError>,
    now: u64,
    caller: Seq<char>,
    owner: Seq<char>,
    token_id: Seq<char>,
    nft_address: Seq<char>,
    price: AssetV,
    expire_at: Expiration,
)
    requires
        create_order_spec(pre, post, r, now, caller, owner, token_id, nft_address, price, expire_at),
        r is Ok,
    ensures
        post.order_at((token_id, nft_address)) matches Some(o) && o.price == price && o.seller
            == owner,
{
}

/// A listing with a zero price amount is rejected with `InvalidPrice` by any
/// caller who passes the ownership check, and the state is untouched.
pub proof fn lemma_create_order_zero_price(
    pre: Marketplace,
    post: Marketplace,
    r: Result<OpResponse, ContractError>,
    now: u64,
    caller: Seq<char>,
    owner: Seq<char>,
    token_id: Seq<char>,
    nft_address: Seq<char>,
    price: AssetV,
    expire_at: Expiration,
)
    requires
        create_order_spec(pre, post, r, now, caller, owner, token_id, nft_address, price, expire_at),
        owner == caller,
        price.amount == 0,
    ensures
        r matches Err(e) && e == ContractError::InvalidPrice,
        post == pre,
{
}

/// Any offer below the asking price of a live order is rejected with
/// `MinPrice` carrying that asking amount, and the state is untouched.
pub proof fn lemma_create_bid_below_asking(
    pre: Marketplace,
    post: Marketplace,
    r: Result<OpResponse, ContractError>,
    now: u64,
    caller: Seq<char>,
    token_id: Seq<char>,
    nft_address: Seq<char>,
    price: AssetV,
    expire_at: Expiration,
    order: OrderView,
)
    requires
        create_bid_spec(pre, post, r, now, caller, token_id, nft_address, price, expire_at),
        pre.order_at((token_id, nft_address)) == Some(order),
        !time_expired(order.expire_at, now),
        price.amount < order.price.amount,
    ensures
        r matches Err(e) && e == (ContractError::MinPrice { min_bid_amount: order.price.amount }),
        post == pre,
{
}

/// A second bid whose price does not strictly exceed a live standing bid is
/// rejected with `InvalidBidAmount`, and the standing bid remains stored
/// unchanged.
pub proof fn lemma_create_bid_must_outbid(
    pre: Marketplace,
    post: Marketplace,
    r: Result<OpResponse, ContractError>,
    now: u64,
    caller: Seq<char>,
    token_id: Seq<char>,
    nft_address: Seq<char>,
    price: AssetV,
    expire_at: Expiration,
    order: OrderView,
    prev: BidView,
)
    requires
        create_bid_spec(pre, post, r, now, caller, token_id, nft_address, price, expire_at),
        pre.order_at((token_id, nft_address)) == Some(order),
        !time_expired(order.expire_at, now),
        price.amount >= order.price.amount,
        pre.bid_at((token_id, nft_address)) == Some(prev),
        !time_expired(prev.expire_at, now),
        price.amount <= prev.price.amount,
    ensures
        r matches Err(e) && e == ContractError::InvalidBidAmount,
        post == pre,
        post.bid_at((token_id, nft_address)) == Some(prev),
{
}

/// A second bid that strictly exceeds a live standing bid succeeds: the
/// response carries exactly one effect refunding the previous bidder, and the
/// store afterwards holds only the new bid under that key — a replacement,
/// never a coexistence.
pub proof fn lemma_create_bid_supersedes(
    pre: Marketplace,
    post: Marketplace,
    r: Result<OpResponse, ContractError>,
    now: u64,
    caller: Seq<char>,
    token_id: Seq<char>,
    nft_address: Seq<char>,
    price: AssetV,
    expire_at: Expiration,
    order: OrderView,
    prev: BidView,
)
    requires
        create_bid_spec(pre, post, r, now, caller, token_id, nft_address, price, expire_at),
        pre.order_at((token_id, nft_address)) == Some(order),
        !time_expired(order.expire_at, now),
        price.amount >= order.price.amount,
        pre.bid_at((token_id, nft_address)) == Some(prev),
        !time_expired(prev.expire_at, now),
        price.amount > prev.price.amount,
    ensures
        r matches Ok(resp) && resp.effects_view() == seq![refund_of(prev)],
        post.bid_at((token_id, nft_address)) == Some(
            BidView {
                token_id,
                nft_address,
                bidder: caller,
                seller: order.seller,
                price,
                expire_at,
            },
        ),
{
}

/// Cancelling an order that has a standing bid produces exactly two effects,
/// in order: refund the bid, then return the asset to the seller; afterwards
/// both stores are empty under that key.
pub proof fn lemma_cancel_order_clears_key(
    pre: Marketplace,
    post: Marketplace,
    r: Result<OpResponse, ContractError>,
    caller: Seq<char>,
    token_id: Seq<char>,
    nft_address: Seq<char>,
    order: OrderView,
    bid: BidView,
)
    requires
        cancel_order_spec(pre, post, r, caller, token_id, nft_address),
        pre.order_at((token_id, nft_address)) == Some(order),
        order.seller == caller,
        pre.bid_at((token_id, nft_address)) == Some(bid),
    ensures
        r matches Ok(resp) && resp.effects_view() == seq![
            refund_of(bid),
            EffectV::TransferAsset {
                nft_address: order.nft_address,
                token_id: order.token_id,
                recipient: order.seller,
            },
        ],
        post.order_at((token_id, nft_address)) is None,
        post.bid_at((token_id, nft_address)) is None,
{
    assert(seq![refund_of(bid)].push(
        EffectV::TransferAsset {
            nft_address: order.nft_address,
            token_id: order.token_id,
            recipient: order.seller,
        },
    ) =~= seq![
        refund_of(bid),
        EffectV::TransferAsset {
            nft_address: order.nft_address,
            token_id: order.token_id,
            recipient: order.seller,
        },
    ]);
}

/// Settling an order with a standing bid produces exactly two effects, in
/// order: pay the escrowed value to the seller, then transfer the asset to
/// the bidder; afterwards both records are removed.
pub proof fn lemma_execute_order_settles(
    pre: Marketplace,
    post: Marketplace,
    r: Result<OpResponse, ContractError>,
    caller: Seq<char>,
    token_id: Seq<char>,
    nft_address: Seq<char>,
    order: OrderView,
    bid: BidView,
)
    requires
        execute_order_spec(pre, post, r, caller, token_id, nft_address),
        pre.order_at((token_id, nft_address)) == Some(order),
        order.seller == caller,
        pre.bid_at((token_id, nft_address)) == Some(bid),
    ensures
        r matches Ok(resp) && resp.effects_view() == seq![
            EffectV::TransferValue { value: bid.price, recipient: order.seller },
            EffectV::TransferAsset {
                nft_address: order.nft_address,
                token_id: order.token_id,
                recipient: bid.bidder,
            },
        ],
        post.order_at((token_id, nft_address)) is None,
        post.bid_at((token_id, nft_address)) is None,
{
}

/// Settling an order that has no standing bid fails with `NoBid` and leaves
/// the store state unchanged.
pub proof fn lemma_execute_order_no_bid(
    pre: Marketplace,
    post: Marketplace,
    r: Result<OpResponse, ContractError>,
    caller: Seq<char>,
    token_id: Seq<char>,
    nft_address: Seq<char>,
    order: OrderView,
)
    requires
        execute_order_spec(pre, post, r, caller, token_id, nft_address),
        pre.order_at((token_id, nft_address)) == Some(order),
        order.seller == caller,
        pre.bid_at((token_id, nft_address)) is None,
    ensures
        r matches Err(e) && e == ContractError::NoBid,
        post == pre,
{
}

/// Round trip: after a successful listing, the order found under the key —
/// which is exactly what the order query returns — is the record built from
/// the call's own inputs.
pub proof fn lemma_create_order_query_round_trip(
    pre: Marketplace,
    post: Marketplace,
    r: Result<OpResponse, ContractError>,
    now: u64,
    caller: Seq<char>,
    owner: Seq<char>,
    token_id: Seq<char>,
    nft_address: Seq<char>,
    price: AssetV,
    expire_at: Expiration,
)
    requires
        create_order_spec(pre, post, r, now, caller, owner, token_id, nft_address, price, expire_at),
        r is Ok,
    ensures
        post.order_at((token_id, nft_address)) == Some(
            OrderView { token_id, nft_address, seller: caller, price, expire_at },
        ),
{
}

} // verus!
