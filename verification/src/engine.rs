use vstd::prelude::*;

use crate::error::ContractError;
use crate::store::{AssetKeyV, Table};
use crate::types::{
    attr_amount, attr_text, Asset, AssetV, Attribute, AttrValue, AttrV, Bid, BidView, Effect,
    EffectV, Expiration, OpResponse, Order, OrderView,
};

verus! {

/// Whether a time-based bound has already elapsed at `now`. Height-based and
/// unbounded expirations never count as elapsed here: only an explicit
/// wall-clock bound in the past does.
pub open spec fn time_expired(e: Expiration, now: u64) -> bool {
    e matches Expiration::AtTime(t) && t < now
}

/// Whether a time-based bound lies less than a minute after `now`; such a
/// bound is rejected when a new order is listed.
pub open spec fn expires_too_soon(e: Expiration, now: u64) -> bool {
    e matches Expiration::AtTime(t) && (t as int) < (now as int) + 60
}

fn is_time_expired(e: Expiration, now: u64) -> (r: bool)
    ensures
        r == time_expired(e, now),
{
    match e {
        Expiration::AtTime(t) => t < now,
        _ => false,
    }
}

/// The attributes a successful listing reports.
pub open spec fn create_order_attrs(
    token_id: Seq<char>,
    nft_address: Seq<char>,
    seller: Seq<char>,
    amount: u128,
) -> Seq<AttrV> {
    seq![
        attr_text("action"@, "create_order"@),
        attr_text("token_id"@, token_id),
        attr_text("nft_address"@, nft_address),
        attr_text("seller"@, seller),
        attr_amount("price"@, amount),
    ]
}

/// The attributes a successful bid reports.
pub open spec fn create_bid_attrs(
    token_id: Seq<char>,
    nft_address: Seq<char>,
    bidder: Seq<char>,
) -> Seq<AttrV> {
    seq![
        attr_text("action"@, "create_bid"@),
        attr_text("token_id"@, token_id),
        attr_text("nft_address"@, nft_address),
        attr_text("bidder"@, bidder),
    ]
}

/// The attributes a successful order cancellation reports.
pub open spec fn cancel_order_attrs(token_id: Seq<char>, nft_address: Seq<char>) -> Seq<AttrV> {
    seq![
        attr_text("action"@, "cancel_order"@),
        attr_text("token_id"@, token_id),
        attr_text("nft_address"@, nft_address),
    ]
}

/// The attributes a successful bid cancellation reports.
pub open spec fn cancel_bid_attrs(token_id: Seq<char>, nft_address: Seq<char>) -> Seq<AttrV> {
    seq![
        attr_text("action"@, "cancel_bid"@),
        attr_text("token_id"@, token_id),
        attr_text("nft_address"@, nft_address),
    ]
}

/// The attributes a successful settlement reports.
pub open spec fn execute_order_attrs(
    token_id: Seq<char>,
    nft_address: Seq<char>,
    seller: Seq<char>,
    bidder: Seq<char>,
    amount: u128,
) -> Seq<AttrV> {
    seq![
        attr_text("action"@, "execute_order"@),
        attr_text("token_id"@, token_id),
        attr_text("nft_address"@, nft_address),
        attr_text("seller"@, seller),
        attr_text("bidder"@, bidder),
        attr_amount("price"@, amount),
    ]
}

/// The refund instruction for a superseded or cancelled bid: its escrowed
/// value goes back to the bidder.
pub open spec fn refund_of(b: BidView) -> EffectV {
    EffectV::TransferValue { value: b.price, recipient: b.bidder }
}

/// The settlement engine and its two stores. Each operation validates all of
/// its preconditions before any store mutation, then mutates and returns the
/// ordered external-effect instructions for the host.
pub struct Marketplace {
    orders: Table<Order>,
    bids: Table<Bid>,
}

/// The full behaviour of `create_order`. A listing requires the caller to be
/// the verified current owner, a positive price, and a time-based expiration
/// at least a minute away; a rejected call leaves the state untouched. A
/// successful call stores the order under its key — silently replacing any
/// order already listed there — and emits no effects.
pub open spec fn create_order_spec(
    pre: Marketplace,
    post: Marketplace,
    r: Result<OpResponse, ContractError>,
    now: u64,
    caller: Seq<char>,
    owner: Seq<char>,
    token_id: Seq<char>,
    nft_address: Seq<char>,
    price: AssetV,
    expire_at: Expiration,
) -> bool {
    let k = (token_id, nft_address);
    if owner != caller {
        r matches Err(e) && e == ContractError::NoOwner && post == pre
    } else if price.amount == 0 {
        r matches Err(e) && e == ContractError::InvalidPrice && post == pre
    } else if expires_too_soon(expire_at, now) {
        r matches Err(e) && e == ContractError::InvalidExpiration && post == pre
    } else {
        &&& post.order_at(k) == Some(
            OrderView { token_id, nft_address, seller: caller, price, expire_at },
        )
        &&& forall|k2: AssetKeyV| k2 != k ==> post.order_at(k2) == pre.order_at(k2)
        &&& forall|k2: AssetKeyV| post.bid_at(k2) == pre.bid_at(k2)
        &&& r matches Ok(resp) && resp.effects_view() == Seq::<EffectV>::empty()
            && resp.attrs_view() == create_order_attrs(token_id, nft_address, caller, price.amount)
    }
}

/// The state and response of a successful `create_bid`: the new bid stands
/// alone under its key with the seller copied from the order, every other key
/// is untouched, and the response carries exactly the refund instructions for
/// the superseded bid, if one was standing.
pub open spec fn create_bid_success(
    pre: Marketplace,
    post: Marketplace,
    r: Result<OpResponse, ContractError>,
    caller: Seq<char>,
    token_id: Seq<char>,
    nft_address: Seq<char>,
    price: AssetV,
    expire_at: Expiration,
    seller: Seq<char>,
    refunds: Seq<EffectV>,
) -> bool {
    let k = (token_id, nft_address);
    &&& post.bid_at(k) == Some(
        BidView { token_id, nft_address, bidder: caller, seller, price, expire_at },
    )
    &&& forall|k2: AssetKeyV| k2 != k ==> post.bid_at(k2) == pre.bid_at(k2)
    &&& forall|k2: AssetKeyV| post.order_at(k2) == pre.order_at(k2)
    &&& r matches Ok(resp) && resp.effects_view() == refunds && resp.attrs_view()
        == create_bid_attrs(token_id, nft_address, caller)
}

/// The full behaviour of `create_bid`. The referenced order must exist and
/// not have an elapsed time-based expiration, and the offer must reach the
/// asking price. A standing live bid must be strictly outbid; a standing
/// expired bid only requires a positive price. The superseded bid, if any, is
/// refunded and removed in the same call.
pub open spec fn create_bid_spec(
    pre: Marketplace,
    post: Marketplace,
    r: Result<OpResponse, ContractError>,
    now: u64,
    caller: Seq<char>,
    token_id: Seq<char>,
    nft_address: Seq<char>,
    price: AssetV,
    expire_at: Expiration,
) -> bool {
    let k = (token_id, nft_address);
    match pre.order_at(k) {
        None => r matches Err(e) && e == ContractError::OrderNotFound && post == pre,
        Some(order) => if time_expired(order.expire_at, now) {
            r matches Err(e) && e == ContractError::Expired && post == pre
        } else if price.amount < order.price.amount {
            r matches Err(e) && e == (ContractError::MinPrice {
                min_bid_amount: order.price.amount,
            }) && post == pre
        } else {
            match pre.bid_at(k) {
                Some(prev) => if time_expired(prev.expire_at, now) && price.amount == 0 {
                    r matches Err(e) && e == ContractError::ZeroBidAmount && post == pre
                } else if !time_expired(prev.expire_at, now) && price.amount <= prev.price.amount {
                    r matches Err(e) && e == ContractError::InvalidBidAmount && post == pre
                } else {
                    create_bid_success(
                        pre,
                        post,
                        r,
                        caller,
                        token_id,
                        nft_address,
                        price,
                        expire_at,
                        order.seller,
                        seq![refund_of(prev)],
                    )
                },
                None => if price.amount == 0 {
                    r matches Err(e) && e == ContractError::ZeroBidAmount && post == pre
                } else {
                    create_bid_success(
                        pre,
                        post,
                        r,
                        caller,
                        token_id,
                        nft_address,
                        price,
                        expire_at,
                        order.seller,
                        Seq::<EffectV>::empty(),
                    )
                },
            }
        },
    }
}

/// The full behaviour of `cancel_order`. Only the seller of an existing order
/// may cancel it. Any standing bid is refunded and removed first; the asset
/// is instructed back to the seller; both records end up absent.
pub open spec fn cancel_order_spec(
    pre: Marketplace,
    post: Marketplace,
    r: Result<OpResponse, ContractError>,
    caller: Seq<char>,
    token_id: Seq<char>,
    nft_address: Seq<char>,
) -> bool {
    let k = (token_id, nft_address);
    match pre.order_at(k) {
        None => r matches Err(e) && e == ContractError::OrderNotFound && post == pre,
        Some(order) => if order.seller != caller {
            r matches Err(e) && e == ContractError::Unauthorized && post == pre
        } else {
            let refunds = match pre.bid_at(k) {
                Some(b) => seq![refund_of(b)],
                None => Seq::<EffectV>::empty(),
            };
            &&& post.order_at(k) is None
            &&& post.bid_at(k) is None
            &&& forall|k2: AssetKeyV| k2 != k ==> post.order_at(k2) == pre.order_at(k2)
            &&& forall|k2: AssetKeyV| k2 != k ==> post.bid_at(k2) == pre.bid_at(k2)
            &&& r matches Ok(resp) && resp.effects_view() == refunds.push(
                EffectV::TransferAsset {
                    nft_address: order.nft_address,
                    token_id: order.token_id,
                    recipient: order.seller,
                },
            ) && resp.attrs_view() == cancel_order_attrs(token_id, nft_address)
        },
    }
}

/// The full behaviour of `cancel_bid`. The standing bid is refunded to its
/// bidder and removed. The caller is not compared with the bidder: access
/// control on this entry is left to the host.
pub open spec fn cancel_bid_spec(
    pre: Marketplace,
    post: Marketplace,
    r: Result<OpResponse, ContractError>,
    token_id: Seq<char>,
    nft_address: Seq<char>,
) -> bool {
    let k = (token_id, nft_address);
    match pre.bid_at(k) {
        None => r matches Err(e) && e == ContractError::BidNotFound && post == pre,
        Some(b) => {
            &&& post.bid_at(k) is None
            &&& forall|k2: AssetKeyV| k2 != k ==> post.bid_at(k2) == pre.bid_at(k2)
            &&& forall|k2: AssetKeyV| post.order_at(k2) == pre.order_at(k2)
            &&& r matches Ok(resp) && resp.effects_view() == seq![refund_of(b)]
                && resp.attrs_view() == cancel_bid_attrs(token_id, nft_address)
        },
    }
}

/// The full behaviour of `execute_order`: the terminal, successful-sale
/// transition. An existing order, its seller as caller, and a standing bid
/// are required. Exactly two instructions are emitted in order — pay the
/// escrowed value to the seller, then transfer the asset to the bidder — and
/// both records are removed.
pub open spec fn execute_order_spec(
    pre: Marketplace,
    post: Marketplace,
    r: Result<OpResponse, ContractError>,
    caller: Seq<char>,
    token_id: Seq<char>,
    nft_address: Seq<char>,
) -> bool {
    let k = (token_id, nft_address);
    match pre.order_at(k) {
        None => r matches Err(e) && e == ContractError::Unauthorized && post == pre,
        Some(order) => if order.seller != caller {
            r matches Err(e) && e == ContractError::Unauthorized && post == pre
        } else {
            match pre.bid_at(k) {
                None => r matches Err(e) && e == ContractError::NoBid && post == pre,
                Some(bid) => {
                    &&& post.order_at(k) is None
                    &&& post.bid_at(k) is None
                    &&& forall|k2: AssetKeyV| k2 != k ==> post.order_at(k2) == pre.order_at(k2)
                    &&& forall|k2: AssetKeyV| k2 != k ==> post.bid_at(k2) == pre.bid_at(k2)
                    &&& r matches Ok(resp) && resp.effects_view() == seq![
                        EffectV::TransferValue { value: bid.price, recipient: order.seller },
                        EffectV::TransferAsset {
                            nft_address: order.nft_address,
                            token_id: order.token_id,
                            recipient: bid.bidder,
                        },
                    ] && resp.attrs_view() == execute_order_attrs(
                        order.token_id,
                        order.nft_address,
                        order.seller,
                        bid.bidder,
                        order.price.amount,
                    )
                },
            }
        },
    }
}

impl Marketplace {
    /// The order stored under `k`, if any.
    pub closed spec fn order_at(self, k: AssetKeyV) -> Option<OrderView> {
        self.orders.at(k)
    }

    /// The bid stored under `k`, if any.
    pub closed spec fn bid_at(self, k: AssetKeyV) -> Option<BidView> {
        self.bids.at(k)
    }

    /// Structural well-formedness of the two stores: at most one order and at
    /// most one bid per asset key.
    pub closed spec fn wf(self) -> bool {
        self.orders.wf() && self.bids.wf()
    }

    /// An engine with both stores empty.
    pub fn new() -> (r: Marketplace)
        ensures
            r.wf(),
            forall|k: AssetKeyV| r.order_at(k) is None,
            forall|k: AssetKeyV| r.bid_at(k) is None,
    {
        Marketplace { orders: Table::new(), bids: Table::new() }
    }

    /// Lists the asset for sale. `owner` is the asset's current owner as the
    /// host's ownership query verified it; `caller` must match it. On success
    /// the order is stored under its key (replacing any previous listing
    /// there) and no effects are emitted: the asset itself is expected to be
    /// escrowed by the surrounding transaction.
    pub fn create_order(
        &mut self,
        now: u64,
        caller: String,
        owner: &String,
        token_id: String,
        nft_address: String,
        price: Asset,
        expire_at: Expiration,
    ) -> (r: Result<OpResponse, ContractError>)
        requires
            old(self).wf(),
        ensures
            final(self).wf(),
            create_order_spec(
                *old(self),
                *final(self),
                r,
                now,
                caller@,
                owner@,
                token_id@,
                nft_address@,
                price@,
                expire_at,
            ),
    {
        if *owner != caller {
            return Err(ContractError::NoOwner);
        }
        if price.amount == 0 {
            return Err(ContractError::InvalidPrice);
        }
        match expire_at {
            Expiration::AtTime(t) => {
                if (t as u128) < (now as u128) + 60 {
                    return Err(ContractError::InvalidExpiration);
                }
            },
            _ => {},
        }
        let amount = price.amount;
        let order = Order {
            token_id: token_id.clone(),
            nft_address: nft_address.clone(),
            seller: caller.clone(),
            price,
            expire_at,
        };
        let mut attributes: Vec<Attribute> = Vec::new();
        attributes.push(
            Attribute { key: "action".to_owned(), value: AttrValue::Text("create_order".to_owned()) },
        );
        attributes.push(
            Attribute { key: "token_id".to_owned(), value: AttrValue::Text(token_id.clone()) },
        );
        attributes.push(
            Attribute { key: "nft_address".to_owned(), value: AttrValue::Text(nft_address.clone()) },
        );
        attributes.push(Attribute { key: "seller".to_owned(), value: AttrValue::Text(caller) });
        attributes.push(Attribute { key: "price".to_owned(), value: AttrValue::Amount(amount) });
        self.orders.put(token_id, nft_address, order);
        let resp = OpResponse { effects: Vec::new(), attributes };
        proof {
            assert(resp.effects_view() =~= Seq::<EffectV>::empty());
            assert(resp.attrs_view() =~= create_order_attrs(
                token_id@,
                nft_address@,
                caller@,
                amount,
            ));
        }
        Ok(resp)
    }

    /// Offers to buy the listed asset. The offered value is expected to be
    /// escrowed by the surrounding transaction; a superseded standing bid is
    /// refunded to its bidder in the same call.
    pub fn create_bid(
        &mut self,
        now: u64,
        caller: String,
        token_id: String,
        nft_address: String,
        price: Asset,
        expire_at: Expiration,
    ) -> (r: Result<OpResponse, ContractError>)
        requires
            old(self).wf(),
        ensures
            final(self).wf(),
            create_bid_spec(
                *old(self),
                *final(self),
                r,
                now,
                caller@,
                token_id@,
                nft_address@,
                price@,
                expire_at,
            ),
    {
        let seller: String;
        match self.orders.get(&token_id, &nft_address) {
            None => {
                return Err(ContractError::OrderNotFound);
            },
            Some(order) => {
                if is_time_expired(order.expire_at, now) {
                    return Err(ContractError::Expired);
                }
                if price.amount < order.price.amount {
                    return Err(ContractError::MinPrice { min_bid_amount: order.price.amount });
                }
                seller = order.seller.clone();
            },
        }
        let has_prev: bool;
        match self.bids.get(&token_id, &nft_address) {
            Some(prev) => {
                if is_time_expired(prev.expire_at, now) {
                    if price.amount == 0 {
                        return Err(ContractError::ZeroBidAmount);
                    }
                } else {
                    if price.amount <= prev.price.amount {
                        return Err(ContractError::InvalidBidAmount);
                    }
                }
                has_prev = true;
            },
            None => {
                if price.amount == 0 {
                    return Err(ContractError::ZeroBidAmount);
                }
                has_prev = false;
            },
        }
        let ghost expected_refunds: Seq<EffectV> = if has_prev {
            seq![refund_of(self.bids.at((token_id@, nft_address@)).unwrap())]
        } else {
            Seq::<EffectV>::empty()
        };
        let mut effects: Vec<Effect> = Vec::new();
        if has_prev {
            let prev = self.bids.take(&token_id, &nft_address).unwrap();
            effects.push(Effect::TransferValue { value: prev.price, recipient: prev.bidder });
        }
        let bid = Bid {
            token_id: token_id.clone(),
            nft_address: nft_address.clone(),
            bidder: caller.clone(),
            seller,
            price,
            expire_at,
        };
        let mut attributes: Vec<Attribute> = Vec::new();
        attributes.push(
            Attribute { key: "action".to_owned(), value: AttrValue::Text("create_bid".to_owned()) },
        );
        attributes.push(
            Attribute { key: "token_id".to_owned(), value: AttrValue::Text(token_id.clone()) },
        );
        attributes.push(
            Attribute { key: "nft_address".to_owned(), value: AttrValue::Text(nft_address.clone()) },
        );
        attributes.push(Attribute { key: "bidder".to_owned(), value: AttrValue::Text(caller) });
        self.bids.put(token_id, nft_address, bid);
        let resp = OpResponse { effects, attributes };
        proof {
            assert(resp.effects_view() =~= expected_refunds);
            assert(resp.attrs_view() =~= create_bid_attrs(token_id@, nft_address@, caller@));
        }
        Ok(resp)
    }

    /// Cancels the caller's own listing. A standing bid is refunded first,
    /// then the asset is instructed back to the seller, and both records are
    /// removed.
    pub fn cancel_order(
        &mut self,
        caller: &String,
        token_id: String,
        nft_address: String,
    ) -> (r: Result<OpResponse, ContractError>)
        requires
            old(self).wf(),
        ensures
            final(self).wf(),
            cancel_order_spec(*old(self), *final(self), r, caller@, token_id@, nft_address@),
    {
        match self.orders.get(&token_id, &nft_address) {
            None => {
                return Err(ContractError::OrderNotFound);
            },
            Some(order) => {
                if order.seller != *caller {
                    return Err(ContractError::Unauthorized);
                }
            },
        }
        let order = self.orders.take(&token_id, &nft_address).unwrap();
        let mut effects: Vec<Effect> = Vec::new();
        match self.bids.take(&token_id, &nft_address) {
            Some(prev) => {
                effects.push(Effect::TransferValue { value: prev.price, recipient: prev.bidder });
            },
            None => {},
        }
        effects.push(
            Effect::TransferAsset {
                nft_address: order.nft_address,
                token_id: order.token_id,
                recipient: order.seller,
            },
        );
        let mut attributes: Vec<Attribute> = Vec::new();
        attributes.push(
            Attribute { key: "action".to_owned(), value: AttrValue::Text("cancel_order".to_owned()) },
        );
        attributes.push(
            Attribute { key: "token_id".to_owned(), value: AttrValue::Text(token_id.clone()) },
        );
        attributes.push(
            Attribute { key: "nft_address".to_owned(), value: AttrValue::Text(nft_address.clone()) },
        );
        let resp = OpResponse { effects, attributes };
        proof {
            let k = (token_id@, nft_address@);
            let refunds = match old(self).bid_at(k) {
                Some(b) => seq![refund_of(b)],
                None => Seq::<EffectV>::empty(),
            };
            assert(resp.effects_view() =~= refunds.push(
                EffectV::TransferAsset {
                    nft_address: old(self).order_at(k).unwrap().nft_address,
                    token_id: old(self).order_at(k).unwrap().token_id,
                    recipient: old(self).order_at(k).unwrap().seller,
                },
            ));
            assert(resp.attrs_view() =~= cancel_order_attrs(token_id@, nft_address@));
        }
        Ok(resp)
    }

    /// Refunds and removes the standing bid. The caller is not checked
    /// against the bidder: the host decides who may reach this entry.
    pub fn cancel_bid(
        &mut self,
        token_id: String,
        nft_address: String,
    ) -> (r: Result<OpResponse, ContractError>)
        requires
            old(self).wf(),
        ensures
            final(self).wf(),
            cancel_bid_spec(*old(self), *final(self), r, token_id@, nft_address@),
    {
        let bid = match self.bids.take(&token_id, &nft_address) {
            None => {
                return Err(ContractError::BidNotFound);
            },
            Some(b) => b,
        };
        let mut effects: Vec<Effect> = Vec::new();
        effects.push(Effect::TransferValue { value: bid.price, recipient: bid.bidder });
        let mut attributes: Vec<Attribute> = Vec::new();
        attributes.push(
            Attribute { key: "action".to_owned(), value: AttrValue::Text("cancel_bid".to_owned()) },
        );
        attributes.push(
            Attribute { key: "token_id".to_owned(), value: AttrValue::Text(token_id.clone()) },
        );
        attributes.push(
            Attribute { key: "nft_address".to_owned(), value: AttrValue::Text(nft_address.clone()) },
        );
        let resp = OpResponse { effects, attributes };
        proof {
            let k = (token_id@, nft_address@);
            assert(resp.effects_view() =~= seq![refund_of(old(self).bid_at(k).unwrap())]);
            assert(resp.attrs_view() =~= cancel_bid_attrs(token_id@, nft_address@));
        }
        Ok(resp)
    }

    /// Settles the sale: the caller must be the seller of an existing order
    /// with a standing bid. Pays the escrowed value to the seller, transfers
    /// the asset to the bidder, and removes both records.
    pub fn execute_order(
        &mut self,
        caller: &String,
        token_id: String,
        nft_address: String,
    ) -> (r: Result<OpResponse, ContractError>)
        requires
            old(self).wf(),
        ensures
            final(self).wf(),
            execute_order_spec(*old(self), *final(self), r, caller@, token_id@, nft_address@),
    {
        match self.orders.get(&token_id, &nft_address) {
            None => {
                return Err(ContractError::Unauthorized);
            },
            Some(order) => {
                if order.seller != *caller {
                    return Err(ContractError::Unauthorized);
                }
            },
        }
        if self.bids.get(&token_id, &nft_address).is_none() {
            return Err(ContractError::NoBid);
        }
        let order = self.orders.take(&token_id, &nft_address).unwrap();
        let bid = self.bids.take(&token_id, &nft_address).unwrap();
        let amount = order.price.amount;
        let mut effects: Vec<Effect> = Vec::new();
        effects.push(Effect::TransferValue { value: bid.price, recipient: order.seller.clone() });
        effects.push(
            Effect::TransferAsset {
                nft_address: order.nft_address.clone(),
                token_id: order.token_id.clone(),
                recipient: bid.bidder.clone(),
            },
        );
        let mut attributes: Vec<Attribute> = Vec::new();
        attributes.push(
            Attribute {
                key: "action".to_owned(),
                value: AttrValue::Text("execute_order".to_owned()),
            },
        );
        attributes.push(
            Attribute { key: "token_id".to_owned(), value: AttrValue::Text(order.token_id) },
        );
        attributes.push(
            Attribute { key: "nft_address".to_owned(), value: AttrValue::Text(order.nft_address) },
        );
        attributes.push(Attribute { key: "seller".to_owned(), value: AttrValue::Text(order.seller) });
        attributes.push(Attribute { key: "bidder".to_owned(), value: AttrValue::Text(bid.bidder) });
        attributes.push(Attribute { key: "price".to_owned(), value: AttrValue::Amount(amount) });
        let resp = OpResponse { effects, attributes };
        proof {
            let k = (token_id@, nft_address@);
            let o = old(self).order_at(k).unwrap();
            let b = old(self).bid_at(k).unwrap();
            assert(resp.effects_view() =~= seq![
                EffectV::TransferValue { value: b.price, recipient: o.seller },
                EffectV::TransferAsset {
                    nft_address: o.nft_address,
                    token_id: o.token_id,
                    recipient: b.bidder,
                },
            ]);
            assert(resp.attrs_view() =~= execute_order_attrs(
                o.token_id,
                o.nft_address,
                o.seller,
                b.bidder,
                o.price.amount,
            ));
        }
        Ok(resp)
    }

    /// Reinstates a persisted order under its own key, as the host's storage
    /// layer hands it back; an order already under that key is replaced.
    pub fn restore_order(&mut self, order: Order)
        requires
            old(self).wf(),
        ensures
            final(self).wf(),
            final(self).order_at((order.token_id@, order.nft_address@)) == Some(order@),
            forall|k2: AssetKeyV|
                k2 != (order.token_id@, order.nft_address@) ==> final(self).order_at(k2) == old(
                    self,
                ).order_at(k2),
            forall|k2: AssetKeyV| final(self).bid_at(k2) == old(self).bid_at(k2),
    {
        let token_id = order.token_id.clone();
        let nft_address = order.nft_address.clone();
        self.orders.put(token_id, nft_address, order);
    }

    /// Reinstates a persisted bid under its own key, as the host's storage
    /// layer hands it back; a bid already under that key is replaced.
    pub fn restore_bid(&mut self, bid: Bid)
        requires
            old(self).wf(),
        ensures
            final(self).wf(),
            final(self).bid_at((bid.token_id@, bid.nft_address@)) == Some(bid@),
            forall|k2: AssetKeyV|
                k2 != (bid.token_id@, bid.nft_address@) ==> final(self).bid_at(k2) == old(
                    self,
                ).bid_at(k2),
            forall|k2: AssetKeyV| final(self).order_at(k2) == old(self).order_at(k2),
    {
        let token_id = bid.token_id.clone();
        let nft_address = bid.nft_address.clone();
        self.bids.put(token_id, nft_address, bid);
    }

    /// The order stored under the given key, if any: the read-only query.
    pub fn query_order<'a>(&'a self, token_id: &String, nft_address: &String) -> (r: Option<
        &'a Order,
    >)
        requires
            self.wf(),
        ensures
            match r {
                Some(o) => self.order_at((token_id@, nft_address@)) == Some(o@),
                None => self.order_at((token_id@, nft_address@)) is None,
            },
    {
        self.orders.get(token_id, nft_address)
    }

    /// The bid stored under the given key, if any: the read-only query.
    pub fn query_bid<'a>(&'a self, token_id: &String, nft_address: &String) -> (r: Option<&'a Bid>)
        requires
            self.wf(),
        ensures
            match r {
                Some(b) => self.bid_at((token_id@, nft_address@)) == Some(b@),
                None => self.bid_at((token_id@, nft_address@)) is None,
            },
    {
        self.bids.get(token_id, nft_address)
    }
}

/// The engine's version string, as the version query reports it.
pub fn version() -> (r: String)
    ensures
        r@ == "1.72"@,
{
    "1.72".to_owned()
}

} // verus!
